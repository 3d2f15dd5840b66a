use vstd::prelude::*;

use crate::address::{contains_address, Address};
use crate::error::SolTradeError;

verus! {

/// The process-wide registry: who set it up, and how many trades exist.
#[derive(Clone, Copy, Debug)]
pub struct Authority {
    pub user: Address,
    pub trade_count: u32,
}

impl Authority {
    /// Stored size in bytes: an eight-byte kind tag, the owner and the counter.
    pub const SIZE: usize = 44;
}

/// The kinds of asset an item can carry.
#[derive(Clone, Copy, Debug, PartialEq, Eq, Structural)]
pub enum AssetItemType {
    SOL,
    SPL,
    CNFT,
}

/// The asset kind that a wire code stands for, if any.
pub open spec fn asset_type_of(code: u8) -> Option<AssetItemType> {
    if code == 1 {
        Some(AssetItemType::SOL)
    } else if code == 2 {
        Some(AssetItemType::SPL)
    } else if code == 3 {
        Some(AssetItemType::CNFT)
    } else {
        None
    }
}

/// The wire code of an asset kind.
pub open spec fn asset_type_code(t: AssetItemType) -> u8 {
    match t {
        AssetItemType::SOL => 1,
        AssetItemType::SPL => 2,
        AssetItemType::CNFT => 3,
    }
}

impl AssetItemType {
    /// Decodes a wire code; unknown codes are refused.
    pub fn from_code(code: u8) -> (r: Result<AssetItemType, SolTradeError>)
        ensures
            r == (match asset_type_of(code) {
                Some(t) => Ok(t),
                None => Err(SolTradeError::InvalidAssetItemType),
            }),
    {
        match code {
            1 => Ok(AssetItemType::SOL),
            2 => Ok(AssetItemType::SPL),
            3 => Ok(AssetItemType::CNFT),
            _ => Err(SolTradeError::InvalidAssetItemType),
        }
    }

    /// The wire code of this kind.
    pub fn to_code(&self) -> (r: u8)
        ensures
            r == asset_type_code(*self),
            asset_type_of(r) == Some(*self),
    {
        match self {
            AssetItemType::SOL => 1,
            AssetItemType::SPL => 2,
            AssetItemType::CNFT => 3,
        }
    }
}

/// Which kind of record holds an asset item.
#[derive(Clone, Copy, Debug, PartialEq, Eq, Structural)]
pub enum ContainerKind {
    Trade,
    Offer,
}

/// The container kind that a wire code stands for, if any.
pub open spec fn container_kind_of(code: u8) -> Option<ContainerKind> {
    if code == 1 {
        Some(ContainerKind::Trade)
    } else if code == 2 {
        Some(ContainerKind::Offer)
    } else {
        None
    }
}

impl ContainerKind {
    /// Decodes a wire code; unknown codes are refused.
    pub fn from_code(code: u8) -> (r: Result<ContainerKind, SolTradeError>)
        ensures
            r == (match container_kind_of(code) {
                Some(k) => Ok(k),
                None => Err(SolTradeError::InvalidContainerType),
            }),
    {
        match code {
            1 => Ok(ContainerKind::Trade),
            2 => Ok(ContainerKind::Offer),
            _ => Err(SolTradeError::InvalidContainerType),
        }
    }
}

/// A deposit of native currency.
#[derive(Clone, Copy, Debug)]
pub struct AssetItemSOL {
    pub index: u32,
    pub type_index: u32,
    /// The trade or offer that holds the item.
    pub from: Address,
    /// The depositor.
    pub user: Address,
    pub asset_type: u8,
    pub exchanged: bool,
    pub amount: u64,
}

impl AssetItemSOL {
    /// Stored size in bytes, kind tag included.
    pub const SIZE: usize = 90;
}

/// A deposit of a token.
#[derive(Clone, Copy, Debug)]
pub struct AssetItemSPL {
    pub index: u32,
    pub type_index: u32,
    /// The trade or offer that holds the item.
    pub from: Address,
    /// The depositor.
    pub user: Address,
    pub asset_type: u8,
    pub exchanged: bool,
    pub token: Address,
    pub mint: Address,
}

impl AssetItemSPL {
    /// Stored size in bytes, kind tag included.
    pub const SIZE: usize = 146;
}

/// An asset item of either kind.
#[derive(Clone, Copy, Debug)]
pub enum AssetItem {
    Sol(AssetItemSOL),
    Spl(AssetItemSPL),
}

impl AssetItem {
    pub open spec fn kind(self) -> AssetItemType {
        match self {
            AssetItem::Sol(_) => AssetItemType::SOL,
            AssetItem::Spl(_) => AssetItemType::SPL,
        }
    }

    pub open spec fn is_exchanged(self) -> bool {
        match self {
            AssetItem::Sol(s) => s.exchanged,
            AssetItem::Spl(s) => s.exchanged,
        }
    }

    pub open spec fn holder(self) -> Address {
        match self {
            AssetItem::Sol(s) => s.from,
            AssetItem::Spl(s) => s.from,
        }
    }

    /// The native currency that moves when the item is exchanged.
    pub open spec fn value(self) -> u64 {
        match self {
            AssetItem::Sol(s) => s.amount,
            AssetItem::Spl(_) => 0,
        }
    }

    /// The item with its exchange flag set and nothing else changed.
    pub open spec fn marked_exchanged(self) -> AssetItem {
        match self {
            AssetItem::Sol(s) => AssetItem::Sol(AssetItemSOL { exchanged: true, ..s }),
            AssetItem::Spl(s) => AssetItem::Spl(AssetItemSPL { exchanged: true, ..s }),
        }
    }
}

/// The three asset counters that a trade and an offer both keep.
#[derive(Clone, Copy, Debug, PartialEq, Eq, Structural)]
pub struct AssetCounts {
    pub total: u32,
    pub sol: u32,
    pub spl: u32,
}

impl AssetCounts {
    /// The total is the sum of the per-kind counts.
    pub open spec fn consistent(self) -> bool {
        self.total == self.sol + self.spl
    }
}

/// An escrow session opened by `user` for at most five other identities.
#[derive(Clone, Debug)]
pub struct Trade {
    pub index: u32,
    pub user: Address,
    pub offer_count: u32,
    pub asset_count: u32,
    pub accepted_offer: Option<Address>,
    pub exchanged_count: u32,
    pub enabled: bool,
    pub allowed_users: Vec<Address>,
    pub asset_sol_count: u32,
    pub asset_spl_count: u32,
}

impl Trade {
    /// Stored size in bytes: room for five allowed users, kind tag included.
    pub const SIZE: usize = 261;

    pub open spec fn counts_of(&self) -> AssetCounts {
        AssetCounts { total: self.asset_count, sol: self.asset_sol_count, spl: self.asset_spl_count }
    }

    /// At most five allowed users, the creator not among them, and the
    /// asset total equal to the sum of the per-kind counts.
    pub open spec fn wf(&self) -> bool {
        &&& self.allowed_users@.len() <= 5
        &&& !self.allowed_users@.contains(self.user)
        &&& self.counts_of().consistent()
    }

    /// Whether the record is well formed; a record read back from storage
    /// is checked with this before it is handed to an operation.
    pub fn check_wf(&self) -> (r: bool)
        ensures
            r == self.wf(),
    {
        self.allowed_users.len() <= 5 && !contains_address(&self.allowed_users, &self.user)
            && self.asset_count as u64 == self.asset_sol_count as u64 + self.asset_spl_count as u64
    }
}

/// A counter-proposal submitted by `user` against the trade stored at `trade`.
#[derive(Clone, Copy, Debug)]
pub struct Offer {
    pub index: u32,
    pub user: Address,
    pub trade: Address,
    pub asset_count: u32,
    pub enabled: bool,
    pub accepted: bool,
    pub exchanged_count: u32,
    pub asset_sol_count: u32,
    pub asset_spl_count: u32,
}

impl Offer {
    /// Stored size in bytes, kind tag and parent trade included.
    pub const SIZE: usize = 94;

    pub open spec fn counts_of(&self) -> AssetCounts {
        AssetCounts { total: self.asset_count, sol: self.asset_sol_count, spl: self.asset_spl_count }
    }

    /// The asset total equals the sum of the per-kind counts.
    pub open spec fn wf(&self) -> bool {
        self.counts_of().consistent()
    }

    /// Whether the record is well formed.
    pub fn check_wf(&self) -> (r: bool)
        ensures
            r == self.wf(),
    {
        self.asset_count as u64 == self.asset_sol_count as u64 + self.asset_spl_count as u64
    }
}

/// What a deposit needs of the record that holds the deposited items.
pub trait TradeOrOffer: Sized {
    spec fn kind_spec(&self) -> ContainerKind;

    spec fn counts_spec(&self) -> AssetCounts;

    spec fn well_formed(&self) -> bool;

    /// The record with its three asset counters replaced by `c`.
    spec fn with_counts(&self, c: AssetCounts) -> Self;

    proof fn lemma_with_counts(&self, c: AssetCounts)
        ensures
            self.with_counts(c).counts_spec() == c,
            self.with_counts(c).kind_spec() == self.kind_spec(),
            self.well_formed() && c.consistent() ==> self.with_counts(c).well_formed(),
            self.well_formed() ==> self.counts_spec().consistent(),
    ;

    fn kind(&self) -> (r: ContainerKind)
        ensures
            r == self.kind_spec(),
    ;

    fn counts(&self) -> (r: AssetCounts)
        ensures
            r == self.counts_spec(),
    ;

    fn set_counts(&mut self, c: AssetCounts)
        ensures
            *final(self) == old(self).with_counts(c),
    ;
}

impl TradeOrOffer for Trade {
    open spec fn kind_spec(&self) -> ContainerKind {
        ContainerKind::Trade
    }

    open spec fn counts_spec(&self) -> AssetCounts {
        self.counts_of()
    }

    open spec fn well_formed(&self) -> bool {
        self.wf()
    }

    open spec fn with_counts(&self, c: AssetCounts) -> Trade {
        Trade { asset_count: c.total, asset_sol_count: c.sol, asset_spl_count: c.spl, ..*self }
    }

    proof fn lemma_with_counts(&self, c: AssetCounts) {
    }

    fn kind(&self) -> (r: ContainerKind) {
        ContainerKind::Trade
    }

    fn counts(&self) -> (r: AssetCounts) {
        AssetCounts { total: self.asset_count, sol: self.asset_sol_count, spl: self.asset_spl_count }
    }

    fn set_counts(&mut self, c: AssetCounts) {
        self.asset_count = c.total;
        self.asset_sol_count = c.sol;
        self.asset_spl_count = c.spl;
    }
}

impl TradeOrOffer for Offer {
    open spec fn kind_spec(&self) -> ContainerKind {
        ContainerKind::Offer
    }

    open spec fn counts_spec(&self) -> AssetCounts {
        self.counts_of()
    }

    open spec fn well_formed(&self) -> bool {
        self.wf()
    }

    open spec fn with_counts(&self, c: AssetCounts) -> Offer {
        Offer { asset_count: c.total, asset_sol_count: c.sol, asset_spl_count: c.spl, ..*self }
    }

    proof fn lemma_with_counts(&self, c: AssetCounts) {
    }

    fn kind(&self) -> (r: ContainerKind) {
        ContainerKind::Offer
    }

    fn counts(&self) -> (r: AssetCounts) {
        AssetCounts { total: self.asset_count, sol: self.asset_sol_count, spl: self.asset_spl_count }
    }

    fn set_counts(&mut self, c: AssetCounts) {
        self.asset_count = c.total;
        self.asset_sol_count = c.sol;
        self.asset_spl_count = c.spl;
    }
}

} // verus!
