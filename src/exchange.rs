use vstd::prelude::*;

use crate::address::Wallet;
use crate::error::SolTradeError;
use crate::state::{
    asset_type_of, container_kind_of, AssetItem, AssetItemSOL, AssetItemSPL, AssetItemType,
    ContainerKind, Offer, Trade,
};

verus! {

/// How many items the side that `kind` names has exchanged.
pub open spec fn exchanged_count_of(trade: Trade, offer: Offer, kind: ContainerKind) -> u32 {
    match kind {
        ContainerKind::Trade => trade.exchanged_count,
        ContainerKind::Offer => offer.exchanged_count,
    }
}

/// Why exchanging `item` out of `custody` into `recipient` fails, in the
/// order the checks are made, or `None` where it succeeds.
pub open spec fn exchange_error(
    trade: Trade,
    offer: Offer,
    from_type: u8,
    asset_type: u8,
    item: AssetItem,
    custody: Wallet,
    recipient: Wallet,
) -> Option<SolTradeError> {
    match asset_type_of(asset_type) {
        Some(AssetItemType::CNFT) => Some(SolTradeError::InvalidAssetItemType),
        None => Some(SolTradeError::InvalidAssetItemType),
        Some(kind) => match container_kind_of(from_type) {
            None => Some(SolTradeError::InvalidAssetItemType),
            Some(side) => {
                if item.kind() != kind {
                    Some(SolTradeError::InvalidAssetItemType)
                } else if item.is_exchanged() {
                    Some(SolTradeError::AssetItemAlreadyExchanged)
                } else if item.holder() != custody.key {
                    Some(SolTradeError::AssetItemInvalidFrom)
                } else if recipient.key == custody.key || (side == ContainerKind::Offer
                    && recipient.key != trade.user) {
                    Some(SolTradeError::ExchangeInvalidRecipient)
                } else if custody.lamports < item.value() {
                    Some(SolTradeError::InsufficientFunds)
                } else if recipient.lamports + item.value() > u64::MAX || exchanged_count_of(
                    trade,
                    offer,
                    side,
                ) == u32::MAX {
                    Some(SolTradeError::ArithmeticOverflow)
                } else {
                    None
                }
            },
        },
    }
}

/// Moves one asset item from the side that `from_type` names to the other.
///
/// `custody` is the account of that side, which holds the item; `recipient`
/// is the identity that receives it: for an item leaving the offer, the
/// trade's creator, and for an item leaving the trade, the counter-party
/// that the caller names, never the custody account itself. A native-currency item moves its amount from
/// `custody` to `recipient`. For a token item no value moves at all: token
/// transfer is not part of this engine. Either way the item is marked
/// exchanged, so that it is never exchanged twice, and the side's exchange
/// count grows by one.
pub fn exchange(
    trade: &mut Trade,
    offer: &mut Offer,
    from_type: u8,
    asset_type: u8,
    item: &mut AssetItem,
    custody: &mut Wallet,
    recipient: &mut Wallet,
) -> (r: Result<(), SolTradeError>)
    requires
        old(trade).wf(),
        old(offer).wf(),
    ensures
        r.is_ok() <==> exchange_error(
            *old(trade),
            *old(offer),
            from_type,
            asset_type,
            *old(item),
            *old(custody),
            *old(recipient),
        ).is_none(),
        final(trade).wf(),
        final(offer).wf(),
        match r {
            Ok(_) => {
                &&& *final(item) == old(item).marked_exchanged()
                &&& from_type == 2 ==> old(recipient).key == old(trade).user
                &&& old(recipient).key != old(custody).key
                &&& final(custody).key == old(custody).key
                &&& final(recipient).key == old(recipient).key
                &&& final(custody).lamports == old(custody).lamports - old(item).value()
                &&& final(recipient).lamports == old(recipient).lamports + old(item).value()
                &&& final(custody).lamports + final(recipient).lamports == old(custody).lamports
                    + old(recipient).lamports
                &&& from_type == 1 ==> *final(trade) == (Trade {
                    exchanged_count: (old(trade).exchanged_count + 1) as u32,
                    ..*old(trade)
                }) && *final(offer) == *old(offer)
                &&& from_type == 2 ==> *final(offer) == (Offer {
                    exchanged_count: (old(offer).exchanged_count + 1) as u32,
                    ..*old(offer)
                }) && *final(trade) == *old(trade)
            },
            Err(e) => {
                &&& exchange_error(
                    *old(trade),
                    *old(offer),
                    from_type,
                    asset_type,
                    *old(item),
                    *old(custody),
                    *old(recipient),
                ) == Some(e)
                &&& *final(trade) == *old(trade)
                &&& *final(offer) == *old(offer)
                &&& *final(item) == *old(item)
                &&& *final(custody) == *old(custody)
                &&& *final(recipient) == *old(recipient)
            },
        },
{
    let kind = match AssetItemType::from_code(asset_type) {
        Ok(AssetItemType::CNFT) => return Err(SolTradeError::InvalidAssetItemType),
        Ok(k) => k,
        Err(e) => return Err(e),
    };
    let side = match ContainerKind::from_code(from_type) {
        Ok(s) => s,
        Err(_) => return Err(SolTradeError::InvalidAssetItemType),
    };
    let current: AssetItem = *item;
    let (item_kind, exchanged, holder, value) = match current {
        AssetItem::Sol(s) => (AssetItemType::SOL, s.exchanged, s.from, s.amount),
        AssetItem::Spl(s) => (AssetItemType::SPL, s.exchanged, s.from, 0u64),
    };
    if item_kind != kind {
        return Err(SolTradeError::InvalidAssetItemType);
    }
    if exchanged {
        return Err(SolTradeError::AssetItemAlreadyExchanged);
    }
    if holder != custody.key {
        return Err(SolTradeError::AssetItemInvalidFrom);
    }
    if recipient.key == custody.key || (side == ContainerKind::Offer && recipient.key
        != trade.user) {
        return Err(SolTradeError::ExchangeInvalidRecipient);
    }
    if custody.lamports < value {
        return Err(SolTradeError::InsufficientFunds);
    }
    let count = match side {
        ContainerKind::Trade => trade.exchanged_count,
        ContainerKind::Offer => offer.exchanged_count,
    };
    if recipient.lamports > u64::MAX - value || count == u32::MAX {
        return Err(SolTradeError::ArithmeticOverflow);
    }
    custody.lamports = custody.lamports - value;
    recipient.lamports = recipient.lamports + value;
    *item = match current {
        AssetItem::Sol(s) => AssetItem::Sol(AssetItemSOL { exchanged: true, ..s }),
        AssetItem::Spl(s) => AssetItem::Spl(AssetItemSPL { exchanged: true, ..s }),
    };
    match side {
        ContainerKind::Trade => trade.exchanged_count = count + 1,
        ContainerKind::Offer => offer.exchanged_count = count + 1,
    }
    Ok(())
}

/// An item is exchanged at most once: after a successful exchange, every
/// later exchange of the same item with the same codes fails as already
/// exchanged, whatever the records and balances have become meanwhile, and
/// so moves no value.
pub proof fn lemma_exchange_exactly_once(
    trade: Trade,
    offer: Offer,
    from_type: u8,
    asset_type: u8,
    item: AssetItem,
    custody: Wallet,
    recipient: Wallet,
)
    requires
        exchange_error(trade, offer, from_type, asset_type, item, custody, recipient) is None,
    ensures
        forall|later_trade: Trade, later_offer: Offer, later_custody: Wallet, later_recipient: Wallet|
            exchange_error(
                later_trade,
                later_offer,
                from_type,
                asset_type,
                item.marked_exchanged(),
                later_custody,
                later_recipient,
            ) == Some(SolTradeError::AssetItemAlreadyExchanged),
{
}

} // verus!
