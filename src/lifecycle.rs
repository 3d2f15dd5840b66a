use vstd::prelude::*;

use crate::address::{contains_address, Address};
use crate::error::SolTradeError;
use crate::state::{Authority, Offer, Trade};

verus! {

/// Sets up the registry, owned by `user`, with no trades yet.
pub fn initialize(user: Address) -> (r: Authority)
    ensures
        r.user == user,
        r.trade_count == 0,
{
    Authority { user, trade_count: 0 }
}

/// Why `creator` cannot open a trade for `allowed_users`, or `None`.
pub open spec fn create_trade_error(
    authority: Authority,
    creator: Address,
    allowed_users: Seq<Address>,
) -> Option<SolTradeError> {
    if allowed_users.len() > 5 {
        Some(SolTradeError::CreateTradeTooManyAllowedUsers)
    } else if allowed_users.contains(creator) {
        Some(SolTradeError::CreateTradeNotAllowedUser)
    } else if authority.trade_count == u32::MAX {
        Some(SolTradeError::ArithmeticOverflow)
    } else {
        None
    }
}

/// Opens a trade for `creator`, restricted to `allowed_users`, and counts it
/// in the registry. A trade names at most five allowed users, and never its
/// own creator.
pub fn create_trade(
    authority: &mut Authority,
    creator: Address,
    trade_index: u32,
    allowed_users: Vec<Address>,
) -> (r: Result<Trade, SolTradeError>)
    ensures
        r.is_ok() <==> create_trade_error(*old(authority), creator, allowed_users@).is_none(),
        match r {
            Ok(t) => {
                &&& t.wf()
                &&& t.index == trade_index
                &&& t.user == creator
                &&& t.allowed_users@ == allowed_users@
                &&& t.offer_count == 0
                &&& t.asset_count == 0
                &&& t.asset_sol_count == 0
                &&& t.asset_spl_count == 0
                &&& t.exchanged_count == 0
                &&& t.accepted_offer is None
                &&& !t.enabled
                &&& final(authority).user == old(authority).user
                &&& final(authority).trade_count == old(authority).trade_count + 1
            },
            Err(e) => {
                &&& create_trade_error(*old(authority), creator, allowed_users@) == Some(e)
                &&& *final(authority) == *old(authority)
            },
        },
{
    if allowed_users.len() > 5 {
        return Err(SolTradeError::CreateTradeTooManyAllowedUsers);
    }
    if contains_address(&allowed_users, &creator) {
        return Err(SolTradeError::CreateTradeNotAllowedUser);
    }
    if authority.trade_count == u32::MAX {
        return Err(SolTradeError::ArithmeticOverflow);
    }
    authority.trade_count = authority.trade_count + 1;
    Ok(
        Trade {
            index: trade_index,
            user: creator,
            offer_count: 0,
            asset_count: 0,
            accepted_offer: None,
            exchanged_count: 0,
            enabled: false,
            allowed_users,
            asset_sol_count: 0,
            asset_spl_count: 0,
        },
    )
}

/// Why an offer cannot be made on `trade`, or `None`: only the trade's offer
/// counter can fail, by overflow. Refusing a second record at an index
/// already taken is the storage layer's part, where records are allocated.
pub open spec fn create_offer_error(trade: Trade) -> Option<SolTradeError> {
    if trade.offer_count == u32::MAX {
        Some(SolTradeError::ArithmeticOverflow)
    } else {
        None
    }
}

/// Makes a fresh offer by `proposer` at `index` on the trade stored at
/// `trade_key`, and counts it in the trade.
pub fn create_offer(trade: &mut Trade, trade_key: Address, proposer: Address, index: u32) -> (r:
    Result<Offer, SolTradeError>)
    requires
        old(trade).wf(),
    ensures
        r.is_ok() <==> create_offer_error(*old(trade)).is_none(),
        final(trade).wf(),
        match r {
            Ok(o) => {
                &&& o.wf()
                &&& o.index == index
                &&& o.user == proposer
                &&& o.trade == trade_key
                &&& o.asset_count == 0
                &&& o.asset_sol_count == 0
                &&& o.asset_spl_count == 0
                &&& o.exchanged_count == 0
                &&& !o.enabled
                &&& !o.accepted
                &&& *final(trade) == (Trade {
                    offer_count: (old(trade).offer_count + 1) as u32,
                    ..*old(trade)
                })
            },
            Err(e) => {
                &&& create_offer_error(*old(trade)) == Some(e)
                &&& *final(trade) == *old(trade)
            },
        },
{
    if trade.offer_count == u32::MAX {
        return Err(SolTradeError::ArithmeticOverflow);
    }
    trade.offer_count = trade.offer_count + 1;
    Ok(
        Offer {
            index,
            user: proposer,
            trade: trade_key,
            asset_count: 0,
            enabled: false,
            accepted: false,
            exchanged_count: 0,
            asset_sol_count: 0,
            asset_spl_count: 0,
        },
    )
}

/// Why `caller` cannot accept `offer` on the trade stored at `trade_key`, or
/// `None`.
pub open spec fn accept_offer_error(
    trade: Trade,
    trade_key: Address,
    offer: Offer,
    caller: Address,
) -> Option<SolTradeError> {
    if caller != trade.user {
        Some(SolTradeError::AcceptOfferNotTradeCreator)
    } else if offer.trade != trade_key {
        Some(SolTradeError::AcceptOfferWrongTrade)
    } else if trade.accepted_offer is Some || offer.accepted {
        Some(SolTradeError::AcceptOfferAlreadyAccepted)
    } else {
        None
    }
}

/// Accepts the offer stored at `offer_key` on the trade stored at
/// `trade_key`. Only the trade's creator may accept, only an offer made on
/// that trade, and a trade accepts one offer at most.
pub fn accept_offer(
    trade: &mut Trade,
    trade_key: Address,
    offer: &mut Offer,
    offer_key: Address,
    caller: Address,
) -> (r: Result<(), SolTradeError>)
    requires
        old(trade).wf(),
    ensures
        r.is_ok() <==> accept_offer_error(*old(trade), trade_key, *old(offer), caller).is_none(),
        final(trade).wf(),
        match r {
            Ok(_) => {
                &&& *final(trade) == (Trade { accepted_offer: Some(offer_key), ..*old(trade) })
                &&& *final(offer) == (Offer { accepted: true, ..*old(offer) })
            },
            Err(e) => {
                &&& accept_offer_error(*old(trade), trade_key, *old(offer), caller) == Some(e)
                &&& *final(trade) == *old(trade)
                &&& *final(offer) == *old(offer)
            },
        },
{
    if caller != trade.user {
        return Err(SolTradeError::AcceptOfferNotTradeCreator);
    }
    if offer.trade != trade_key {
        return Err(SolTradeError::AcceptOfferWrongTrade);
    }
    if trade.accepted_offer.is_some() || offer.accepted {
        return Err(SolTradeError::AcceptOfferAlreadyAccepted);
    }
    trade.accepted_offer = Some(offer_key);
    offer.accepted = true;
    Ok(())
}

/// Checks that an account is owned by `owner`.
pub fn assert_owned_by(account_owner: &Address, owner: &Address) -> (r: Result<(), SolTradeError>)
    ensures
        r == (if *account_owner == *owner {
            Ok(())
        } else {
            Err(SolTradeError::IllegalOwner)
        }),
{
    if *account_owner != *owner {
        Err(SolTradeError::IllegalOwner)
    } else {
        Ok(())
    }
}

} // verus!
