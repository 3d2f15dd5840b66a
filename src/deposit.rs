use vstd::prelude::*;

use crate::address::{Address, Wallet};
use crate::error::SolTradeError;
use crate::options::{base58_key, borsh_string_pair, le_value, OptionsAssetItemSOL, OptionsAssetItemSPL};
use crate::state::{
    asset_type_of, container_kind_of, AssetCounts, AssetItem, AssetItemSOL, AssetItemSPL,
    AssetItemType, ContainerKind, Offer, TradeOrOffer,
};

verus! {

/// Why a deposit into `container` fails, in the order the checks are made,
/// or `None` where it succeeds.
pub open spec fn deposit_error<C: TradeOrOffer>(
    container: C,
    from_type: u8,
    asset_type_index: u32,
    asset_type: u8,
    options: Seq<u8>,
    depositor: Wallet,
    custody: Wallet,
) -> Option<SolTradeError> {
    let counts = container.counts_spec();
    match asset_type_of(asset_type) {
        Some(AssetItemType::SOL) => {
            if container_kind_of(from_type) != Some(container.kind_spec()) {
                Some(SolTradeError::InvalidContainerType)
            } else if counts.sol != asset_type_index {
                Some(SolTradeError::AddAssetItemInvalidIndex)
            } else if options.len() != 8 {
                Some(SolTradeError::AddAssetItemInvalidOptions)
            } else if depositor.lamports < le_value(options) {
                Some(SolTradeError::InsufficientFunds)
            } else if custody.lamports + le_value(options) > u64::MAX || counts.total == u32::MAX
                || counts.sol == u32::MAX {
                Some(SolTradeError::ArithmeticOverflow)
            } else {
                None
            }
        },
        Some(AssetItemType::SPL) => {
            if container_kind_of(from_type) != Some(container.kind_spec()) {
                Some(SolTradeError::InvalidContainerType)
            } else if counts.spl != asset_type_index {
                Some(SolTradeError::AddAssetItemInvalidIndex)
            } else {
                match borsh_string_pair(options) {
                    None => Some(SolTradeError::AddAssetItemInvalidOptions),
                    Some((token, mint)) => {
                        if base58_key(token).is_none() || base58_key(mint).is_none() {
                            Some(SolTradeError::AddAssetItemInvalidDataAssetItemSerialization)
                        } else if counts.total == u32::MAX || counts.spl == u32::MAX {
                            Some(SolTradeError::ArithmeticOverflow)
                        } else {
                            None
                        }
                    },
                }
            }
        },
        _ => Some(SolTradeError::InvalidAssetItemType),
    }
}

/// The native currency a successful deposit moves from depositor to custody.
pub open spec fn deposit_value(asset_type: u8, options: Seq<u8>) -> nat {
    if asset_type == 1 {
        le_value(options)
    } else {
        0
    }
}

/// The counters after one more deposit of the kind that `asset_type` codes.
pub open spec fn counts_after_deposit(c: AssetCounts, asset_type: u8) -> AssetCounts {
    if asset_type == 1 {
        AssetCounts { total: (c.total + 1) as u32, sol: (c.sol + 1) as u32, spl: c.spl }
    } else {
        AssetCounts { total: (c.total + 1) as u32, sol: c.sol, spl: (c.spl + 1) as u32 }
    }
}

/// `item` is the record that a successful deposit creates.
pub open spec fn is_deposited_item(
    item: AssetItem,
    asset_index: u32,
    asset_type_index: u32,
    asset_type: u8,
    options: Seq<u8>,
    depositor: Address,
    custody: Address,
) -> bool {
    match item {
        AssetItem::Sol(s) => {
            &&& asset_type == 1
            &&& s.index == asset_index
            &&& s.type_index == asset_type_index
            &&& s.from == custody
            &&& s.user == depositor
            &&& s.asset_type == asset_type
            &&& !s.exchanged
            &&& s.amount == le_value(options)
        },
        AssetItem::Spl(s) => {
            &&& asset_type == 2
            &&& s.index == asset_index
            &&& s.type_index == asset_type_index
            &&& s.from == custody
            &&& s.user == depositor
            &&& s.asset_type == asset_type
            &&& !s.exchanged
            &&& match borsh_string_pair(options) {
                Some((token, mint)) => base58_key(token) == Some(s.token.bytes@) && base58_key(mint)
                    == Some(s.mint.bytes@),
                None => false,
            }
        },
    }
}

/// Records a deposit into a trade or an offer.
///
/// The deposit at per-kind index `k` is accepted only when exactly `k` items
/// of that kind are already held. A native-currency deposit moves its amount
/// from `depositor` into `custody`, the account of the container, at once.
/// Either way the per-kind count and the total each grow by one, and the
/// new item is returned for the caller to store.
pub fn add_asset_item<C: TradeOrOffer>(
    container: &mut C,
    from_type: u8,
    asset_index: u32,
    asset_type_index: u32,
    asset_type: u8,
    options: Vec<u8>,
    depositor: &mut Wallet,
    custody: &mut Wallet,
) -> (r: Result<AssetItem, SolTradeError>)
    requires
        old(container).well_formed(),
    ensures
        r.is_ok() <==> deposit_error(
            *old(container),
            from_type,
            asset_type_index,
            asset_type,
            options@,
            *old(depositor),
            *old(custody),
        ).is_none(),
        match r {
            Ok(item) => {
                &&& is_deposited_item(
                    item,
                    asset_index,
                    asset_type_index,
                    asset_type,
                    options@,
                    old(depositor).key,
                    old(custody).key,
                )
                &&& *final(container) == old(container).with_counts(
                    counts_after_deposit(old(container).counts_spec(), asset_type),
                )
                &&& final(container).counts_spec().consistent()
                &&& final(container).well_formed()
                &&& final(depositor).key == old(depositor).key
                &&& final(custody).key == old(custody).key
                &&& final(depositor).lamports == old(depositor).lamports - deposit_value(
                    asset_type,
                    options@,
                )
                &&& final(custody).lamports == old(custody).lamports + deposit_value(
                    asset_type,
                    options@,
                )
            },
            Err(e) => {
                &&& deposit_error(
                    *old(container),
                    from_type,
                    asset_type_index,
                    asset_type,
                    options@,
                    *old(depositor),
                    *old(custody),
                ) == Some(e)
                &&& *final(container) == *old(container)
                &&& *final(depositor) == *old(depositor)
                &&& *final(custody) == *old(custody)
            },
        },
{
    let kind = match AssetItemType::from_code(asset_type) {
        Ok(AssetItemType::CNFT) => return Err(SolTradeError::InvalidAssetItemType),
        Ok(k) => k,
        Err(e) => return Err(e),
    };
    match ContainerKind::from_code(from_type) {
        Ok(k) => {
            if k != container.kind() {
                return Err(SolTradeError::InvalidContainerType);
            }
        },
        Err(e) => return Err(e),
    }
    process_asset_item(container, kind, asset_index, asset_type_index, asset_type, options.as_slice(), depositor, custody)
}

fn process_asset_item<C: TradeOrOffer>(
    container: &mut C,
    kind: AssetItemType,
    asset_index: u32,
    asset_type_index: u32,
    asset_type: u8,
    options: &[u8],
    depositor: &mut Wallet,
    custody: &mut Wallet,
) -> (r: Result<AssetItem, SolTradeError>)
    requires
        old(container).well_formed(),
        kind != AssetItemType::CNFT,
        asset_type_of(asset_type) == Some(kind),
    ensures
        ({
            let counts = old(container).counts_spec();
            let from_type: u8 = if old(container).kind_spec() == ContainerKind::Trade { 1 } else { 2 };
            &&& r.is_ok() <==> deposit_error(
                *old(container),
                from_type,
                asset_type_index,
                asset_type,
                options@,
                *old(depositor),
                *old(custody),
            ).is_none()
            &&& match r {
                Ok(item) => {
                    &&& is_deposited_item(
                        item,
                        asset_index,
                        asset_type_index,
                        asset_type,
                        options@,
                        old(depositor).key,
                        old(custody).key,
                    )
                    &&& *final(container) == old(container).with_counts(
                        counts_after_deposit(counts, asset_type),
                    )
                    &&& final(container).counts_spec().consistent()
                    &&& final(container).well_formed()
                    &&& final(depositor).key == old(depositor).key
                    &&& final(custody).key == old(custody).key
                    &&& final(depositor).lamports == old(depositor).lamports - deposit_value(
                        asset_type,
                        options@,
                    )
                    &&& final(custody).lamports == old(custody).lamports + deposit_value(
                        asset_type,
                        options@,
                    )
                },
                Err(e) => {
                    &&& deposit_error(
                        *old(container),
                        from_type,
                        asset_type_index,
                        asset_type,
                        options@,
                        *old(depositor),
                        *old(custody),
                    ) == Some(e)
                    &&& *final(container) == *old(container)
                    &&& *final(depositor) == *old(depositor)
                    &&& *final(custody) == *old(custody)
                },
            }
        }),
{
    let counts = container.counts();
    proof {
        container.lemma_with_counts(counts);
    }
    match kind {
        AssetItemType::SOL => {
            if counts.sol != asset_type_index {
                return Err(SolTradeError::AddAssetItemInvalidIndex);
            }
            let opts = match OptionsAssetItemSOL::try_from_slice(options) {
                Ok(o) => o,
                Err(e) => return Err(e),
            };
            let amount = opts.amount;
            if depositor.lamports < amount {
                return Err(SolTradeError::InsufficientFunds);
            }
            if custody.lamports > u64::MAX - amount || counts.total == u32::MAX || counts.sol
                == u32::MAX {
                return Err(SolTradeError::ArithmeticOverflow);
            }
            depositor.lamports = depositor.lamports - amount;
            custody.lamports = custody.lamports + amount;
            let next = AssetCounts { total: counts.total + 1, sol: counts.sol + 1, spl: counts.spl };
            proof {
                container.lemma_with_counts(next);
            }
            container.set_counts(next);
            Ok(
                AssetItem::Sol(
                    AssetItemSOL {
                        index: asset_index,
                        type_index: asset_type_index,
                        from: custody.key,
                        user: depositor.key,
                        asset_type,
                        exchanged: false,
                        amount,
                    },
                ),
            )
        },
        _ => {
            if counts.spl != asset_type_index {
                return Err(SolTradeError::AddAssetItemInvalidIndex);
            }
            let opts = match OptionsAssetItemSPL::try_from_slice(options) {
                Ok(o) => o,
                Err(e) => return Err(e),
            };
            let (token, mint) = match opts.keys() {
                Ok(k) => k,
                Err(e) => return Err(e),
            };
            if counts.total == u32::MAX || counts.spl == u32::MAX {
                return Err(SolTradeError::ArithmeticOverflow);
            }
            let next = AssetCounts { total: counts.total + 1, sol: counts.sol, spl: counts.spl + 1 };
            proof {
                container.lemma_with_counts(next);
            }
            container.set_counts(next);
            Ok(
                AssetItem::Spl(
                    AssetItemSPL {
                        index: asset_index,
                        type_index: asset_type_index,
                        from: custody.key,
                        user: depositor.key,
                        asset_type,
                        exchanged: false,
                        token,
                        mint,
                    },
                ),
            )
        },
    }
}

} // verus!

verus! {

/// Why a deposit into `offer` at overall position `asset_index` fails, or
/// `None`: for any known asset code the position must be the offer's next
/// free slot, and the rest is as for any deposit.
pub open spec fn offer_deposit_error(
    offer: Offer,
    asset_index: u32,
    asset_type_index: u32,
    asset_type: u8,
    options: Seq<u8>,
    depositor: Wallet,
    custody: Wallet,
) -> Option<SolTradeError> {
    if asset_type_of(asset_type) is Some && asset_index != offer.asset_count {
        Some(SolTradeError::AddAssetItemInvalidIndex)
    } else {
        deposit_error(offer, 2, asset_type_index, asset_type, options, depositor, custody)
    }
}

/// Records a deposit into an offer whose items are also numbered overall:
/// `asset_index` must equal the offer's current total.
pub fn add_asset_item_offer(
    offer: &mut Offer,
    asset_index: u32,
    asset_type_index: u32,
    asset_type: u8,
    options: Vec<u8>,
    depositor: &mut Wallet,
    custody: &mut Wallet,
) -> (r: Result<AssetItem, SolTradeError>)
    requires
        old(offer).wf(),
    ensures
        r.is_ok() <==> offer_deposit_error(
            *old(offer),
            asset_index,
            asset_type_index,
            asset_type,
            options@,
            *old(depositor),
            *old(custody),
        ).is_none(),
        match r {
            Ok(item) => {
                &&& is_deposited_item(
                    item,
                    asset_index,
                    asset_type_index,
                    asset_type,
                    options@,
                    old(depositor).key,
                    old(custody).key,
                )
                &&& *final(offer) == old(offer).with_counts(
                    counts_after_deposit(old(offer).counts_of(), asset_type),
                )
                &&& final(offer).wf()
                &&& final(depositor).key == old(depositor).key
                &&& final(custody).key == old(custody).key
                &&& final(depositor).lamports == old(depositor).lamports - deposit_value(
                    asset_type,
                    options@,
                )
                &&& final(custody).lamports == old(custody).lamports + deposit_value(
                    asset_type,
                    options@,
                )
            },
            Err(e) => {
                &&& offer_deposit_error(
                    *old(offer),
                    asset_index,
                    asset_type_index,
                    asset_type,
                    options@,
                    *old(depositor),
                    *old(custody),
                ) == Some(e)
                &&& *final(offer) == *old(offer)
                &&& *final(depositor) == *old(depositor)
                &&& *final(custody) == *old(custody)
            },
        },
{
    let known = AssetItemType::from_code(asset_type).is_ok();
    if known && asset_index != offer.asset_count {
        return Err(SolTradeError::AddAssetItemInvalidIndex);
    }
    add_asset_item(offer, 2, asset_index, asset_type_index, asset_type, options, depositor, custody)
}

/// A deposit succeeds only at the next free slot of its kind: where one
/// succeeds, its per-kind index equals the number of items of that kind
/// already held, and any other index of a supported kind, one above or one
/// below included, fails with an index error.
pub proof fn lemma_deposit_only_at_next_slot<C: TradeOrOffer>(
    container: C,
    from_type: u8,
    asset_type_index: u32,
    asset_type: u8,
    options: Seq<u8>,
    depositor: Wallet,
    custody: Wallet,
)
    requires
        container_kind_of(from_type) == Some(container.kind_spec()),
        asset_type == 1 || asset_type == 2,
    ensures
        deposit_error(container, from_type, asset_type_index, asset_type, options, depositor, custody)
            is None ==> asset_type_index == (if asset_type == 1 {
            container.counts_spec().sol
        } else {
            container.counts_spec().spl
        }),
        asset_type_index != (if asset_type == 1 {
            container.counts_spec().sol
        } else {
            container.counts_spec().spl
        }) ==> deposit_error(
            container,
            from_type,
            asset_type_index,
            asset_type,
            options,
            depositor,
            custody,
        ) == Some(SolTradeError::AddAssetItemInvalidIndex),
{
}

/// A native-currency deposit whose options are shorter than the eight bytes
/// of an amount fails with the options error, once the codes and the index
/// are right; a failed deposit changes nothing.
pub proof fn lemma_short_options_rejected<C: TradeOrOffer>(
    container: C,
    from_type: u8,
    asset_type_index: u32,
    options: Seq<u8>,
    depositor: Wallet,
    custody: Wallet,
)
    requires
        container_kind_of(from_type) == Some(container.kind_spec()),
        container.counts_spec().sol == asset_type_index,
        options.len() < 8,
    ensures
        deposit_error(container, from_type, asset_type_index, 1, options, depositor, custody)
            == Some(SolTradeError::AddAssetItemInvalidOptions),
{
}

/// Every successful deposit into a well-formed trade or offer grows the
/// count of its kind and the total by one each, leaves the other kind's
/// count alone, and keeps the total equal to the sum of the two kinds.
pub proof fn lemma_deposit_keeps_counts_consistent<C: TradeOrOffer>(
    container: C,
    from_type: u8,
    asset_type_index: u32,
    asset_type: u8,
    options: Seq<u8>,
    depositor: Wallet,
    custody: Wallet,
)
    requires
        container.well_formed(),
        deposit_error(container, from_type, asset_type_index, asset_type, options, depositor, custody)
            is None,
    ensures
        ({
            let before = container.counts_spec();
            let after = container.with_counts(counts_after_deposit(before, asset_type)).counts_spec();
            &&& after.consistent()
            &&& after.total == before.total + 1
            &&& asset_type == 1 ==> after.sol == before.sol + 1 && after.spl == before.spl
            &&& asset_type == 2 ==> after.spl == before.spl + 1 && after.sol == before.sol
        }),
{
    let before = container.counts_spec();
    container.lemma_with_counts(before);
    container.lemma_with_counts(counts_after_deposit(before, asset_type));
}

} // verus!
