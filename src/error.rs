use vstd::prelude::*;

verus! {

/// Every way an operation of the engine can fail. A failed operation leaves
/// every record and balance it was handed as it found them.
#[derive(Clone, Copy, Debug, PartialEq, Eq, Structural)]
pub enum SolTradeError {
    /// A trade may name at most five allowed users.
    CreateTradeTooManyAllowedUsers,
    /// The creator of a trade cannot be one of its allowed users.
    CreateTradeNotAllowedUser,
    /// The options payload of a deposit does not decode.
    AddAssetItemInvalidOptions,
    /// The deposit's per-kind index is not the container's next free slot.
    AddAssetItemInvalidIndex,
    /// An identity string in a deposit's options is not a valid key.
    AddAssetItemInvalidDataAssetItemSerialization,
    /// An asset-kind code that is unknown or not supported.
    InvalidAssetItemType,
    /// A container-kind code of a deposit that is neither a trade nor an
    /// offer, or that does not name the record handed in.
    InvalidContainerType,
    /// The asset item has been exchanged before.
    AssetItemAlreadyExchanged,
    /// The asset item is not held by the container it is exchanged from.
    AssetItemInvalidFrom,
    /// Only the creator of a trade may accept an offer on it.
    AcceptOfferNotTradeCreator,
    /// The offer was made on another trade.
    AcceptOfferWrongTrade,
    /// The trade already has an accepted offer, or the offer was accepted.
    AcceptOfferAlreadyAccepted,
    /// The recipient of an exchange is the custody account itself, or, for an
    /// item leaving an offer, anyone but the trade's creator.
    ExchangeInvalidRecipient,
    /// An account is not owned by the expected owner.
    IllegalOwner,
    /// A balance does not cover a transfer.
    InsufficientFunds,
    /// A counter or a balance would leave the range of its integer type.
    ArithmeticOverflow,
}

} // verus!
