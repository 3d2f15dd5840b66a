//! A multi-party escrow and atomic-swap engine: trades, offers, deposited
//! asset items and their one-time exchange between the two sides.

pub mod address;
pub mod deposit;
pub mod error;
pub mod exchange;
pub mod lifecycle;
pub mod options;
pub mod state;

pub use address::{Address, Wallet};
pub use deposit::{add_asset_item, add_asset_item_offer};
pub use error::SolTradeError;
pub use exchange::exchange;
pub use lifecycle::{accept_offer, assert_owned_by, create_offer, create_trade, initialize};
pub use options::{OptionsAssetItemSOL, OptionsAssetItemSPL};
pub use state::{
    AssetCounts, AssetItem, AssetItemSOL, AssetItemSPL, AssetItemType, Authority, ContainerKind,
    Offer, Trade, TradeOrOffer,
};
