//! A marketplace record for limited-edition music tokens.
//!
//! An issuer lists a track at a price, buyers purchase copies, and each purchase
//! is split between the seller, the artist and the platform in basis points.
//! The crate holds the records, the rules that guard them and the settlement of
//! a purchase; moving tokens and funds is left to the caller, who is told what
//! to move and reports back how it went.

pub mod errors;
pub mod keys;
pub mod record;
pub mod settlement;
pub mod shares;
pub mod store;

pub use errors::ErrorCode;
pub use record::{
    lemma_last_copy_sells_once, lemma_sale_keeps_record_sound, lemma_unavailable_record_refuses,
    MusicNftData,
};
pub use settlement::{
    buy_music_nft, lemma_receipt_adds_up, lemma_schedule_of_purchase, receipt_of, settlement_of,
    transfers_after, BuyMusicNft, Outcome, Settlement, SettlementAction, SettlementProgress,
    SettlementReceipt, SettlementStage,
};
pub use shares::{
    bps_share, config_ok, lemma_share_within_amount, lemma_split_is_exact, share_of, split_of,
    split_price, PriceSplit, BPS_DENOMINATOR, MAX_ROYALTY_BPS,
};
pub use store::{
    create_music_nft, listed, update_artist_royalty, update_nft_price, AssetStore, CreateMusicNft,
    MintOrder, UpdateNftPrice, PLATFORM_FEE_BPS,
};
