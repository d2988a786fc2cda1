use anchor_lang::prelude::Pubkey;
use music_nft::{
    buy_music_nft, create_music_nft, update_nft_price, AssetStore, BuyMusicNft, CreateMusicNft,
    ErrorCode, MusicNftData, Outcome, Settlement, SettlementAction, SettlementProgress,
    SettlementReceipt, SettlementStage, UpdateNftPrice,
};

const SELLER: u8 = 1;
const ARTIST: u8 = 3;
const PLATFORM: u8 = 4;
const BUYER: u8 = 5;
const MINT: u8 = 9;

fn key_of(byte: u8) -> Pubkey {
    Pubkey::new_from_array([byte; 32])
}

fn parties() -> CreateMusicNft {
    CreateMusicNft {
        authority: key_of(SELLER),
        mint: key_of(MINT),
        token_account: key_of(2),
        artist_wallet: key_of(ARTIST),
        platform_wallet: key_of(PLATFORM),
    }
}

fn store_with(price: u64, amount: u32, royalty: u16, fee: u16) -> AssetStore {
    let mut store = AssetStore::new();
    store
        .create(
            &parties(),
            String::from("Paper Moon"),
            String::from("MOON"),
            String::from("ipfs://paper-moon"),
            String::from("jazz"),
            price,
            96,
            String::from("B flat major"),
            amount,
            royalty,
            fee,
        )
        .unwrap();
    store
}

fn request(buyer: u8, funds: u64) -> BuyMusicNft {
    BuyMusicNft { buyer: key_of(buyer), buyer_lamports: funds, mint: key_of(MINT) }
}

fn pay(to: u8, amount: u64) -> SettlementAction {
    SettlementAction::Pay { from: key_of(BUYER), to: key_of(to), amount }
}

fn hand_over() -> SettlementAction {
    SettlementAction::TransferUnit {
        mint: key_of(MINT),
        from: key_of(SELLER),
        to: key_of(BUYER),
        quantity: 1,
    }
}

/// Drives a settlement with every transfer made, and notes what was asked for.
fn settle(
    store: &mut AssetStore,
    settlement: Settlement,
) -> (Vec<SettlementAction>, Result<SettlementReceipt, ErrorCode>) {
    let mut asked = Vec::new();
    let mut current = settlement;
    loop {
        asked.push(current.action());
        match current.advance(store, Outcome::Done) {
            Ok(SettlementProgress::Pending(next)) => current = next,
            Ok(SettlementProgress::Settled(receipt)) => return (asked, Ok(receipt)),
            Err(reason) => return (asked, Err(reason)),
        }
    }
}

/// Drives a settlement up to the stage given, with every transfer before it made.
fn drive_to(store: &mut AssetStore, settlement: Settlement, stage: SettlementStage) -> Settlement {
    let mut current = settlement;
    while current.stage != stage {
        match current.advance(store, Outcome::Done) {
            Ok(SettlementProgress::Pending(next)) => current = next,
            other => panic!("the settlement ended before the stage: {:?}", other),
        }
    }
    current
}

#[test]
fn purchase_of_one_thousand() {
    let mut store = store_with(1000, 1, 100, 500);
    let settlement = buy_music_nft(&store, &request(BUYER, 1000)).unwrap();
    assert_eq!(settlement.stage, SettlementStage::TransferUnit);
    assert_eq!(settlement.seller, key_of(SELLER));
    assert_eq!(settlement.artist_wallet, key_of(ARTIST));
    assert_eq!(settlement.platform_wallet, key_of(PLATFORM));
    let expected = SettlementReceipt {
        mint: key_of(MINT),
        buyer: key_of(BUYER),
        price: 1000,
        seller_amount: 940,
        royalty_amount: 10,
        platform_amount: 50,
    };
    assert_eq!(settlement.receipt, expected);
    let (asked, receipt) = settle(&mut store, settlement);
    assert_eq!(receipt, Ok(expected));
    assert_eq!(asked, vec![hand_over(), pay(SELLER, 940), pay(ARTIST, 10), pay(PLATFORM, 50)]);
    let paid: u64 = 940 + 10 + 50;
    assert_eq!(paid, 1000);
}

#[test]
fn purchase_of_seven_pays_no_royalty() {
    let mut store = store_with(7, 1, 100, 500);
    let settlement = buy_music_nft(&store, &request(BUYER, 7)).unwrap();
    assert_eq!(settlement.receipt.royalty_amount, 0);
    assert_eq!(settlement.receipt.platform_amount, 0);
    assert_eq!(settlement.receipt.seller_amount, 7);
    let (asked, receipt) = settle(&mut store, settlement);
    assert!(receipt.is_ok());
    assert_eq!(asked, vec![hand_over(), pay(SELLER, 7)]);
}

#[test]
fn purchase_with_royalty_but_no_fee() {
    let mut store = store_with(150, 1, 100, 50);
    let settlement = buy_music_nft(&store, &request(BUYER, 150)).unwrap();
    let (asked, receipt) = settle(&mut store, settlement);
    assert_eq!(receipt.unwrap().seller_amount, 149);
    assert_eq!(asked, vec![hand_over(), pay(SELLER, 149), pay(ARTIST, 1)]);
}

#[test]
fn purchase_with_fee_but_no_royalty() {
    let mut store = store_with(1000, 1, 0, 500);
    let settlement = buy_music_nft(&store, &request(BUYER, 1000)).unwrap();
    let (asked, receipt) = settle(&mut store, settlement);
    assert_eq!(receipt.unwrap().seller_amount, 950);
    assert_eq!(asked, vec![hand_over(), pay(SELLER, 950), pay(PLATFORM, 50)]);
}

#[test]
fn purchase_of_a_free_track_still_pays_the_seller() {
    let mut store = store_with(0, 1, 100, 500);
    let settlement = buy_music_nft(&store, &request(BUYER, 0)).unwrap();
    let (asked, receipt) = settle(&mut store, settlement);
    assert!(receipt.is_ok());
    assert_eq!(asked, vec![hand_over(), pay(SELLER, 0)]);
}

#[test]
fn purchase_at_the_largest_price() {
    let mut store = store_with(u64::MAX, 1, 5000, 5000);
    let settlement = buy_music_nft(&store, &request(BUYER, u64::MAX)).unwrap();
    let half = 9_223_372_036_854_775_807u64;
    let (asked, receipt) = settle(&mut store, settlement);
    assert_eq!(asked, vec![hand_over(), pay(SELLER, 1), pay(ARTIST, half), pay(PLATFORM, half)]);
    let receipt = receipt.unwrap();
    assert_eq!(
        receipt.seller_amount as u128 + receipt.royalty_amount as u128 + receipt.platform_amount as u128,
        u64::MAX as u128
    );
}

#[test]
fn purchase_of_the_last_copy_ends_the_offer() {
    let mut store = store_with(1000, 1, 100, 500);
    let settlement = buy_music_nft(&store, &request(BUYER, 1000)).unwrap();
    let (_, receipt) = settle(&mut store, settlement);
    assert!(receipt.is_ok());
    let record = store.get(&key_of(MINT)).unwrap();
    assert_eq!(record.amount_sold, 1);
    assert!(!record.is_for_sale);
    assert_eq!(record.owner, key_of(SELLER));
}

#[test]
fn purchase_of_one_of_several_copies_keeps_the_offer() {
    let mut store = store_with(1000, 3, 100, 500);
    let settlement = buy_music_nft(&store, &request(BUYER, 1000)).unwrap();
    assert!(settle(&mut store, settlement).1.is_ok());
    let record = store.get(&key_of(MINT)).unwrap();
    assert_eq!(record.amount_sold, 1);
    assert!(record.is_for_sale);
    let settlement = buy_music_nft(&store, &request(6, 1000)).unwrap();
    assert_eq!(settlement.receipt.buyer, key_of(6));
    assert!(settle(&mut store, settlement).1.is_ok());
    let settlement = buy_music_nft(&store, &request(7, 1000)).unwrap();
    assert!(settle(&mut store, settlement).1.is_ok());
    let record = store.get(&key_of(MINT)).unwrap();
    assert_eq!(record.amount_sold, 3);
    assert!(!record.is_for_sale);
    assert_eq!(buy_music_nft(&store, &request(8, 1000)), Err(ErrorCode::NotForSale));
}

#[test]
fn purchase_changes_nothing_before_the_last_transfer() {
    let mut store = store_with(1000, 1, 100, 500);
    let settlement = buy_music_nft(&store, &request(BUYER, 1000)).unwrap();
    let waiting = drive_to(&mut store, settlement, SettlementStage::PayPlatform);
    assert_eq!(waiting.action(), pay(PLATFORM, 50));
    let record = store.get(&key_of(MINT)).unwrap();
    assert_eq!(record.amount_sold, 0);
    assert!(record.is_for_sale);
}

#[test]
fn purchase_of_sold_out_record_is_not_for_sale() {
    let mut store = store_with(1000, 1, 100, 500);
    let settlement = buy_music_nft(&store, &request(BUYER, 1000)).unwrap();
    settle(&mut store, settlement).1.unwrap();
    let before = store.get(&key_of(MINT)).unwrap().clone();
    assert_eq!(buy_music_nft(&store, &request(6, u64::MAX)), Err(ErrorCode::NotForSale));
    assert_eq!(store.get(&key_of(MINT)), Ok(&before));
}

#[test]
fn purchase_with_too_little_is_refused() {
    let store = store_with(1000, 1, 100, 500);
    assert_eq!(buy_music_nft(&store, &request(BUYER, 999)), Err(ErrorCode::InsufficientFunds));
    assert_eq!(buy_music_nft(&store, &request(BUYER, 0)), Err(ErrorCode::InsufficientFunds));
    assert!(buy_music_nft(&store, &request(BUYER, 1000)).is_ok());
    let record = store.get(&key_of(MINT)).unwrap();
    assert_eq!(record.amount_sold, 0);
    assert!(record.is_for_sale);
}

#[test]
fn purchase_of_unknown_mint() {
    let store = store_with(1000, 1, 100, 500);
    let request = BuyMusicNft { buyer: key_of(BUYER), buyer_lamports: 1000, mint: key_of(10) };
    assert_eq!(buy_music_nft(&store, &request), Err(ErrorCode::NotFound));
}

#[test]
fn purchase_follows_a_new_price() {
    let mut store = store_with(1000, 1, 100, 500);
    let owner = UpdateNftPrice { authority: key_of(SELLER), mint: key_of(MINT) };
    update_nft_price(&mut store, &owner, 20_000).unwrap();
    assert_eq!(buy_music_nft(&store, &request(BUYER, 1000)), Err(ErrorCode::InsufficientFunds));
    let settlement = buy_music_nft(&store, &request(BUYER, 20_000)).unwrap();
    assert_eq!(settlement.receipt.price, 20_000);
    assert_eq!(settlement.receipt.royalty_amount, 200);
    assert_eq!(settlement.receipt.platform_amount, 1000);
    assert_eq!(settlement.receipt.seller_amount, 18_800);
}

#[test]
fn failed_hand_over_is_a_transfer_error() {
    let mut store = store_with(1000, 1, 100, 500);
    let settlement = buy_music_nft(&store, &request(BUYER, 1000)).unwrap();
    assert_eq!(settlement.advance(&mut store, Outcome::Failed), Err(ErrorCode::TransferError));
    let record = store.get(&key_of(MINT)).unwrap();
    assert_eq!(record.amount_sold, 0);
    assert!(record.is_for_sale);
}

#[test]
fn failed_payment_is_a_payment_error() {
    for stage in [SettlementStage::PaySeller, SettlementStage::PayArtist, SettlementStage::PayPlatform] {
        let mut store = store_with(1000, 1, 100, 500);
        let settlement = buy_music_nft(&store, &request(BUYER, 1000)).unwrap();
        let waiting = drive_to(&mut store, settlement, stage);
        assert_eq!(waiting.advance(&mut store, Outcome::Failed), Err(ErrorCode::PaymentError));
        let record = store.get(&key_of(MINT)).unwrap();
        assert_eq!(record.amount_sold, 0);
        assert!(record.is_for_sale);
    }
}

#[test]
fn failed_purchase_can_be_asked_for_again() {
    let mut store = store_with(1000, 1, 100, 500);
    let settlement = buy_music_nft(&store, &request(BUYER, 1000)).unwrap();
    let waiting = drive_to(&mut store, settlement, SettlementStage::PayArtist);
    assert_eq!(waiting.advance(&mut store, Outcome::Failed), Err(ErrorCode::PaymentError));
    let again = buy_music_nft(&store, &request(BUYER, 1000)).unwrap();
    assert!(settle(&mut store, again).1.is_ok());
    assert_eq!(store.get(&key_of(MINT)).unwrap().amount_sold, 1);
}

#[test]
fn two_buyers_of_the_same_single_copy() {
    let mut store = store_with(1000, 1, 100, 500);
    let first = buy_music_nft(&store, &request(BUYER, 1000)).unwrap();
    let second = buy_music_nft(&store, &request(6, 1000)).unwrap();
    let first = drive_to(&mut store, first, SettlementStage::PayPlatform);
    let second = drive_to(&mut store, second, SettlementStage::PayPlatform);
    assert_eq!(
        second.advance(&mut store, Outcome::Done),
        Ok(SettlementProgress::Settled(second.receipt))
    );
    let after_one = store.get(&key_of(MINT)).unwrap().clone();
    assert_eq!(after_one.amount_sold, 1);
    assert_eq!(first.advance(&mut store, Outcome::Done), Err(ErrorCode::SoldOut));
    assert_eq!(store.get(&key_of(MINT)), Ok(&after_one));
}

#[test]
fn settling_against_a_store_without_the_record() {
    let store = store_with(1000, 1, 100, 500);
    let settlement = buy_music_nft(&store, &request(BUYER, 1000)).unwrap();
    let mut elsewhere = AssetStore::new();
    let waiting = drive_to(&mut elsewhere, settlement, SettlementStage::PayPlatform);
    assert_eq!(waiting.advance(&mut elsewhere, Outcome::Done), Err(ErrorCode::NotFound));
}

#[test]
fn stages_follow_each_other() {
    let mut store = store_with(1000, 2, 100, 500);
    let settlement = buy_music_nft(&store, &request(BUYER, 1000)).unwrap();
    assert_eq!(settlement.action(), hand_over());
    let next = match settlement.advance(&mut store, Outcome::Done) {
        Ok(SettlementProgress::Pending(next)) => next,
        other => panic!("{:?}", other),
    };
    assert_eq!(next, Settlement { stage: SettlementStage::PaySeller, ..settlement });
    assert_eq!(next.action(), pay(SELLER, 940));
    let next = match next.advance(&mut store, Outcome::Done) {
        Ok(SettlementProgress::Pending(next)) => next,
        other => panic!("{:?}", other),
    };
    assert_eq!(next, Settlement { stage: SettlementStage::PayArtist, ..settlement });
    assert_eq!(next.action(), pay(ARTIST, 10));
    let next = match next.advance(&mut store, Outcome::Done) {
        Ok(SettlementProgress::Pending(next)) => next,
        other => panic!("{:?}", other),
    };
    assert_eq!(next, Settlement { stage: SettlementStage::PayPlatform, ..settlement });
    assert_eq!(next.action(), pay(PLATFORM, 50));
    assert_eq!(
        next.advance(&mut store, Outcome::Done),
        Ok(SettlementProgress::Settled(settlement.receipt))
    );
}

fn loose_record(amount_sold: u32, is_for_sale: bool, royalty: u16, fee: u16) -> MusicNftData {
    MusicNftData {
        title: String::from("Paper Moon"),
        symbol: String::from("MOON"),
        uri: String::from("ipfs://paper-moon"),
        genre: String::from("jazz"),
        price: 1000,
        bpm: 96,
        key: String::from("B flat major"),
        owner: key_of(SELLER),
        mint: key_of(MINT),
        amount: 2,
        amount_sold,
        is_for_sale,
        artist_royalty: royalty,
        platform_fee: fee,
        platform_wallet: key_of(PLATFORM),
        artist_wallet: key_of(ARTIST),
    }
}

#[test]
fn begin_on_a_record() {
    let record = loose_record(1, true, 100, 500);
    let settlement = Settlement::begin(&record, &key_of(BUYER), 1000).unwrap();
    assert_eq!(
        settlement,
        Settlement {
            receipt: SettlementReceipt {
                mint: key_of(MINT),
                buyer: key_of(BUYER),
                price: 1000,
                seller_amount: 940,
                royalty_amount: 10,
                platform_amount: 50,
            },
            seller: key_of(SELLER),
            artist_wallet: key_of(ARTIST),
            platform_wallet: key_of(PLATFORM),
            stage: SettlementStage::TransferUnit,
        }
    );
    assert_eq!(record, loose_record(1, true, 100, 500));
}

#[test]
fn begin_refusals_in_order() {
    let buyer = key_of(BUYER);
    assert_eq!(
        Settlement::begin(&loose_record(2, false, 100, 500), &buyer, 0),
        Err(ErrorCode::NotForSale)
    );
    assert_eq!(
        Settlement::begin(&loose_record(2, true, 100, 500), &buyer, 0),
        Err(ErrorCode::SoldOut)
    );
    assert_eq!(
        Settlement::begin(&loose_record(1, true, 100, 500), &buyer, 999),
        Err(ErrorCode::InsufficientFunds)
    );
    assert_eq!(
        Settlement::begin(&loose_record(1, true, 5000, 5001), &buyer, 1000),
        Err(ErrorCode::InvalidConfig)
    );
}

#[test]
fn listing_then_purchase_through_the_requests() {
    let mut store = AssetStore::new();
    let order = create_music_nft(
        &mut store,
        &parties(),
        String::from("Paper Moon"),
        String::from("MOON"),
        String::from("ipfs://paper-moon"),
        String::from("jazz"),
        2_000_000_000,
        96,
        String::from("B flat major"),
        750,
    )
    .unwrap();
    assert_eq!(order.amount, 1);
    let settlement = buy_music_nft(&store, &request(BUYER, 2_000_000_000)).unwrap();
    let (asked, receipt) = settle(&mut store, settlement);
    assert_eq!(
        asked,
        vec![
            hand_over(),
            pay(SELLER, 1_750_000_000),
            pay(ARTIST, 150_000_000),
            pay(PLATFORM, 100_000_000),
        ]
    );
    assert_eq!(receipt.unwrap().price, 2_000_000_000);
}
