//! The settlement of a purchase.
//!
//! A purchase is checked against the record and its price is split before
//! anything moves. Then the copy goes to the buyer and the payments are made,
//! one after another, by whoever drives the settlement: `Settlement::action`
//! says what to do next and `Settlement::advance` takes in how it went. The
//! sale is booked in the store only once every transfer has been made.

use crate::errors::ErrorCode;
use crate::record::MusicNftData;
use crate::shares::{lemma_share_within_amount, split_of, split_price};
use crate::store::AssetStore;
use anchor_lang::prelude::Pubkey;
use vstd::prelude::*;

verus! {

/// Who asks to buy a copy, with what funds, and of which record.
#[derive(Clone, Copy, Debug, PartialEq, Eq)]
pub struct BuyMusicNft {
    /// The buyer.
    pub buyer: Pubkey,
    /// What the buyer holds, in the smallest unit of the currency.
    pub buyer_lamports: u64,
    /// The mint of the record to buy from.
    pub mint: Pubkey,
}

/// What a purchase came to: who bought a copy of what, at which price, and
/// how the price was split.
#[derive(Clone, Copy, Debug, PartialEq, Eq)]
pub struct SettlementReceipt {
    /// The mint of the record.
    pub mint: Pubkey,
    /// The buyer.
    pub buyer: Pubkey,
    /// The price paid.
    pub price: u64,
    /// What the seller receives.
    pub seller_amount: u64,
    /// What the artist receives.
    pub royalty_amount: u64,
    /// What the platform receives.
    pub platform_amount: u64,
}

/// The transfer that a settlement waits for.
#[derive(Clone, Copy, Debug, PartialEq, Eq, Structural)]
pub enum SettlementStage {
    /// The copy goes from the seller to the buyer.
    TransferUnit,
    /// The seller is paid.
    PaySeller,
    /// The artist is paid the royalty.
    PayArtist,
    /// The platform is paid its fee.
    PayPlatform,
}

/// What the driver of a settlement is asked to do.
#[derive(Clone, Copy, Debug, PartialEq, Eq)]
pub enum SettlementAction {
    /// Move `quantity` copies of `mint` from `from` to `to`.
    TransferUnit { mint: Pubkey, from: Pubkey, to: Pubkey, quantity: u64 },
    /// Pay `amount` from `from` to `to`.
    Pay { from: Pubkey, to: Pubkey, amount: u64 },
}

/// How the transfer went that a settlement asked for.
#[derive(Clone, Copy, Debug, PartialEq, Eq, Structural)]
pub enum Outcome {
    /// It was made.
    Done,
    /// It was not made.
    Failed,
}

/// A purchase that has been accepted and waits for one of its transfers.
#[derive(Clone, Copy, Debug, PartialEq, Eq)]
pub struct Settlement {
    /// What the purchase comes to once it is settled.
    pub receipt: SettlementReceipt,
    /// The seller, who hands over the copy and receives the rest of the price.
    pub seller: Pubkey,
    /// Who receives the royalty.
    pub artist_wallet: Pubkey,
    /// Who receives the platform's fee.
    pub platform_wallet: Pubkey,
    /// The transfer that is waited for.
    pub stage: SettlementStage,
}

/// Where a settlement stands after one of its transfers was made.
#[derive(Clone, Copy, Debug, PartialEq, Eq)]
pub enum SettlementProgress {
    /// Another transfer is waited for.
    Pending(Settlement),
    /// Every transfer was made and the sale is booked.
    Settled(SettlementReceipt),
}

/// The receipt of a purchase of one copy of `record` by `buyer`.
pub open spec fn receipt_of(record: MusicNftData, buyer: Pubkey) -> SettlementReceipt {
    let split = split_of(record.price, record.artist_royalty, record.platform_fee);
    SettlementReceipt {
        mint: record.mint,
        buyer,
        price: record.price,
        seller_amount: split.seller_amount,
        royalty_amount: split.royalty_amount,
        platform_amount: split.platform_amount,
    }
}

/// The settlement that a purchase of one copy of `record` by `buyer` starts
/// with: it waits for the copy to be handed over.
pub open spec fn settlement_of(record: MusicNftData, buyer: Pubkey) -> Settlement {
    Settlement {
        receipt: receipt_of(record, buyer),
        seller: record.owner,
        artist_wallet: record.artist_wallet,
        platform_wallet: record.platform_wallet,
        stage: SettlementStage::TransferUnit,
    }
}

/// How many transfers can follow the one of a stage.
pub open spec fn transfers_after(stage: SettlementStage) -> nat {
    match stage {
        SettlementStage::TransferUnit => 3,
        SettlementStage::PaySeller => 2,
        SettlementStage::PayArtist => 1,
        SettlementStage::PayPlatform => 0,
    }
}

impl Settlement {
    /// The transfer that is waited for.
    pub open spec fn pending_action(self) -> SettlementAction {
        match self.stage {
            SettlementStage::TransferUnit => SettlementAction::TransferUnit {
                mint: self.receipt.mint,
                from: self.seller,
                to: self.receipt.buyer,
                quantity: 1,
            },
            SettlementStage::PaySeller => SettlementAction::Pay {
                from: self.receipt.buyer,
                to: self.seller,
                amount: self.receipt.seller_amount,
            },
            SettlementStage::PayArtist => SettlementAction::Pay {
                from: self.receipt.buyer,
                to: self.artist_wallet,
                amount: self.receipt.royalty_amount,
            },
            SettlementStage::PayPlatform => SettlementAction::Pay {
                from: self.receipt.buyer,
                to: self.platform_wallet,
                amount: self.receipt.platform_amount,
            },
        }
    }

    /// The stage that follows once the pending transfer is made, if any does:
    /// the seller is always paid, the artist and the platform only what is
    /// more than nothing.
    pub open spec fn stage_after(self) -> Option<SettlementStage> {
        match self.stage {
            SettlementStage::TransferUnit => Some(SettlementStage::PaySeller),
            SettlementStage::PaySeller => if self.receipt.royalty_amount > 0 {
                Some(SettlementStage::PayArtist)
            } else if self.receipt.platform_amount > 0 {
                Some(SettlementStage::PayPlatform)
            } else {
                None
            },
            SettlementStage::PayArtist => if self.receipt.platform_amount > 0 {
                Some(SettlementStage::PayPlatform)
            } else {
                None
            },
            SettlementStage::PayPlatform => None,
        }
    }

    /// What the purchase fails with when the pending transfer is not made.
    pub open spec fn failure(self) -> ErrorCode {
        match self.stage {
            SettlementStage::TransferUnit => ErrorCode::TransferError,
            _ => ErrorCode::PaymentError,
        }
    }

    /// The transfers that are asked for from here on, in their order, as long
    /// as each is made.
    pub open spec fn schedule(self) -> Seq<SettlementAction>
        decreases transfers_after(self.stage),
    {
        match self.stage_after() {
            Some(stage) => seq![self.pending_action()] + (Settlement { stage, ..self }).schedule(),
            None => seq![self.pending_action()],
        }
    }

    /// Checks a purchase of one copy of `record` by `buyer`, who holds
    /// `buyer_funds`, and splits the price. The record is only read.
    ///
    /// Refused with `NotForSale` when the record is not offered; else with
    /// `SoldOut` when no copy is left; else with `InsufficientFunds` when the
    /// buyer holds less than the price; else with `InvalidConfig` when the
    /// record's royalty and fee are out of bounds.
    pub fn begin(record: &MusicNftData, buyer: &Pubkey, buyer_funds: u64) -> (result: Result<
        Settlement,
        ErrorCode,
    >)
        ensures
            match record.purchase_refusal(buyer_funds) {
                Some(reason) => result == Err::<Settlement, ErrorCode>(reason),
                None => result == Ok::<Settlement, ErrorCode>(settlement_of(*record, *buyer)),
            },
            result matches Ok(settlement) ==> settlement.receipt.seller_amount
                + settlement.receipt.royalty_amount + settlement.receipt.platform_amount
                == record.price,
    {
        match record.check_purchase(buyer_funds) {
            Err(reason) => { return Err(reason); },
            Ok(()) => {},
        }
        match split_price(record.price, record.artist_royalty, record.platform_fee) {
            Err(reason) => Err(reason),
            Ok(split) => Ok(
                Settlement {
                    receipt: SettlementReceipt {
                        mint: record.mint,
                        buyer: *buyer,
                        price: record.price,
                        seller_amount: split.seller_amount,
                        royalty_amount: split.royalty_amount,
                        platform_amount: split.platform_amount,
                    },
                    seller: record.owner,
                    artist_wallet: record.artist_wallet,
                    platform_wallet: record.platform_wallet,
                    stage: SettlementStage::TransferUnit,
                },
            ),
        }
    }

    /// What to do next for this settlement.
    pub fn action(&self) -> (action: SettlementAction)
        ensures
            action == self.pending_action(),
    {
        match self.stage {
            SettlementStage::TransferUnit => SettlementAction::TransferUnit {
                mint: self.receipt.mint,
                from: self.seller,
                to: self.receipt.buyer,
                quantity: 1,
            },
            SettlementStage::PaySeller => SettlementAction::Pay {
                from: self.receipt.buyer,
                to: self.seller,
                amount: self.receipt.seller_amount,
            },
            SettlementStage::PayArtist => SettlementAction::Pay {
                from: self.receipt.buyer,
                to: self.artist_wallet,
                amount: self.receipt.royalty_amount,
            },
            SettlementStage::PayPlatform => SettlementAction::Pay {
                from: self.receipt.buyer,
                to: self.platform_wallet,
                amount: self.receipt.platform_amount,
            },
        }
    }

    /// The stage that follows the pending transfer, if any does.
    fn next_stage(&self) -> (next: Option<SettlementStage>)
        ensures
            next == self.stage_after(),
    {
        match self.stage {
            SettlementStage::TransferUnit => Some(SettlementStage::PaySeller),
            SettlementStage::PaySeller => if self.receipt.royalty_amount > 0 {
                Some(SettlementStage::PayArtist)
            } else if self.receipt.platform_amount > 0 {
                Some(SettlementStage::PayPlatform)
            } else {
                None
            },
            SettlementStage::PayArtist => if self.receipt.platform_amount > 0 {
                Some(SettlementStage::PayPlatform)
            } else {
                None
            },
            SettlementStage::PayPlatform => None,
        }
    }

    /// Takes in how the pending transfer went and moves the settlement on.
    ///
    /// A transfer that failed ends the purchase: with `TransferError` when the
    /// copy was not handed over, with `PaymentError` when a payment was not
    /// made. After a transfer that was made the next one is waited for. After
    /// the last one the sale is booked in `store` and the receipt is handed
    /// out; that is refused with `NotFound` when the store has no record of
    /// the mint, and with `SoldOut` when no copy is left by then. The store
    /// changes in no other case.
    pub fn advance(self, store: &mut AssetStore, outcome: Outcome) -> (result: Result<
        SettlementProgress,
        ErrorCode,
    >)
        ensures
            outcome == Outcome::Failed ==> result == Err::<SettlementProgress, ErrorCode>(
                self.failure(),
            ),
            outcome == Outcome::Done ==> match self.stage_after() {
                Some(stage) => result == Ok::<SettlementProgress, ErrorCode>(
                    SettlementProgress::Pending(Settlement { stage, ..self }),
                ),
                None => if !old(store)@.dom().contains(self.receipt.mint) {
                    result == Err::<SettlementProgress, ErrorCode>(ErrorCode::NotFound)
                } else if !old(store)@[self.receipt.mint].has_capacity() {
                    result == Err::<SettlementProgress, ErrorCode>(ErrorCode::SoldOut)
                } else {
                    result == Ok::<SettlementProgress, ErrorCode>(
                        SettlementProgress::Settled(self.receipt),
                    )
                },
            },
            result matches Ok(SettlementProgress::Settled(_)) ==> final(store)@ == old(
                store,
            )@.insert(self.receipt.mint, old(store)@[self.receipt.mint].after_sale()),
            !(result matches Ok(SettlementProgress::Settled(_))) ==> final(store)@ == old(store)@,
    {
        match outcome {
            Outcome::Failed => match self.stage {
                SettlementStage::TransferUnit => Err(ErrorCode::TransferError),
                _ => Err(ErrorCode::PaymentError),
            },
            Outcome::Done => match self.next_stage() {
                Some(stage) => Ok(
                    SettlementProgress::Pending(
                        Settlement {
                            receipt: self.receipt,
                            seller: self.seller,
                            artist_wallet: self.artist_wallet,
                            platform_wallet: self.platform_wallet,
                            stage,
                        },
                    ),
                ),
                None => match store.apply_sale(&self.receipt.mint) {
                    Ok(()) => Ok(SettlementProgress::Settled(self.receipt)),
                    Err(reason) => Err(reason),
                },
            },
        }
    }
}

/// Checks a purchase of one copy of the record of `ctx.mint` and splits its
/// price. The settlement that comes back waits for the copy to be handed
/// over; the store is only read.
///
/// Refused with `NotFound` when the store has no such record; else with
/// `NotForSale` when the record is not offered; else with `InsufficientFunds`
/// when the buyer holds less than the price.
pub fn buy_music_nft(store: &AssetStore, ctx: &BuyMusicNft) -> (result: Result<
    Settlement,
    ErrorCode,
>)
    ensures
        !store@.dom().contains(ctx.mint) ==> result == Err::<Settlement, ErrorCode>(
            ErrorCode::NotFound,
        ),
        store@.dom().contains(ctx.mint) ==> match store@[ctx.mint].purchase_refusal(
            ctx.buyer_lamports,
        ) {
            Some(reason) => result == Err::<Settlement, ErrorCode>(reason),
            None => result == Ok::<Settlement, ErrorCode>(
                settlement_of(store@[ctx.mint], ctx.buyer),
            ),
        },
        result matches Ok(settlement) ==> settlement.receipt.seller_amount
            + settlement.receipt.royalty_amount + settlement.receipt.platform_amount
            == settlement.receipt.price,
        result matches Err(reason) ==> reason == ErrorCode::NotFound || reason
            == ErrorCode::NotForSale || reason == ErrorCode::InsufficientFunds,
{
    match store.get(&ctx.mint) {
        Err(reason) => Err(reason),
        Ok(record) => Settlement::begin(record, &ctx.buyer, ctx.buyer_lamports),
    }
}

/// The receipt of a purchase adds up: seller, artist and platform together
/// receive the price, and the two shares are the royalty and the fee of the
/// price, rounded down.
pub proof fn lemma_receipt_adds_up(record: MusicNftData, buyer: Pubkey)
    requires
        record.wf(),
    ensures
        ({
            let receipt = receipt_of(record, buyer);
            &&& receipt.seller_amount + receipt.royalty_amount + receipt.platform_amount
                == record.price
            &&& receipt.royalty_amount == (record.price * record.artist_royalty) / 10000
            &&& receipt.platform_amount == (record.price * record.platform_fee) / 10000
        }),
{
    lemma_share_within_amount(
        record.price as nat,
        record.artist_royalty as nat,
        record.platform_fee as nat,
    );
}

/// The transfers of a purchase, in their order: the copy goes to the buyer,
/// then the seller is paid, then the artist if there is a royalty to pay, then
/// the platform if there is a fee to pay.
pub proof fn lemma_schedule_of_purchase(record: MusicNftData, buyer: Pubkey)
    ensures
        ({
            let receipt = receipt_of(record, buyer);
            let hand_over = seq![
                SettlementAction::TransferUnit {
                    mint: record.mint,
                    from: record.owner,
                    to: buyer,
                    quantity: 1,
                },
                SettlementAction::Pay {
                    from: buyer,
                    to: record.owner,
                    amount: receipt.seller_amount,
                },
            ];
            let royalty = if receipt.royalty_amount > 0 {
                seq![
                    SettlementAction::Pay {
                        from: buyer,
                        to: record.artist_wallet,
                        amount: receipt.royalty_amount,
                    },
                ]
            } else {
                Seq::<SettlementAction>::empty()
            };
            let fee = if receipt.platform_amount > 0 {
                seq![
                    SettlementAction::Pay {
                        from: buyer,
                        to: record.platform_wallet,
                        amount: receipt.platform_amount,
                    },
                ]
            } else {
                Seq::<SettlementAction>::empty()
            };
            settlement_of(record, buyer).schedule() == hand_over + royalty + fee
        }),
{
    reveal_with_fuel(Settlement::schedule, 5);
    let receipt = receipt_of(record, buyer);
    let start = settlement_of(record, buyer);
    let hand_over = seq![
        SettlementAction::TransferUnit {
            mint: record.mint,
            from: record.owner,
            to: buyer,
            quantity: 1,
        },
        SettlementAction::Pay { from: buyer, to: record.owner, amount: receipt.seller_amount },
    ];
    let royalty = if receipt.royalty_amount > 0 {
        seq![
            SettlementAction::Pay {
                from: buyer,
                to: record.artist_wallet,
                amount: receipt.royalty_amount,
            },
        ]
    } else {
        Seq::<SettlementAction>::empty()
    };
    let fee = if receipt.platform_amount > 0 {
        seq![
            SettlementAction::Pay {
                from: buyer,
                to: record.platform_wallet,
                amount: receipt.platform_amount,
            },
        ]
    } else {
        Seq::<SettlementAction>::empty()
    };
    assert(start.schedule() =~= hand_over + royalty + fee);
}

} // verus!
