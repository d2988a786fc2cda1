//! The record of one listed track and the rules that every change to it obeys.

use crate::errors::ErrorCode;
use crate::keys::same_key;
use crate::shares::{config_ok, MAX_ROYALTY_BPS};
use anchor_lang::prelude::Pubkey;
use vstd::prelude::*;

verus! {

/// One listed track: what it is, what it costs, how many copies exist and who
/// is paid when one is sold.
///
/// `mint` identifies the record and never changes, nor does `amount`. The
/// owner changes the price and the royalty; a sale raises `amount_sold`.
#[derive(Debug, PartialEq, Eq)]
pub struct MusicNftData {
    /// Name of the track or album.
    pub title: String,
    /// Ticker of the token.
    pub symbol: String,
    /// Where the metadata is kept.
    pub uri: String,
    /// Genre of the track.
    pub genre: String,
    /// Price of one copy, in the smallest unit of the currency.
    pub price: u64,
    /// Beats per minute.
    pub bpm: u16,
    /// Musical key of the track.
    pub key: String,
    /// The seller, who receives what is left of the price.
    pub owner: Pubkey,
    /// The token's mint, by which the record is found.
    pub mint: Pubkey,
    /// How many copies exist.
    pub amount: u32,
    /// How many copies have been sold.
    pub amount_sold: u32,
    /// Whether copies are offered for sale.
    pub is_for_sale: bool,
    /// The artist's royalty in basis points (100 is 1%).
    pub artist_royalty: u16,
    /// The platform's fee in basis points (500 is 5%).
    pub platform_fee: u16,
    /// Who receives the platform's fee.
    pub platform_wallet: Pubkey,
    /// Who receives the royalty: the artist, also after the record has
    /// changed hands.
    pub artist_wallet: Pubkey,
}

impl MusicNftData {
    /// What holds of a record at all times: at least one copy exists, no more
    /// copies are sold than exist, nothing is offered once all are sold, and
    /// royalty and fee are within bounds.
    pub open spec fn wf(self) -> bool {
        &&& self.amount >= 1
        &&& self.amount_sold <= self.amount
        &&& self.is_for_sale ==> self.amount_sold < self.amount
        &&& config_ok(self.artist_royalty, self.platform_fee)
    }

    /// Whether a copy is left to sell.
    pub open spec fn has_capacity(self) -> bool {
        self.amount_sold < self.amount
    }

    /// The record after one more copy has been sold: the offer ends with the
    /// last copy.
    pub open spec fn after_sale(self) -> MusicNftData {
        MusicNftData {
            amount_sold: (self.amount_sold + 1) as u32,
            is_for_sale: self.is_for_sale && self.amount_sold + 1 < self.amount,
            ..self
        }
    }

    /// Why a purchase by a buyer who holds `funds` is turned down, if it is.
    /// The reasons are looked for in this order.
    pub open spec fn purchase_refusal(self, funds: u64) -> Option<ErrorCode> {
        if !self.is_for_sale {
            Some(ErrorCode::NotForSale)
        } else if self.amount_sold >= self.amount {
            Some(ErrorCode::SoldOut)
        } else if funds < self.price {
            Some(ErrorCode::InsufficientFunds)
        } else if !config_ok(self.artist_royalty, self.platform_fee) {
            Some(ErrorCode::InvalidConfig)
        } else {
            None
        }
    }

    /// Tells whether the record is well formed.
    pub fn is_valid(&self) -> (valid: bool)
        ensures
            valid == self.wf(),
    {
        self.amount >= 1 && self.amount_sold <= self.amount && (!self.is_for_sale
            || self.amount_sold < self.amount) && self.artist_royalty <= MAX_ROYALTY_BPS
            && self.platform_fee <= 10000 - self.artist_royalty
    }

    /// Sets a new price. Only the owner may; any price is accepted.
    pub fn update_price(&mut self, requester: &Pubkey, new_price: u64) -> (result: Result<
        (),
        ErrorCode,
    >)
        ensures
            old(self).owner == *requester ==> result is Ok && *final(self) == (MusicNftData {
                price: new_price,
                ..*old(self)
            }),
            old(self).owner != *requester ==> result == Err::<(), ErrorCode>(
                ErrorCode::Unauthorized,
            ) && *final(self) == *old(self),
            old(self).wf() ==> final(self).wf(),
    {
        if !same_key(&self.owner, requester) {
            return Err(ErrorCode::Unauthorized);
        }
        self.price = new_price;
        Ok(())
    }

    /// Sets a new royalty. Only the owner may, and only within bounds: at most
    /// `MAX_ROYALTY_BPS`, and with the platform's fee at most the whole.
    pub fn update_royalty(&mut self, requester: &Pubkey, new_royalty: u16) -> (result: Result<
        (),
        ErrorCode,
    >)
        ensures
            old(self).owner != *requester ==> result == Err::<(), ErrorCode>(
                ErrorCode::Unauthorized,
            ),
            old(self).owner == *requester && !config_ok(new_royalty, old(self).platform_fee)
                ==> result == Err::<(), ErrorCode>(ErrorCode::InvalidConfig),
            old(self).owner == *requester && config_ok(new_royalty, old(self).platform_fee)
                ==> result is Ok,
            result is Ok ==> *final(self) == (MusicNftData {
                artist_royalty: new_royalty,
                ..*old(self)
            }),
            result is Err ==> *final(self) == *old(self),
            old(self).wf() ==> final(self).wf(),
    {
        if !same_key(&self.owner, requester) {
            return Err(ErrorCode::Unauthorized);
        }
        if new_royalty > MAX_ROYALTY_BPS || self.platform_fee > 10000 - new_royalty {
            return Err(ErrorCode::InvalidConfig);
        }
        self.artist_royalty = new_royalty;
        Ok(())
    }

    /// Books the sale of one copy, and ends the offer with the last one.
    /// Refused with `SoldOut` when no copy is left.
    pub fn apply_sale(&mut self) -> (result: Result<(), ErrorCode>)
        ensures
            old(self).has_capacity() ==> result is Ok && *final(self) == old(self).after_sale(),
            !old(self).has_capacity() ==> result == Err::<(), ErrorCode>(ErrorCode::SoldOut)
                && *final(self) == *old(self),
            old(self).wf() ==> final(self).wf(),
    {
        if self.amount_sold >= self.amount {
            return Err(ErrorCode::SoldOut);
        }
        self.amount_sold = self.amount_sold + 1;
        if self.amount_sold >= self.amount {
            self.is_for_sale = false;
        }
        Ok(())
    }

    /// Checks a purchase by a buyer who holds `buyer_funds`, and changes
    /// nothing.
    pub fn check_purchase(&self, buyer_funds: u64) -> (result: Result<(), ErrorCode>)
        ensures
            match self.purchase_refusal(buyer_funds) {
                Some(reason) => result == Err::<(), ErrorCode>(reason),
                None => result is Ok,
            },
    {
        if !self.is_for_sale {
            return Err(ErrorCode::NotForSale);
        }
        if self.amount_sold >= self.amount {
            return Err(ErrorCode::SoldOut);
        }
        if buyer_funds < self.price {
            return Err(ErrorCode::InsufficientFunds);
        }
        if self.artist_royalty > MAX_ROYALTY_BPS || self.platform_fee > 10000
            - self.artist_royalty {
            return Err(ErrorCode::InvalidConfig);
        }
        Ok(())
    }
}

impl Clone for MusicNftData {
    fn clone(&self) -> (copy: Self)
        ensures
            copy == *self,
    {
        MusicNftData {
            title: self.title.clone(),
            symbol: self.symbol.clone(),
            uri: self.uri.clone(),
            genre: self.genre.clone(),
            price: self.price,
            bpm: self.bpm,
            key: self.key.clone(),
            owner: self.owner,
            mint: self.mint,
            amount: self.amount,
            amount_sold: self.amount_sold,
            is_for_sale: self.is_for_sale,
            artist_royalty: self.artist_royalty,
            platform_fee: self.platform_fee,
            platform_wallet: self.platform_wallet,
            artist_wallet: self.artist_wallet,
        }
    }
}

/// Selling a copy keeps a record well formed, and selling the last copy ends
/// the offer.
pub proof fn lemma_sale_keeps_record_sound(record: MusicNftData)
    requires
        record.wf(),
        record.has_capacity(),
    ensures
        record.after_sale().wf(),
        record.after_sale().amount_sold == record.amount_sold + 1,
        record.amount_sold + 1 == record.amount ==> !record.after_sale().is_for_sale,
        record.amount_sold + 1 < record.amount ==> record.after_sale().is_for_sale
            == record.is_for_sale,
{
}

/// A record that is not offered, or of which every copy is sold, refuses every
/// purchase, whatever the buyer holds: as not for sale in the first case, as
/// sold out in the second.
pub proof fn lemma_unavailable_record_refuses(record: MusicNftData, funds: u64)
    requires
        !record.is_for_sale || record.amount_sold == record.amount,
    ensures
        !record.is_for_sale ==> record.purchase_refusal(funds) == Some(ErrorCode::NotForSale),
        record.is_for_sale ==> record.purchase_refusal(funds) == Some(ErrorCode::SoldOut),
{
}

/// The last copy is sold once. Where several purchases of it were accepted
/// before any was booked, the first booking succeeds and leaves the record
/// without capacity, so that every later booking is refused as sold out; and a
/// purchase that is asked for after that is refused as not for sale.
pub proof fn lemma_last_copy_sells_once(record: MusicNftData, funds: u64)
    requires
        record.wf(),
        record.amount_sold + 1 == record.amount,
    ensures
        record.has_capacity(),
        !record.after_sale().has_capacity(),
        record.after_sale().wf(),
        record.after_sale().purchase_refusal(funds) == Some(ErrorCode::NotForSale),
{
}

} // verus!
