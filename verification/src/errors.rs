//! The ways in which a request can be turned down.

use vstd::prelude::*;

verus! {

/// Why a request was refused. A refused request leaves every record as it was.
#[derive(Clone, Copy, Debug, PartialEq, Eq, Structural)]
pub enum ErrorCode {
    /// The record is not offered for sale.
    NotForSale,
    /// Every copy of the record has been sold.
    SoldOut,
    /// The buyer holds less than the price.
    InsufficientFunds,
    /// The requester is not the owner of the record.
    Unauthorized,
    /// The royalty or the fee is out of bounds, or no copy is offered.
    InvalidConfig,
    /// A record with this mint exists already.
    DuplicateAsset,
    /// No record with this mint exists.
    NotFound,
    /// The copy could not be handed over to the buyer.
    TransferError,
    /// A payment of the purchase could not be made.
    PaymentError,
}

} // verus!
