use vstd::prelude::*;

verus! {

/// Why a handler refused a request.
#[derive(Clone, Copy, Debug, PartialEq, Eq, Structural)]
pub enum AuctionError {
    /// A bid on a timed auction came before its start.
    AuctionNotStarted,
    /// A bid on a timed auction came at or after its end.
    AuctionEnded,
    /// The bid does not exceed the current price.
    BidPriceTooLow,
    /// The currency holder handed to a bid is not the auction's.
    UnauthorizedCurrencyHolder,
    /// The refund receiver handed to a bid is not the one the auction names.
    InvalidRefundReceiver,
    /// A timed auction was closed before its end.
    AuctionNotEnded,
    /// The item holder or the currency holder handed to a close is not the
    /// auction's (both are reported alike).
    UnauthorizedItemHolder,
    /// The item receiver is not owned by the highest bidder.
    ReceiverNotBidWinner,
    /// The signer is not the seller, or the seller's token account is not
    /// owned by the seller.
    UnauthorizedSeller,
    /// A timed auction was created with a start that is not before its end.
    StartTimeExceedsEndTime,
}

/// The text with which each refusal is reported.
pub open spec fn error_message(e: AuctionError) -> Seq<char> {
    match e {
        AuctionError::AuctionNotStarted => "Auction hasn't started"@,
        AuctionError::AuctionEnded => "Auction has ended"@,
        AuctionError::BidPriceTooLow => "Bid Price Too Low"@,
        AuctionError::UnauthorizedCurrencyHolder => "Unauthorized Currency Holder"@,
        AuctionError::InvalidRefundReceiver => "Invalid Refund Receiver"@,
        AuctionError::AuctionNotEnded => "Auction hasn't ended yet"@,
        AuctionError::UnauthorizedItemHolder => "Unauthorized Item Holder"@,
        AuctionError::ReceiverNotBidWinner => "Receiver not Bid Winner"@,
        AuctionError::UnauthorizedSeller => "Signer not seller or unauthorized seller ata"@,
        AuctionError::StartTimeExceedsEndTime => "Start time exceeds end time"@,
    }
}

impl AuctionError {
    /// The text with which this refusal is reported.
    pub fn message(&self) -> (text: &'static str)
        ensures
            text@ == error_message(*self),
    {
        match self {
            AuctionError::AuctionNotStarted => "Auction hasn't started",
            AuctionError::AuctionEnded => "Auction has ended",
            AuctionError::BidPriceTooLow => "Bid Price Too Low",
            AuctionError::UnauthorizedCurrencyHolder => "Unauthorized Currency Holder",
            AuctionError::InvalidRefundReceiver => "Invalid Refund Receiver",
            AuctionError::AuctionNotEnded => "Auction hasn't ended yet",
            AuctionError::UnauthorizedItemHolder => "Unauthorized Item Holder",
            AuctionError::ReceiverNotBidWinner => "Receiver not Bid Winner",
            AuctionError::UnauthorizedSeller => "Signer not seller or unauthorized seller ata",
            AuctionError::StartTimeExceedsEndTime => "Start time exceeds end time",
        }
    }
}

} // verus!
