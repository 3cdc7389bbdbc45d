use vstd::prelude::*;

use crate::error::AuctionError;
use crate::pubkey::Pubkey;
use crate::token::{Clock, TokenAccount, Transfer};

verus! {

/// The auction record as it is kept in its account.
#[derive(Clone, Copy, Debug)]
pub struct Auction {
    pub ongoing: bool,
    pub seller: Pubkey,
    pub item_holder: Pubkey,
    pub currency_holder: Pubkey,
    pub currency: Pubkey,
    pub refund_receiver: Pubkey,
    pub bidder: Pubkey,
    pub price: u64,
    pub timed: bool,
    pub go_live: i64,
    pub end: i64,
}

/// A working copy of an auction record, together with the address of the
/// account it was loaded from (the auction account signs the transfers out of
/// the accounts it holds).
#[derive(Clone, Copy, Debug)]
pub struct LoadedAuction {
    pub account: Pubkey,
    pub ongoing: bool,
    pub seller: Pubkey,
    pub item_holder: Pubkey,
    pub currency_holder: Pubkey,
    pub currency: Pubkey,
    pub refund_receiver: Pubkey,
    pub bidder: Pubkey,
    pub price: u64,
    pub timed: bool,
    pub go_live: i64,
    pub end: i64,
}

/// The working copy of `record` loaded from the account at `account`.
pub open spec fn loaded_from(record: Auction, account: Pubkey) -> LoadedAuction {
    LoadedAuction {
        account,
        ongoing: record.ongoing,
        seller: record.seller,
        item_holder: record.item_holder,
        currency_holder: record.currency_holder,
        currency: record.currency,
        refund_receiver: record.refund_receiver,
        bidder: record.bidder,
        price: record.price,
        timed: record.timed,
        go_live: record.go_live,
        end: record.end,
    }
}

/// The record that storing `loaded` writes into its account.
pub open spec fn stored_record(loaded: LoadedAuction) -> Auction {
    Auction {
        ongoing: loaded.ongoing,
        seller: loaded.seller,
        item_holder: loaded.item_holder,
        currency_holder: loaded.currency_holder,
        currency: loaded.currency,
        refund_receiver: loaded.refund_receiver,
        bidder: loaded.bidder,
        price: loaded.price,
        timed: loaded.timed,
        go_live: loaded.go_live,
        end: loaded.end,
    }
}

impl Auction {
    /// Loads the record kept in the account at `account` into a working copy.
    pub fn load(record: &Auction, account: Pubkey) -> (loaded: LoadedAuction)
        ensures
            loaded == loaded_from(*record, account),
    {
        LoadedAuction {
            account,
            ongoing: record.ongoing,
            seller: record.seller,
            item_holder: record.item_holder,
            currency_holder: record.currency_holder,
            currency: record.currency,
            refund_receiver: record.refund_receiver,
            bidder: record.bidder,
            price: record.price,
            timed: record.timed,
            go_live: record.go_live,
            end: record.end,
        }
    }

    /// Writes every field of the working copy back into the account's record.
    pub fn store(loaded: &LoadedAuction, record: &mut Auction)
        ensures
            *final(record) == stored_record(*loaded),
    {
        record.ongoing = loaded.ongoing;
        record.seller = loaded.seller;
        record.item_holder = loaded.item_holder;
        record.currency_holder = loaded.currency_holder;
        record.currency = loaded.currency;
        record.refund_receiver = loaded.refund_receiver;
        record.bidder = loaded.bidder;
        record.price = loaded.price;
        record.timed = loaded.timed;
        record.go_live = loaded.go_live;
        record.end = loaded.end;
    }
}


// ---------------------------------------------------------------------------
// Creating an auction
// ---------------------------------------------------------------------------

/// Why a creation is refused, if it is.
pub open spec fn create_refusal(timed: bool, go_live: i64, end: i64) -> Option<AuctionError> {
    if timed && !(go_live < end) {
        Some(AuctionError::StartTimeExceedsEndTime)
    } else {
        None
    }
}

/// The auction that a successful creation leaves: ongoing, with the seller as
/// the standing bidder at the start price, refunds going back to the currency
/// holder, and the schedule taken from the request when the auction is timed.
pub open spec fn created(
    auction: LoadedAuction,
    start_price: u64,
    seller: Pubkey,
    currency_holder: Pubkey,
    item_holder: Pubkey,
    currency: Pubkey,
    timed: bool,
    go_live: i64,
    end: i64,
) -> LoadedAuction {
    LoadedAuction {
        account: auction.account,
        ongoing: true,
        seller,
        item_holder,
        currency_holder,
        currency,
        refund_receiver: currency_holder,
        bidder: seller,
        price: start_price,
        timed,
        go_live: if timed { go_live } else { auction.go_live },
        end: if timed { end } else { auction.end },
    }
}

/// Sets up a new auction in `auction`.
///
/// A timed auction must start before it ends; otherwise the request is
/// refused and `auction` is left as it was.
pub fn create_auction_handler(
    auction: &mut LoadedAuction,
    start_price: u64,
    seller: Pubkey,
    currency_holder: Pubkey,
    item_holder: Pubkey,
    currency: Pubkey,
    timed: bool,
    go_live: i64,
    end: i64,
) -> (result: Result<(), AuctionError>)
    ensures
        match create_refusal(timed, go_live, end) {
            Some(e) => result == Err::<(), AuctionError>(e) && *final(auction) == *old(auction),
            None => result is Ok && *final(auction) == created(
                *old(auction),
                start_price,
                seller,
                currency_holder,
                item_holder,
                currency,
                timed,
                go_live,
                end,
            ),
        },
{
    if timed && !(go_live < end) {
        return Err(AuctionError::StartTimeExceedsEndTime);
    }
    auction.ongoing = true;
    auction.seller = seller;
    auction.item_holder = item_holder;
    auction.currency_holder = currency_holder;
    auction.currency = currency;
    auction.bidder = seller;
    auction.price = start_price;
    auction.refund_receiver = currency_holder;
    auction.timed = false;
    if timed {
        auction.timed = timed;
        auction.go_live = go_live;
        auction.end = end;
    }
    Ok(())
}

// ---------------------------------------------------------------------------
// Bidding
// ---------------------------------------------------------------------------

/// Why a bid is refused, if it is: the checks in the order in which they are
/// made.
pub open spec fn bid_refusal(
    auction: LoadedAuction,
    price: u64,
    currency_holder: TokenAccount,
    refund_receiver: TokenAccount,
    now: i64,
) -> Option<AuctionError> {
    if auction.timed && now < auction.go_live {
        Some(AuctionError::AuctionNotStarted)
    } else if auction.timed && now >= auction.end {
        Some(AuctionError::AuctionEnded)
    } else if price <= auction.price {
        Some(AuctionError::BidPriceTooLow)
    } else if auction.currency_holder != currency_holder.key {
        Some(AuctionError::UnauthorizedCurrencyHolder)
    } else if refund_receiver.key != auction.refund_receiver {
        Some(AuctionError::InvalidRefundReceiver)
    } else {
        None
    }
}

/// The refund to the outbid party: whenever the auction names a refund
/// receiver other than its currency holder, the currency holder pays that
/// receiver as many tokens as the receiver's account holds, approved by the
/// auction account.
pub open spec fn bid_refund(
    auction: LoadedAuction,
    currency_holder: TokenAccount,
    refund_receiver: TokenAccount,
) -> Seq<Transfer> {
    if auction.refund_receiver != currency_holder.key {
        seq![Transfer {
            from: currency_holder.key,
            to: refund_receiver.key,
            authority: auction.account,
            amount: refund_receiver.amount,
            signer_seed: None,
        }]
    } else {
        seq![]
    }
}

/// The payment of the bid: `price` tokens from the bidder's account into the
/// currency holder, approved by `authority`.
pub open spec fn bid_payment(
    price: u64,
    bidder: TokenAccount,
    authority: Pubkey,
    currency_holder: TokenAccount,
) -> Transfer {
    Transfer {
        from: bidder.key,
        to: currency_holder.key,
        authority,
        amount: price,
        signer_seed: None,
    }
}

/// The auction after an accepted bid: the bid is the new price, and the
/// owner of the bidding account becomes both the standing bidder and the one
/// to refund when outbid.
pub open spec fn after_bid(auction: LoadedAuction, price: u64, bidder: TokenAccount) -> LoadedAuction {
    LoadedAuction { price, bidder: bidder.owner, refund_receiver: bidder.owner, ..auction }
}

/// Places a bid of `price` tokens from the `bidder` account.
///
/// On success the auction records the new bid and the transfers to perform
/// are returned: the refund of the outbid party, if any, then the payment of
/// the bid. A refused bid leaves `auction` as it was.
pub fn bid_handler(
    auction: &mut LoadedAuction,
    price: u64,
    bidder: &TokenAccount,
    authority: Pubkey,
    currency_holder: &TokenAccount,
    refund_receiver: &TokenAccount,
    clock: &Clock,
) -> (result: Result<Vec<Transfer>, AuctionError>)
    ensures
        match bid_refusal(*old(auction), price, *currency_holder, *refund_receiver, clock.unix_timestamp) {
            Some(e) => result == Err::<Vec<Transfer>, AuctionError>(e) && *final(auction) == *old(auction),
            None => result is Ok
                && result->Ok_0@ == bid_refund(*old(auction), *currency_holder, *refund_receiver).push(
                    bid_payment(price, *bidder, authority, *currency_holder),
                )
                && *final(auction) == after_bid(*old(auction), price, *bidder),
        },
{
    if auction.timed {
        if !(clock.unix_timestamp >= auction.go_live) {
            return Err(AuctionError::AuctionNotStarted);
        }
        if !(clock.unix_timestamp < auction.end) {
            return Err(AuctionError::AuctionEnded);
        }
    }
    if !(price > auction.price) {
        return Err(AuctionError::BidPriceTooLow);
    }
    if !(auction.currency_holder == currency_holder.key) {
        return Err(AuctionError::UnauthorizedCurrencyHolder);
    }
    if !(refund_receiver.key == auction.refund_receiver) {
        return Err(AuctionError::InvalidRefundReceiver);
    }
    let mut transfers: Vec<Transfer> = Vec::new();
    if auction.refund_receiver != currency_holder.key {
        transfers.push(Transfer {
            from: currency_holder.key,
            to: refund_receiver.key,
            authority: auction.account,
            amount: refund_receiver.amount,
            signer_seed: None,
        });
    }
    transfers.push(Transfer {
        from: bidder.key,
        to: currency_holder.key,
        authority,
        amount: price,
        signer_seed: None,
    });
    auction.price = price;
    auction.bidder = bidder.owner;
    auction.refund_receiver = bidder.owner;
    Ok(transfers)
}

// ---------------------------------------------------------------------------
// Closing an auction
// ---------------------------------------------------------------------------

/// Why a close is refused, if it is: the checks in the order in which they
/// are made.
pub open spec fn close_refusal(
    auction: LoadedAuction,
    item_receiver: TokenAccount,
    item_holder: TokenAccount,
    currency_holder: TokenAccount,
    seller: Pubkey,
    seller_ata: TokenAccount,
    now: i64,
) -> Option<AuctionError> {
    if auction.timed && now < auction.end {
        Some(AuctionError::AuctionNotEnded)
    } else if item_holder.key != auction.item_holder {
        Some(AuctionError::UnauthorizedItemHolder)
    } else if currency_holder.key != auction.currency_holder {
        Some(AuctionError::UnauthorizedItemHolder)
    } else if auction.bidder != item_receiver.owner {
        Some(AuctionError::ReceiverNotBidWinner)
    } else if !(seller == auction.seller && seller_ata.owner == auction.seller) {
        Some(AuctionError::UnauthorizedSeller)
    } else {
        None
    }
}

/// The transfers of a close: everything the item holder holds goes to the
/// item receiver; then, when the currency holder holds at least the price,
/// everything it holds goes to the seller's token account. The auction
/// account approves both.
pub open spec fn close_transfers(
    auction: LoadedAuction,
    item_receiver: TokenAccount,
    item_holder: TokenAccount,
    currency_holder: TokenAccount,
    seller_ata: TokenAccount,
) -> Seq<Transfer> {
    let item = Transfer {
        from: item_holder.key,
        to: item_receiver.key,
        authority: auction.account,
        amount: item_holder.amount,
        signer_seed: None,
    };
    if currency_holder.amount >= auction.price {
        seq![item, Transfer {
            from: currency_holder.key,
            to: seller_ata.key,
            authority: auction.account,
            amount: currency_holder.amount,
            signer_seed: None,
        }]
    } else {
        seq![item]
    }
}

/// The auction after an accepted close: no longer ongoing.
pub open spec fn after_close(auction: LoadedAuction) -> LoadedAuction {
    LoadedAuction { ongoing: false, ..auction }
}

/// Closes the auction: hands the item to the winner's account and the
/// proceeds to the seller.
///
/// On success the auction is marked as no longer ongoing and the transfers
/// to perform are returned. A refused close leaves `auction` as it was.
pub fn close_auction_handler(
    auction: &mut LoadedAuction,
    item_receiver: &TokenAccount,
    item_holder: &TokenAccount,
    currency_holder: &TokenAccount,
    seller: Pubkey,
    seller_ata: &TokenAccount,
    clock: &Clock,
) -> (result: Result<Vec<Transfer>, AuctionError>)
    ensures
        match close_refusal(
            *old(auction),
            *item_receiver,
            *item_holder,
            *currency_holder,
            seller,
            *seller_ata,
            clock.unix_timestamp,
        ) {
            Some(e) => result == Err::<Vec<Transfer>, AuctionError>(e) && *final(auction) == *old(auction),
            None => result is Ok
                && result->Ok_0@ == close_transfers(
                    *old(auction),
                    *item_receiver,
                    *item_holder,
                    *currency_holder,
                    *seller_ata,
                )
                && *final(auction) == after_close(*old(auction)),
        },
{
    if auction.timed {
        if !(clock.unix_timestamp >= auction.end) {
            return Err(AuctionError::AuctionNotEnded);
        }
    }
    if !(item_holder.key == auction.item_holder) {
        return Err(AuctionError::UnauthorizedItemHolder);
    }
    if !(currency_holder.key == auction.currency_holder) {
        return Err(AuctionError::UnauthorizedItemHolder);
    }
    if !(auction.bidder == item_receiver.owner) {
        return Err(AuctionError::ReceiverNotBidWinner);
    }
    if !(seller == auction.seller && seller_ata.owner == auction.seller) {
        return Err(AuctionError::UnauthorizedSeller);
    }
    let mut transfers: Vec<Transfer> = Vec::new();
    transfers.push(Transfer {
        from: item_holder.key,
        to: item_receiver.key,
        authority: auction.account,
        amount: item_holder.amount,
        signer_seed: None,
    });
    if currency_holder.amount >= auction.price {
        transfers.push(Transfer {
            from: currency_holder.key,
            to: seller_ata.key,
            authority: auction.account,
            amount: currency_holder.amount,
            signer_seed: None,
        });
    }
    auction.ongoing = false;
    Ok(transfers)
}

// ---------------------------------------------------------------------------
// Depositing the item
// ---------------------------------------------------------------------------

/// The deposit of the item: everything the seller's item account holds goes
/// to the item holder, approved by the payer and signed with the payer's key
/// as seed.
pub open spec fn deposit_transfer(seller_item_ata: TokenAccount, payer: Pubkey, item_holder: TokenAccount) -> Transfer {
    Transfer {
        from: seller_item_ata.key,
        to: item_holder.key,
        authority: payer,
        amount: seller_item_ata.amount,
        signer_seed: Some(payer),
    }
}

/// The transfer that deposits the auctioned item with the auction.
pub fn deposit_item_handler(seller_item_ata: &TokenAccount, payer: Pubkey, item_holder: &TokenAccount) -> (transfer: Transfer)
    ensures
        transfer == deposit_transfer(*seller_item_ata, payer, *item_holder),
{
    Transfer {
        from: seller_item_ata.key,
        to: item_holder.key,
        authority: payer,
        amount: seller_item_ata.amount,
        signer_seed: Some(payer),
    }
}

} // verus!
