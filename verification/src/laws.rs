use vstd::prelude::*;

use crate::dot::program::{
    after_bid, after_close, bid_payment, bid_refund, bid_refusal, close_refusal, close_transfers, created,
    create_refusal, deposit_transfer, loaded_from, stored_record, Auction, LoadedAuction,
};
use crate::pubkey::Pubkey;
use crate::error::AuctionError;
use crate::token::{TokenAccount, Transfer};

verus! {

/// A timed auction starts before it ends.
pub open spec fn schedule_valid(auction: LoadedAuction) -> bool {
    auction.timed ==> auction.go_live < auction.end
}

/// Loading a record and storing the working copy back writes the same record.
pub proof fn lemma_store_after_load(record: Auction, account: Pubkey)
    ensures
        stored_record(loaded_from(record, account)) == record,
{
}

/// Storing a working copy and loading it again from the same account gives
/// the same working copy.
pub proof fn lemma_load_after_store(loaded: LoadedAuction)
    ensures
        loaded_from(stored_record(loaded), loaded.account) == loaded,
{
}

/// Every auction that a creation accepts has a valid schedule, and bids and
/// closes keep the schedule as it is.
pub proof fn lemma_schedule_stays_valid(
    auction: LoadedAuction,
    start_price: u64,
    seller: Pubkey,
    currency_holder: Pubkey,
    item_holder: Pubkey,
    currency: Pubkey,
    timed: bool,
    go_live: i64,
    end: i64,
    price: u64,
    bidder: TokenAccount,
)
    ensures
        create_refusal(timed, go_live, end) is None ==> schedule_valid(
            created(auction, start_price, seller, currency_holder, item_holder, currency, timed, go_live, end),
        ),
        schedule_valid(auction) ==> schedule_valid(after_bid(auction, price, bidder)),
        schedule_valid(auction) ==> schedule_valid(after_close(auction)),
{
}

/// An accepted bid strictly raises the price to the amount bid, and makes the
/// owner of the bidding account the standing bidder.
pub proof fn lemma_accepted_bid_raises_price(
    auction: LoadedAuction,
    price: u64,
    bidder: TokenAccount,
    currency_holder: TokenAccount,
    refund_receiver: TokenAccount,
    now: i64,
)
    requires
        bid_refusal(auction, price, currency_holder, refund_receiver, now) is None,
    ensures
        after_bid(auction, price, bidder).price == price,
        price > auction.price,
        after_bid(auction, price, bidder).bidder == bidder.owner,
{
}

/// A bid changes nothing of the auction but its price, its standing bidder
/// and the party to refund.
pub proof fn lemma_bid_keeps_terms(auction: LoadedAuction, price: u64, bidder: TokenAccount)
    ensures
        ({
            let next = after_bid(auction, price, bidder);
            &&& next.account == auction.account
            &&& next.ongoing == auction.ongoing
            &&& next.seller == auction.seller
            &&& next.item_holder == auction.item_holder
            &&& next.currency_holder == auction.currency_holder
            &&& next.currency == auction.currency
            &&& next.timed == auction.timed
            &&& next.go_live == auction.go_live
            &&& next.end == auction.end
        }),
{
}

/// The transfers of an accepted bid end with the payment of the full bid
/// into the auction's currency holder; before it there is at most one
/// transfer, the refund, which is made exactly when the auction names a
/// refund receiver other than its currency holder, goes to that receiver and
/// comes out of the currency holder.
pub proof fn lemma_bid_transfers(
    auction: LoadedAuction,
    price: u64,
    bidder: TokenAccount,
    authority: Pubkey,
    currency_holder: TokenAccount,
    refund_receiver: TokenAccount,
    now: i64,
)
    requires
        bid_refusal(auction, price, currency_holder, refund_receiver, now) is None,
    ensures
        ({
            let ts = bid_refund(auction, currency_holder, refund_receiver).push(
                bid_payment(price, bidder, authority, currency_holder),
            );
            &&& ts.last().from == bidder.key
            &&& ts.last().to == auction.currency_holder
            &&& ts.last().amount == price
            &&& ts.last().authority == authority
            &&& (ts.len() == 2) == (auction.refund_receiver != auction.currency_holder)
            &&& ts.len() == 1 || ts.len() == 2
            &&& ts.len() == 2 ==> ts[0].from == auction.currency_holder && ts[0].to
                == auction.refund_receiver && ts[0].authority == auction.account
        }),
{
}

/// The first bid accepted on a freshly created auction refunds nobody.
pub proof fn lemma_first_bid_refunds_nobody(
    auction: LoadedAuction,
    start_price: u64,
    seller: Pubkey,
    currency_holder_key: Pubkey,
    item_holder: Pubkey,
    currency: Pubkey,
    timed: bool,
    go_live: i64,
    end: i64,
    price: u64,
    currency_holder: TokenAccount,
    refund_receiver: TokenAccount,
    now: i64,
)
    requires
        bid_refusal(
            created(auction, start_price, seller, currency_holder_key, item_holder, currency, timed, go_live, end),
            price,
            currency_holder,
            refund_receiver,
            now,
        ) is None,
    ensures
        bid_refund(
            created(auction, start_price, seller, currency_holder_key, item_holder, currency, timed, go_live, end),
            currency_holder,
            refund_receiver,
        ) == Seq::<Transfer>::empty(),
{
}

/// When a bid is outbid, the refund that the outbidding bid makes goes to the
/// account whose address is the owner of the outbid account, unless that is
/// the currency holder itself; and the price keeps rising.
pub proof fn lemma_outbid_refund_goes_to_previous_bidder(
    auction: LoadedAuction,
    first_price: u64,
    first_bidder: TokenAccount,
    first_currency_holder: TokenAccount,
    first_refund_receiver: TokenAccount,
    first_now: i64,
    second_price: u64,
    second_currency_holder: TokenAccount,
    second_refund_receiver: TokenAccount,
    second_now: i64,
)
    requires
        bid_refusal(auction, first_price, first_currency_holder, first_refund_receiver, first_now) is None,
        bid_refusal(
            after_bid(auction, first_price, first_bidder),
            second_price,
            second_currency_holder,
            second_refund_receiver,
            second_now,
        ) is None,
    ensures
        second_price > first_price > auction.price,
        second_refund_receiver.key == first_bidder.owner,
        ({
            let refund = bid_refund(
                after_bid(auction, first_price, first_bidder),
                second_currency_holder,
                second_refund_receiver,
            );
            &&& (refund.len() == 1) == (first_bidder.owner != auction.currency_holder)
            &&& refund.len() <= 1
            &&& refund.len() == 1 ==> refund[0].to == first_bidder.owner
        }),
{
}

/// In a timed auction bids are accepted only from its start until before its
/// end, and a close only from its end on: every accepted bid comes strictly
/// before every accepted close.
pub proof fn lemma_timed_bids_precede_close(
    auction: LoadedAuction,
    price: u64,
    currency_holder: TokenAccount,
    refund_receiver: TokenAccount,
    bid_time: i64,
    item_receiver: TokenAccount,
    item_holder: TokenAccount,
    close_currency_holder: TokenAccount,
    seller: Pubkey,
    seller_ata: TokenAccount,
    close_time: i64,
)
    requires
        auction.timed,
        bid_refusal(auction, price, currency_holder, refund_receiver, bid_time) is None,
        close_refusal(
            auction,
            item_receiver,
            item_holder,
            close_currency_holder,
            seller,
            seller_ata,
            close_time,
        ) is None,
    ensures
        auction.go_live <= bid_time < auction.end <= close_time,
{
}

/// An accepted close gives the whole content of the item holder to an
/// account owned by the standing bidder, pays the seller's own account only
/// when the currency holder holds at least the price, ends the auction and
/// changes nothing else.
pub proof fn lemma_close_pays_winner_and_seller(
    auction: LoadedAuction,
    item_receiver: TokenAccount,
    item_holder: TokenAccount,
    currency_holder: TokenAccount,
    seller: Pubkey,
    seller_ata: TokenAccount,
    now: i64,
)
    requires
        close_refusal(auction, item_receiver, item_holder, currency_holder, seller, seller_ata, now) is None,
    ensures
        ({
            let ts = close_transfers(auction, item_receiver, item_holder, currency_holder, seller_ata);
            &&& ts[0].from == auction.item_holder
            &&& ts[0].to == item_receiver.key
            &&& item_receiver.owner == auction.bidder
            &&& ts[0].amount == item_holder.amount
            &&& (ts.len() == 2) == (currency_holder.amount >= auction.price)
            &&& ts.len() == 1 || ts.len() == 2
            &&& ts.len() == 2 ==> ts[1].from == auction.currency_holder && ts[1].to == seller_ata.key
                && seller_ata.owner == auction.seller && seller == auction.seller
        }),
        !after_close(auction).ongoing,
        after_close(auction) == (LoadedAuction { ongoing: false, ..auction }),
{
}

// ---------------------------------------------------------------------------
// Runs of several requests
// ---------------------------------------------------------------------------

/// One request made to an existing auction: a bid or a close, with what the
/// handler is given. (A second creation on the same account cannot happen:
/// the program creates the auction account with Anchor's `init`, which fails
/// on an account that exists.)
pub enum Step {
    Bid {
        price: u64,
        bidder: TokenAccount,
        authority: Pubkey,
        currency_holder: TokenAccount,
        refund_receiver: TokenAccount,
        now: i64,
    },
    Close {
        item_receiver: TokenAccount,
        item_holder: TokenAccount,
        currency_holder: TokenAccount,
        seller: Pubkey,
        seller_ata: TokenAccount,
        now: i64,
    },
}

/// Why the handler of `step` refuses it on `auction`, if it does.
pub open spec fn step_refusal(auction: LoadedAuction, step: Step) -> Option<AuctionError> {
    match step {
        Step::Bid { price, bidder, authority, currency_holder, refund_receiver, now } => bid_refusal(
            auction,
            price,
            currency_holder,
            refund_receiver,
            now,
        ),
        Step::Close { item_receiver, item_holder, currency_holder, seller, seller_ata, now } => close_refusal(
            auction,
            item_receiver,
            item_holder,
            currency_holder,
            seller,
            seller_ata,
            now,
        ),
    }
}

/// The auction after the handler of `step` accepts it.
pub open spec fn step_after(auction: LoadedAuction, step: Step) -> LoadedAuction {
    match step {
        Step::Bid { price, bidder, .. } => after_bid(auction, price, bidder),
        Step::Close { .. } => after_close(auction),
    }
}

/// The auction after the requests of `steps`, made in turn.
pub open spec fn run_after(auction: LoadedAuction, steps: Seq<Step>) -> LoadedAuction
    decreases steps.len(),
{
    if steps.len() == 0 {
        auction
    } else {
        step_after(run_after(auction, steps.drop_last()), steps.last())
    }
}

/// Each request of `steps`, made in turn, is accepted. (A refused request
/// changes nothing, so the refused requests of a history can be left out of
/// it.)
pub open spec fn run_accepted(auction: LoadedAuction, steps: Seq<Step>) -> bool
    decreases steps.len(),
{
    if steps.len() == 0 {
        true
    } else {
        run_accepted(auction, steps.drop_last()) && step_refusal(
            run_after(auction, steps.drop_last()),
            steps.last(),
        ) is None
    }
}

/// The auction just before the request at position `k` of `steps`.
pub open spec fn state_before(auction: LoadedAuction, steps: Seq<Step>, k: int) -> LoadedAuction {
    run_after(auction, steps.take(k))
}

/// `later` has the terms of `earlier`: the same account, seller, holders,
/// currency and schedule.
pub open spec fn same_terms(earlier: LoadedAuction, later: LoadedAuction) -> bool {
    &&& later.account == earlier.account
    &&& later.seller == earlier.seller
    &&& later.item_holder == earlier.item_holder
    &&& later.currency_holder == earlier.currency_holder
    &&& later.currency == earlier.currency
    &&& later.timed == earlier.timed
    &&& later.go_live == earlier.go_live
    &&& later.end == earlier.end
}

/// Bids and closes, accepted or not, never change the terms of an auction.
pub proof fn lemma_run_keeps_terms(auction: LoadedAuction, steps: Seq<Step>)
    ensures
        same_terms(auction, run_after(auction, steps)),
    decreases steps.len(),
{
    if steps.len() > 0 {
        lemma_run_keeps_terms(auction, steps.drop_last());
    }
}

/// A run whose requests are all accepted is accepted up to each of its
/// positions, and the request at each position is accepted on the auction as
/// the earlier requests left it.
pub proof fn lemma_run_prefix(auction: LoadedAuction, steps: Seq<Step>, k: int)
    requires
        run_accepted(auction, steps),
        0 <= k < steps.len(),
    ensures
        run_accepted(auction, steps.take(k + 1)),
        step_refusal(state_before(auction, steps, k), steps[k]) is None,
        state_before(auction, steps, k + 1) == step_after(state_before(auction, steps, k), steps[k]),
    decreases steps.len(),
{
    assert(steps.take(k + 1).drop_last() =~= steps.take(k));
    assert(steps.take(k + 1).last() == steps[k]);
    if k + 1 == steps.len() {
        assert(steps.take(k + 1) =~= steps);
    } else {
        let shorter = steps.drop_last();
        lemma_run_prefix(auction, shorter, k);
        assert(shorter.take(k + 1) =~= steps.take(k + 1));
        assert(shorter.take(k) =~= steps.take(k));
    }
}

/// Along an accepted run the price never falls.
pub proof fn lemma_run_price_never_falls(auction: LoadedAuction, steps: Seq<Step>, k1: int, k2: int)
    requires
        run_accepted(auction, steps),
        0 <= k1 <= k2 <= steps.len(),
    ensures
        state_before(auction, steps, k1).price <= state_before(auction, steps, k2).price,
    decreases k2 - k1,
{
    if k1 < k2 {
        lemma_run_prefix(auction, steps, k2 - 1);
        lemma_run_price_never_falls(auction, steps, k1, k2 - 1);
    }
}

/// An auction that a creation set up, then any run of accepted bids and
/// closes, then an accepted close: the auction is over, and its seller,
/// holders, currency and schedule are those of the creation.
pub proof fn lemma_created_bid_then_closed(
    auction: LoadedAuction,
    start_price: u64,
    seller: Pubkey,
    currency_holder: Pubkey,
    item_holder: Pubkey,
    currency: Pubkey,
    timed: bool,
    go_live: i64,
    end: i64,
    steps: Seq<Step>,
    close: Step,
)
    requires
        create_refusal(timed, go_live, end) is None,
        close is Close,
        run_accepted(
            created(auction, start_price, seller, currency_holder, item_holder, currency, timed, go_live, end),
            steps.push(close),
        ),
    ensures
        ({
            let last = run_after(
                created(auction, start_price, seller, currency_holder, item_holder, currency, timed, go_live, end),
                steps.push(close),
            );
            &&& !last.ongoing
            &&& last.account == auction.account
            &&& last.seller == seller
            &&& last.item_holder == item_holder
            &&& last.currency_holder == currency_holder
            &&& last.currency == currency
            &&& last.timed == timed
            &&& last.go_live == (if timed { go_live } else { auction.go_live })
            &&& last.end == (if timed { end } else { auction.end })
        }),
{
    let start = created(auction, start_price, seller, currency_holder, item_holder, currency, timed, go_live, end);
    assert(steps.push(close).drop_last() =~= steps);
    lemma_run_keeps_terms(start, steps.push(close));
}

/// Any two bids accepted on one auction, with any accepted bids and closes
/// between them: the later bid is strictly higher.
pub proof fn lemma_later_bids_are_higher(auction: LoadedAuction, steps: Seq<Step>, i: int, j: int)
    requires
        run_accepted(auction, steps),
        0 <= i < j < steps.len(),
        steps[i] is Bid,
        steps[j] is Bid,
    ensures
        steps[j]->Bid_price > steps[i]->Bid_price,
        steps[i]->Bid_price > auction.price,
{
    lemma_run_prefix(auction, steps, i);
    lemma_run_prefix(auction, steps, j);
    lemma_run_price_never_falls(auction, steps, i + 1, j);
    lemma_run_price_never_falls(auction, steps, 0, i);
    assert(steps.take(0) =~= Seq::<Step>::empty());
}

/// Between two positions with only closes between them, the party to refund
/// stays the same.
pub proof fn lemma_closes_keep_refund_receiver(auction: LoadedAuction, steps: Seq<Step>, k1: int, k2: int)
    requires
        run_accepted(auction, steps),
        0 <= k1 <= k2 <= steps.len(),
        forall|k: int| k1 <= k < k2 ==> #[trigger] steps[k] is Close,
    ensures
        state_before(auction, steps, k2).refund_receiver == state_before(auction, steps, k1).refund_receiver,
    decreases k2 - k1,
{
    if k1 < k2 {
        lemma_run_prefix(auction, steps, k2 - 1);
        lemma_closes_keep_refund_receiver(auction, steps, k1, k2 - 1);
        assert(steps[k2 - 1] is Close);
    }
}

/// Two bids accepted on one auction with no bid between them (closes may
/// come between): the later one names as refund receiver the account whose
/// address is the owner of the earlier bidding account.
pub proof fn lemma_next_bid_refunds_previous_bidder(auction: LoadedAuction, steps: Seq<Step>, i: int, j: int)
    requires
        run_accepted(auction, steps),
        0 <= i < j < steps.len(),
        steps[i] is Bid,
        steps[j] is Bid,
        forall|k: int| i < k < j ==> #[trigger] steps[k] is Close,
    ensures
        steps[j]->Bid_refund_receiver.key == steps[i]->Bid_bidder.owner,
{
    lemma_run_prefix(auction, steps, i);
    lemma_run_prefix(auction, steps, j);
    lemma_closes_keep_refund_receiver(auction, steps, i + 1, j);
}

// ---------------------------------------------------------------------------
// What each operation does, field by field
// ---------------------------------------------------------------------------

/// Loading copies every field of the record into the field of the same name
/// of the working copy, and records the account it was loaded from; storing
/// copies every field of the working copy into the field of the same name of
/// the record.
pub proof fn lemma_load_and_store_copy_each_field(record: Auction, account: Pubkey, loaded: LoadedAuction)
    ensures
        ({
            let l = loaded_from(record, account);
            &&& l.account == account
            &&& l.ongoing == record.ongoing
            &&& l.seller == record.seller
            &&& l.item_holder == record.item_holder
            &&& l.currency_holder == record.currency_holder
            &&& l.currency == record.currency
            &&& l.refund_receiver == record.refund_receiver
            &&& l.bidder == record.bidder
            &&& l.price == record.price
            &&& l.timed == record.timed
            &&& l.go_live == record.go_live
            &&& l.end == record.end
        }),
        ({
            let r = stored_record(loaded);
            &&& r.ongoing == loaded.ongoing
            &&& r.seller == loaded.seller
            &&& r.item_holder == loaded.item_holder
            &&& r.currency_holder == loaded.currency_holder
            &&& r.currency == loaded.currency
            &&& r.refund_receiver == loaded.refund_receiver
            &&& r.bidder == loaded.bidder
            &&& r.price == loaded.price
            &&& r.timed == loaded.timed
            &&& r.go_live == loaded.go_live
            &&& r.end == loaded.end
        }),
{
}

/// An accepted creation makes the auction ongoing at exactly the start price,
/// with the seller as standing bidder, refunds going to the currency holder,
/// the given seller, holders and currency, and the given schedule when timed
/// (the earlier one otherwise); it keeps the account.
pub proof fn lemma_creation_sets_terms(
    auction: LoadedAuction,
    start_price: u64,
    seller: Pubkey,
    currency_holder: Pubkey,
    item_holder: Pubkey,
    currency: Pubkey,
    timed: bool,
    go_live: i64,
    end: i64,
)
    ensures
        ({
            let c = created(auction, start_price, seller, currency_holder, item_holder, currency, timed, go_live, end);
            &&& c.ongoing
            &&& c.price == start_price
            &&& c.bidder == seller
            &&& c.seller == seller
            &&& c.refund_receiver == currency_holder
            &&& c.currency_holder == currency_holder
            &&& c.item_holder == item_holder
            &&& c.currency == currency
            &&& c.timed == timed
            &&& c.account == auction.account
            &&& c.go_live == (if timed { go_live } else { auction.go_live })
            &&& c.end == (if timed { end } else { auction.end })
        }),
        create_refusal(timed, go_live, end) is None <==> (!timed || go_live < end),
{
}

/// The refund made by an accepted bid moves, out of the currency holder and
/// approved by the auction account without signer seed, exactly as many
/// tokens as the refund receiver's account holds; the payment moves exactly
/// the bid, approved by the given authority without signer seed.
pub proof fn lemma_bid_amounts(
    auction: LoadedAuction,
    price: u64,
    bidder: TokenAccount,
    authority: Pubkey,
    currency_holder: TokenAccount,
    refund_receiver: TokenAccount,
    now: i64,
)
    requires
        bid_refusal(auction, price, currency_holder, refund_receiver, now) is None,
    ensures
        ({
            let ts = bid_refund(auction, currency_holder, refund_receiver).push(
                bid_payment(price, bidder, authority, currency_holder),
            );
            &&& auction.refund_receiver != auction.currency_holder ==> {
                &&& ts.len() == 2
                &&& ts[0].amount == refund_receiver.amount
                &&& ts[0].from == currency_holder.key
                &&& ts[0].to == refund_receiver.key
                &&& ts[0].authority == auction.account
                &&& ts[0].signer_seed is None
            }
            &&& auction.refund_receiver == auction.currency_holder ==> ts.len() == 1
            &&& ts.last().amount == price
            &&& ts.last().from == bidder.key
            &&& ts.last().to == currency_holder.key
            &&& ts.last().authority == authority
            &&& ts.last().signer_seed is None
        }),
{
}

/// An accepted close moves everything the item holder holds to the item
/// receiver, and, when the currency holder holds at least the price,
/// everything the currency holder holds to the seller's account, both
/// approved by the auction account without signer seed.
pub proof fn lemma_close_amounts(
    auction: LoadedAuction,
    item_receiver: TokenAccount,
    item_holder: TokenAccount,
    currency_holder: TokenAccount,
    seller: Pubkey,
    seller_ata: TokenAccount,
    now: i64,
)
    requires
        close_refusal(auction, item_receiver, item_holder, currency_holder, seller, seller_ata, now) is None,
    ensures
        ({
            let ts = close_transfers(auction, item_receiver, item_holder, currency_holder, seller_ata);
            &&& ts[0].amount == item_holder.amount
            &&& ts[0].from == item_holder.key
            &&& ts[0].to == item_receiver.key
            &&& ts[0].authority == auction.account
            &&& ts[0].signer_seed is None
            &&& currency_holder.amount >= auction.price ==> {
                &&& ts.len() == 2
                &&& ts[1].amount == currency_holder.amount
                &&& ts[1].from == currency_holder.key
                &&& ts[1].to == seller_ata.key
                &&& ts[1].authority == auction.account
                &&& ts[1].signer_seed is None
            }
            &&& currency_holder.amount < auction.price ==> ts.len() == 1
        }),
{
}

/// The deposit moves everything the seller's item account holds into the
/// item holder, approved by the payer and signed with the payer's key; what
/// the item holder already holds plays no part.
pub proof fn lemma_deposit_moves_whole_balance(
    seller_item_ata: TokenAccount,
    payer: Pubkey,
    item_holder: TokenAccount,
    other_item_holder: TokenAccount,
)
    requires
        other_item_holder.key == item_holder.key,
    ensures
        deposit_transfer(seller_item_ata, payer, item_holder).amount == seller_item_ata.amount,
        deposit_transfer(seller_item_ata, payer, item_holder).from == seller_item_ata.key,
        deposit_transfer(seller_item_ata, payer, item_holder).to == item_holder.key,
        deposit_transfer(seller_item_ata, payer, item_holder).authority == payer,
        deposit_transfer(seller_item_ata, payer, item_holder).signer_seed == Some(payer),
        deposit_transfer(seller_item_ata, payer, other_item_holder) == deposit_transfer(
            seller_item_ata,
            payer,
            item_holder,
        ),
{
}

} // verus!
