use seahorse_auction::dot::program::{
    bid_handler, close_auction_handler, create_auction_handler, deposit_item_handler, Auction,
    LoadedAuction,
};
use seahorse_auction::error::AuctionError;
use seahorse_auction::pubkey::Pubkey;
use seahorse_auction::seahorse_util::wrapped_index;
use seahorse_auction::token::{Clock, TokenAccount, Transfer};

fn key(b: u8) -> Pubkey {
    let mut bytes = [0u8; 32];
    bytes[0] = b;
    bytes[31] = b.wrapping_mul(3);
    Pubkey::new_from_array(bytes)
}

const AUCTION: u8 = 1;
const SELLER: u8 = 2;
const CURRENCY_HOLDER: u8 = 3;
const ITEM_HOLDER: u8 = 4;
const CURRENCY: u8 = 5;

fn zeroed_record() -> Auction {
    let zero = Pubkey::new_from_array([0u8; 32]);
    Auction {
        ongoing: false,
        seller: zero,
        item_holder: zero,
        currency_holder: zero,
        currency: zero,
        refund_receiver: zero,
        bidder: zero,
        price: 0,
        timed: false,
        go_live: 0,
        end: 0,
    }
}

fn fresh(timed: bool, go_live: i64, end: i64) -> LoadedAuction {
    let mut loaded = Auction::load(&zeroed_record(), key(AUCTION));
    create_auction_handler(
        &mut loaded,
        100,
        key(SELLER),
        key(CURRENCY_HOLDER),
        key(ITEM_HOLDER),
        key(CURRENCY),
        timed,
        go_live,
        end,
    )
    .unwrap();
    loaded
}

fn account(k: u8, owner: u8, amount: u64) -> TokenAccount {
    TokenAccount { key: key(k), owner: key(owner), amount }
}

fn at(t: i64) -> Clock {
    Clock { unix_timestamp: t }
}

fn assert_transfer(t: &Transfer, from: u8, to: u8, authority: u8, amount: u64) {
    assert_eq!(t.from, key(from));
    assert_eq!(t.to, key(to));
    assert_eq!(t.authority, key(authority));
    assert_eq!(t.amount, amount);
}

#[test]
fn pubkey_equality_compares_all_bytes() {
    let mut a = [7u8; 32];
    let b = Pubkey::new_from_array(a);
    a[31] = 8;
    let c = Pubkey::new_from_array(a);
    assert!(b == b);
    assert!(b != c);
    assert_eq!(c.to_bytes(), a);
}

#[test]
fn load_then_store_writes_the_same_record() {
    let mut record = zeroed_record();
    record.price = 42;
    record.timed = true;
    record.go_live = -5;
    record.end = 9;
    record.seller = key(9);
    let loaded = Auction::load(&record, key(AUCTION));
    assert_eq!(loaded.account, key(AUCTION));
    let mut target = zeroed_record();
    Auction::store(&loaded, &mut target);
    assert_eq!(target.price, 42);
    assert!(target.timed);
    assert_eq!(target.go_live, -5);
    assert_eq!(target.end, 9);
    assert_eq!(target.seller, key(9));
}

#[test]
fn create_untimed_auction() {
    let a = fresh(false, 500, 1);
    assert!(a.ongoing);
    assert_eq!(a.seller, key(SELLER));
    assert_eq!(a.bidder, key(SELLER));
    assert_eq!(a.price, 100);
    assert_eq!(a.refund_receiver, key(CURRENCY_HOLDER));
    assert_eq!(a.currency_holder, key(CURRENCY_HOLDER));
    assert_eq!(a.item_holder, key(ITEM_HOLDER));
    assert_eq!(a.currency, key(CURRENCY));
    assert!(!a.timed);
    // The schedule of an untimed auction is left as it was.
    assert_eq!(a.go_live, 0);
    assert_eq!(a.end, 0);
}

#[test]
fn create_timed_auction() {
    let a = fresh(true, 10, 20);
    assert!(a.timed);
    assert_eq!(a.go_live, 10);
    assert_eq!(a.end, 20);
}

#[test]
fn create_refuses_start_not_before_end() {
    let mut loaded = Auction::load(&zeroed_record(), key(AUCTION));
    let r = create_auction_handler(
        &mut loaded,
        100,
        key(SELLER),
        key(CURRENCY_HOLDER),
        key(ITEM_HOLDER),
        key(CURRENCY),
        true,
        20,
        20,
    );
    assert_eq!(r, Err(AuctionError::StartTimeExceedsEndTime));
    assert_eq!(r.unwrap_err().message(), "Start time exceeds end time");
    assert!(!loaded.ongoing);
    assert_eq!(loaded.price, 0);
}

#[test]
fn first_bid_pays_without_refund() {
    let mut a = fresh(false, 0, 0);
    let holder = account(CURRENCY_HOLDER, AUCTION, 0);
    let bidder = account(20, 21, 1000);
    let ts = bid_handler(&mut a, 150, &bidder, key(21), &holder, &holder, &at(0)).unwrap();
    assert_eq!(ts.len(), 1);
    assert_transfer(&ts[0], 20, CURRENCY_HOLDER, 21, 150);
    assert_eq!(a.price, 150);
    assert_eq!(a.bidder, key(21));
    assert_eq!(a.refund_receiver, key(21));
    assert!(a.ongoing);
    assert_eq!(a.seller, key(SELLER));
}

#[test]
fn outbid_bidder_is_refunded() {
    let mut a = fresh(false, 0, 0);
    let holder = account(CURRENCY_HOLDER, AUCTION, 150);
    let first = account(20, 21, 1000);
    bid_handler(&mut a, 150, &first, key(21), &holder, &holder, &at(0)).unwrap();
    // The account the refund goes to is the one whose address is the first
    // bidder's wallet.
    let refund_receiver = account(21, 21, 77);
    let second = account(30, 31, 1000);
    let ts = bid_handler(&mut a, 200, &second, key(31), &holder, &refund_receiver, &at(0)).unwrap();
    assert_eq!(ts.len(), 2);
    assert_transfer(&ts[0], CURRENCY_HOLDER, 21, AUCTION, 77);
    assert!(ts[0].signer_seed.is_none());
    assert_transfer(&ts[1], 30, CURRENCY_HOLDER, 31, 200);
    assert_eq!(a.price, 200);
    assert_eq!(a.bidder, key(31));
}

#[test]
fn bid_refusals_in_order() {
    let holder = account(CURRENCY_HOLDER, AUCTION, 0);
    let bidder = account(20, 21, 1000);

    let mut a = fresh(true, 10, 20);
    let r = bid_handler(&mut a, 150, &bidder, key(21), &holder, &holder, &at(9));
    assert_eq!(r.unwrap_err(), AuctionError::AuctionNotStarted);
    let r = bid_handler(&mut a, 150, &bidder, key(21), &holder, &holder, &at(20));
    assert_eq!(r.unwrap_err(), AuctionError::AuctionEnded);
    let r = bid_handler(&mut a, 100, &bidder, key(21), &holder, &holder, &at(10));
    assert_eq!(r.unwrap_err(), AuctionError::BidPriceTooLow);
    let wrong_holder = account(99, AUCTION, 0);
    let r = bid_handler(&mut a, 101, &bidder, key(21), &wrong_holder, &holder, &at(10));
    assert_eq!(r.unwrap_err(), AuctionError::UnauthorizedCurrencyHolder);
    let wrong_receiver = account(98, AUCTION, 0);
    let r = bid_handler(&mut a, 101, &bidder, key(21), &holder, &wrong_receiver, &at(19));
    assert_eq!(r.unwrap_err(), AuctionError::InvalidRefundReceiver);
    // Nothing changed.
    assert_eq!(a.price, 100);
    assert_eq!(a.bidder, key(SELLER));
    // The first failing check decides: too early and too low.
    let r = bid_handler(&mut a, 1, &bidder, key(21), &holder, &holder, &at(0));
    assert_eq!(r.unwrap_err(), AuctionError::AuctionNotStarted);
    // Inside the window the bid goes through.
    assert!(bid_handler(&mut a, 101, &bidder, key(21), &holder, &holder, &at(10)).is_ok());
}

#[test]
fn close_transfers_item_and_proceeds() {
    let mut a = fresh(false, 0, 0);
    let holder = account(CURRENCY_HOLDER, AUCTION, 0);
    let bidder = account(20, 21, 1000);
    bid_handler(&mut a, 150, &bidder, key(21), &holder, &holder, &at(0)).unwrap();

    let item_receiver = account(40, 21, 0);
    let item_holder = account(ITEM_HOLDER, AUCTION, 1);
    let paid_holder = account(CURRENCY_HOLDER, AUCTION, 150);
    let seller_ata = account(50, SELLER, 3);
    let ts = close_auction_handler(
        &mut a,
        &item_receiver,
        &item_holder,
        &paid_holder,
        key(SELLER),
        &seller_ata,
        &at(0),
    )
    .unwrap();
    assert_eq!(ts.len(), 2);
    assert_transfer(&ts[0], ITEM_HOLDER, 40, AUCTION, 1);
    assert_transfer(&ts[1], CURRENCY_HOLDER, 50, AUCTION, 150);
    assert!(!a.ongoing);
    assert_eq!(a.price, 150);
}

#[test]
fn close_without_enough_currency_only_moves_item() {
    let mut a = fresh(false, 0, 0);
    let item_receiver = account(40, SELLER, 0);
    let item_holder = account(ITEM_HOLDER, AUCTION, 1);
    let holder = account(CURRENCY_HOLDER, AUCTION, 99);
    let seller_ata = account(50, SELLER, 0);
    let ts = close_auction_handler(&mut a, &item_receiver, &item_holder, &holder, key(SELLER), &seller_ata, &at(0))
        .unwrap();
    assert_eq!(ts.len(), 1);
    assert_transfer(&ts[0], ITEM_HOLDER, 40, AUCTION, 1);
    assert!(!a.ongoing);
}

#[test]
fn close_refusals_in_order() {
    let mut a = fresh(true, 10, 20);
    let item_receiver = account(40, SELLER, 0);
    let item_holder = account(ITEM_HOLDER, AUCTION, 1);
    let holder = account(CURRENCY_HOLDER, AUCTION, 0);
    let seller_ata = account(50, SELLER, 0);
    let s = key(SELLER);

    let r = close_auction_handler(&mut a, &item_receiver, &item_holder, &holder, s, &seller_ata, &at(19));
    assert_eq!(r.unwrap_err(), AuctionError::AuctionNotEnded);
    let wrong = account(99, AUCTION, 1);
    let r = close_auction_handler(&mut a, &item_receiver, &wrong, &holder, s, &seller_ata, &at(20));
    assert_eq!(r.unwrap_err(), AuctionError::UnauthorizedItemHolder);
    let r = close_auction_handler(&mut a, &item_receiver, &item_holder, &wrong, s, &seller_ata, &at(20));
    assert_eq!(r.unwrap_err(), AuctionError::UnauthorizedItemHolder);
    let stranger = account(40, 77, 0);
    let r = close_auction_handler(&mut a, &stranger, &item_holder, &holder, s, &seller_ata, &at(20));
    assert_eq!(r.unwrap_err(), AuctionError::ReceiverNotBidWinner);
    let r = close_auction_handler(&mut a, &item_receiver, &item_holder, &holder, key(77), &seller_ata, &at(20));
    assert_eq!(r.unwrap_err(), AuctionError::UnauthorizedSeller);
    let foreign_ata = account(50, 77, 0);
    let r = close_auction_handler(&mut a, &item_receiver, &item_holder, &holder, s, &foreign_ata, &at(20));
    assert_eq!(r.unwrap_err(), AuctionError::UnauthorizedSeller);
    assert!(a.ongoing);
    assert!(close_auction_handler(&mut a, &item_receiver, &item_holder, &holder, s, &seller_ata, &at(20)).is_ok());
    assert!(!a.ongoing);
}

#[test]
fn timed_bid_and_close_windows_do_not_meet() {
    let holder = account(CURRENCY_HOLDER, AUCTION, 0);
    let bidder = account(20, SELLER, 1000);
    let item_receiver = account(40, SELLER, 0);
    let item_holder = account(ITEM_HOLDER, AUCTION, 1);
    let seller_ata = account(50, SELLER, 0);
    for t in 0..30 {
        let mut a = fresh(true, 10, 20);
        let bid_ok = bid_handler(&mut a, 101, &bidder, key(SELLER), &holder, &holder, &at(t)).is_ok();
        let mut b = fresh(true, 10, 20);
        let close_ok =
            close_auction_handler(&mut b, &item_receiver, &item_holder, &holder, key(SELLER), &seller_ata, &at(t))
                .is_ok();
        assert_eq!(bid_ok, (10..20).contains(&t));
        assert_eq!(close_ok, t >= 20);
        assert!(!(bid_ok && close_ok));
    }
}

#[test]
fn deposit_moves_whole_balance_with_payer_seed() {
    let seller_item_ata = account(60, SELLER, 5);
    let item_holder = account(ITEM_HOLDER, AUCTION, 0);
    let t = deposit_item_handler(&seller_item_ata, key(SELLER), &item_holder);
    assert_transfer(&t, 60, ITEM_HOLDER, SELLER, 5);
    assert_eq!(t.signer_seed, Some(key(SELLER)));
}

#[test]
fn error_messages() {
    assert_eq!(AuctionError::AuctionNotStarted.message(), "Auction hasn't started");
    assert_eq!(AuctionError::AuctionEnded.message(), "Auction has ended");
    assert_eq!(AuctionError::BidPriceTooLow.message(), "Bid Price Too Low");
    assert_eq!(AuctionError::UnauthorizedCurrencyHolder.message(), "Unauthorized Currency Holder");
    assert_eq!(AuctionError::InvalidRefundReceiver.message(), "Invalid Refund Receiver");
    assert_eq!(AuctionError::AuctionNotEnded.message(), "Auction hasn't ended yet");
    assert_eq!(AuctionError::UnauthorizedItemHolder.message(), "Unauthorized Item Holder");
    assert_eq!(AuctionError::ReceiverNotBidWinner.message(), "Receiver not Bid Winner");
    assert_eq!(
        AuctionError::UnauthorizedSeller.message(),
        "Signer not seller or unauthorized seller ata"
    );
}

#[test]
fn wrapped_index_counts_back_from_the_end() {
    assert_eq!(wrapped_index(5, 0), 0);
    assert_eq!(wrapped_index(5, 3), 3);
    assert_eq!(wrapped_index(5, 7), 7);
    assert_eq!(wrapped_index(5, -1), 4);
    assert_eq!(wrapped_index(5, -5), 0);
    assert_eq!(wrapped_index(0, 0), 0);
}

#[test]
fn history_of_bids_and_closes() {
    let mut a = fresh(false, 0, 0);
    let holder = account(CURRENCY_HOLDER, AUCTION, 0);
    let item_holder = account(ITEM_HOLDER, AUCTION, 1);
    let seller_ata = account(50, SELLER, 0);

    let first = account(20, 21, 1000);
    bid_handler(&mut a, 150, &first, key(21), &holder, &holder, &at(0)).unwrap();
    // The first bidder wins a close.
    let winner_item = account(40, 21, 0);
    close_auction_handler(&mut a, &winner_item, &item_holder, &holder, key(SELLER), &seller_ata, &at(0)).unwrap();
    assert!(!a.ongoing);

    // A bid after a close is still taken; it must be higher and its refund
    // goes to the account keyed by the first bidder's wallet.
    let second = account(30, 31, 1000);
    let refund_receiver = account(21, 21, 5);
    let r = bid_handler(&mut a, 150, &second, key(31), &holder, &refund_receiver, &at(0));
    assert_eq!(r.unwrap_err(), AuctionError::BidPriceTooLow);
    let ts = bid_handler(&mut a, 151, &second, key(31), &holder, &refund_receiver, &at(0)).unwrap();
    assert_transfer(&ts[0], CURRENCY_HOLDER, 21, AUCTION, 5);
    assert_eq!(a.price, 151);

    let winner_item = account(41, 31, 0);
    close_auction_handler(&mut a, &winner_item, &item_holder, &holder, key(SELLER), &seller_ata, &at(0)).unwrap();
    assert!(!a.ongoing);
    // The terms are those of the creation.
    assert_eq!(a.account, key(AUCTION));
    assert_eq!(a.seller, key(SELLER));
    assert_eq!(a.item_holder, key(ITEM_HOLDER));
    assert_eq!(a.currency_holder, key(CURRENCY_HOLDER));
    assert_eq!(a.currency, key(CURRENCY));
    assert!(!a.timed);
}
