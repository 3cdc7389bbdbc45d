# seahorse_auction

A single-item token auction, with its rules verified by Verus.

- `src/` is the verified library. `dot::program` holds the auction record and
  the four handlers (create, bid, close, deposit); each one checks the
  accounts it is given, updates the record and returns the token transfers
  that carry out its decision. `laws` states and proves what holds across
  them (prices only rise, timed bids come before the close, the item goes
  to the standing bidder, refunds go to the outbid party, ...).
- `app/` is the Anchor program around it: account validation, loading and
  storing the record, and performing the returned transfers through the
  token program.
- `tests/` runs the handlers on concrete accounts.
