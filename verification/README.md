# box_office

The bookkeeping of a small box office, verified with Verus: users, shows
and tickets kept by id, who may create or delete a show (admins only), and
when a ticket is taken in (when its payment went through).

- `src/` the verified library: `state.rs` (the stores and every request on
  them, each with a contract over `StateView`), `payments.rs` (payment
  checks), `user.rs`, `show.rs`, `ticket.rs`, `time.rs` (the records),
  `ids.rs` (the text form of an id), `laws.rs` (properties that span
  requests, as proof functions).
- `tests/` tests of the library on concrete values.
- `app/` the HTTP server (actix-web): JSON forms of the records, the
  endpoints, and the lock around the state.
