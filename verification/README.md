# unitrade

A trading-system toolkit in Verus.

- `src/` is the verified library:
  - `common/decimal.rs`: exact decimals (96-bit mantissa, scale up to 28) and their value order, compared through `rust_decimal`.
  - `common/account_model.rs`: asset and sub-account identities, trading pairs, venues, candlestick intervals (display and parsing), orders, positions and balances.
  - `common/actor_trait.rs`: the channel pair by which actors are reached.
  - `dataform/`: the market-data canvases: order books (ascending sides, one level per price, redrawn from snapshots), candlestick series and bounded trade flows.
  - `exchange/`: errors, the domain languages, the state machines of the connector (circuit break) and of the feed (subscription, suspension, push frequency), the gateway's routing, and the lifecycle order of the exchange triad.
- `app/` holds the asynchronous runtime on tokio: the actor traits, the standard connector, feed and gateway, the exchange facade's wiring, and copies of library types with serde and `std::error::Error` derives.
- `tests/` exercises the library on concrete values.
