# xtransfer

Verified rules for cross-chain asset transfers over XCM and over a chain
bridge, written in Verus.

- `src/types.rs`: locations, junctions and assets as plain values (XCM v3
  shapes), with equality.
- `src/xcm_helper.rs`: which assets are native, where an asset comes from,
  asset matching, and the transfer adapter.
- `src/xcm_adapter.rs`: the transfer pallet's adapter, which takes the bridge
  fee into the treasury and reports deposits and withdrawals.
- `src/transact.rs`: the requests the adapters make and the replies they take.
  Each adapter is a state machine; the caller carries out each request.
- `src/bridge.rs`, `src/pallet.rs`: the shape of bridge destinations and how a
  transfer is routed.
- `src/migrations.rs`: the HRMP channel message sent by the upgrade check.
- `src/runs.rs`: what a whole deposit or withdrawal does, proved equal to
  driving the state machines, and the laws that follow.
- `app/lib.rs`: conversions to and from `staging-xcm`, the encodable `XAsset`,
  the loops that carry out the adapters' requests, and the XCM executor's
  traits (`TransactAsset`, `MatchesFungible(s)`, `FilterAssetLocation`)
  implemented on top of the library for a runtime that provides the bridge,
  the registry and the handlers.
