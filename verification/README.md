# bandot

A verified library for the Bandot stable-coin runtime modules. Each module's
storage is held as plain values, and every dispatchable call is a method
whose contract states the next state, the error and the events.

- `src/ledger.rs`: the balance ledger shared by the token modules, with the
  supply laws (mint, burn and transfer between distinct accounts keep the
  circulation equal to the sum of balances plus what it held beyond them;
  over any sequence of calls the circulation moves only by successful mints
  and burns).
- `src/node/`: the BDT token (`bdt`), the token traits (`traits`), the
  collateral positions (`cdp`) and the staking pool (`pool`).
- `src/runtime/`: the earlier token module with its pool (`token`) and the
  earlier collateral positions, the cups (`cdp`).
- `src/storage.rs`, `src/sum.rs`, `src/origin.rs`, `src/error.rs`: storage
  maps with default values, sums over finite maps, call origins, and the
  dispatch errors.
- `app/`: the collateral-ratio rules, which are computed in floating point,
  and SCALE-encodable copies of the stored records.
