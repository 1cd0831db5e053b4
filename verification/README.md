# Time-lock vault

A vault that locks tokens until a time of the depositor's choice, with a verified core.

- `src/` is the library, verified with Verus. `contract.rs` holds the entry points; they work on
  plain values and return, as a list, what the ledger has to do. `model.rs` says what each entry
  point decides and does, and `laws/` what holds of the vault as a whole: that it stays solvent,
  that locks hold, that no deposit is paid out twice, who may do what.
- `app/` is the Soroban contract around it: it loads records, calls the library and performs what
  the library asks for.
- `tests/` runs the library on concrete values.
