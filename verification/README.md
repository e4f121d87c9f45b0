# quicklendx-contracts

The core of the QuickLendX invoice-financing protocol as a verified library:
businesses upload invoices, investors bid on verified invoices, an accepted
bid moves the investor's funds into escrow, the business repays in partial or
full payments, and final settlement splits the proceeds between the investor
and the platform. Disputes, KYC records, an emergency pause and paginated
queries complete it.

The protocol state is `contract::QuickLendXContract`, a plain value whose
invariant `wf` every operation keeps. Accounts, invoices, bids and escrows are
`u64` handles; token movements are returned as `types::Transfer` values for
the host to perform, and the ledger time is passed in as `now`.

- `src/` – the library, verified with Verus: `settlement`, `escrow`, `bids`,
  `invoices`, `lifecycle`, `dispute`, `kyc`, `api` (pause-gated entry points),
  `queries`, `pagination`, `profits`, `ascii`, and `laws` (properties that
  span several operations).
- `tests/` – tests of the library on concrete values.
- `app/` – the Soroban host adapter: identities and keys, ledger time, token
  transfers, and host-facing copies of records and errors.
