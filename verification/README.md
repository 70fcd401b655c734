# lib: automotive diagnostic sites, verified

A Verus library for a modeled, hardware-free automotive workshop: UDS and
OBD-II byte frames, DTC status bits, vehicle identities and site manifests,
brand selection, diagnostic, repair-information, parts and vehicle-identity
sites, flash backup and restore, and ledgered work orders with balanced
invoices. Every function states its behaviour in `requires` / `ensures` over
spec models (`Seq`, `Map`, views of each type) and is proved by Verus.

Layout:

- `src/` — the verified library. Codec: `frame`, `status`, `uds_expr`,
  `numtext`. Domain and runtime shapes: `domain`, `kernel`, `expr`, `text`,
  `session`, `controls`, `request`, `read_construct`, `citizen`,
  `citizen_order`, `libs`. Sites: `select`, `diag`, `info`, `info_request`,
  `repair`, `parts`, `parts_request`, `parts_site`, `catalog`, `vehicle`,
  `vehicle_request`, `vehicle_site`, `order`, `flash`, `cli`.
- Laws are public proof functions named `lemma_*` next to the functions they
  relate: codec round trips, status-byte round trips, citizen read-construct
  round trips, request builders parsing back, unique best selection and
  ranking, flash-then-restore giving the stock bytes back, and invoices that
  balance.
- `tests/` — ordinary Rust tests run against the compiled library.
- `app/` — the `auto` command-line front end: argument handling and printing.
