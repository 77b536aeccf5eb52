# ferre_pos

The back office of a point of sale for hardware stores: branches, users and
roles, products and inventory, sales, cash registers, transfers, electronic
invoices (CFDI 4.0), imports, and synchronisation with a cloud copy.

## Layout

- `src/` — the library, written in Verus. Every function there carries a
  contract. All are proved against their contracts except the few that call
  outside code, which are trusted: the eight `external_body` wrappers around
  bcrypt, the `csv` reader, `str::to_uppercase`/`to_lowercase` and the system
  clock, the declared `bcrypt::BcryptError` type, and the
  assumed specification of `String::push`. Their contracts state only what
  the outside source or documentation shows.
  - `text`, `normalize`, `validate`, `error`: text handling, normalisation of
    what users type, record validation and the messages users see.
  - `auth`, `operaciones`, `cuentas`, `catalogos`: roles and permissions, and
    each decision that sales, cash registers, transfers, cancellations,
    accounts and catalogue maintenance take between their reads and writes.
  - `consultas`: the filters of every listing, so that a branch user only
    ever sees their own branch.
  - `fiscal`, `revision`, `promo`, `detalles`: invoicing rules and the checks
    of operations whose amounts are decimal numbers.
  - `importacion`, `legado`, `csvimport`: what imported rows become.
  - `sync`, `pull`, `respaldo`, `ids`: the rows exchanged with the cloud copy
    and with backups, and which version of a row wins.
  - `ticket`, `alertas`: ticket layout for ESC/POS printers, print jobs, and
    the alerts raised for managers.
  - `password`: password checks with bcrypt, with the upgrade of passwords
    stored in plain text.
- `tests/` — tests on concrete values for the library.
- `app/` — ordinary Rust around the library: JSON records, money arithmetic
  in floating point, SQLite, files, and the glue that carries out what the
  library decides. Each operation (`ventas`, `cajas`, `compras`,
  `traspasos`, `inventario`, `promociones`, `facturas`, `cuentas`,
  `importar`, `intercambio`, `alertas`, `indicadores`) runs in one
  transaction: it reads what the library's checks need, asks them, and
  writes what they allow.
