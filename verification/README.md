# moto_pos

The rules of a motorcycle-parts point of sale, verified with Verus: the
desktop till, its LAN server for phones, and the remote server both
synchronise with.

`src/` is the verified library. Each module states its functions over
mathematical models (`Seq`, `Map`, `int`) and Verus proves the code against
them:

- `texto`, `numero`: string and number helpers (trimming, escaping,
  zero-padded formatting and parsing) with their specifications.
- `lww`, `sincronizacion`, `intercambio`: last-write-wins conflict
  resolution, the tables that synchronise and the SQL that applies a change,
  and the bookkeeping of push and pull (which changes are refused, how a pull
  page is chosen and where its cursor moves, how the outbox is settled).
- `emparejamiento`, `autenticacion`, `movil`, `remoto`: one-use pairing
  tokens, PIN and password login, the phone API's decisions and the remote
  server's routing and login rules.
- `caja`, `ventas`, `catalogo`, `mantenimiento`: cash-drawer modes and
  checks, sale folios and validations, the catalogue importer, and backup
  rotation and migrations.
- `escpos`, `impresoras`: thermal-ticket bytes and printer listing parsers.
- `externos`: the calls into bcrypt, qrcode, base64, rand, chrono and uuid, each
  with the contract the library relies on.

Public proof functions named `ley_*` state properties that span several
calls (for instance, that a pairing token can be redeemed once, or that two
replicas applying the same changes in any order agree).

`tests/` runs the library on concrete values. `app/` is the command-line
program around it: SQLite, HTTP, printers and files, handing plain values to
the library.
