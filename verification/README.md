# maat_circuits

Compliance-check primitives for financial instruments, each with a Verus
contract. Inputs carry hashes of private data; outputs are public.

- `range`: a value lies within inclusive public bounds;
- `membership`: an entity's hash is in an approved set;
- `nonmembership`: an entity's hash is absent from a watchlist;
- `consistency`: two datasets have the same SHA-256 hash;
- `uniqueness`: the invoice and registry data of the uniqueness check.

`digest` holds SHA-256 (through the `sha2` crate) and the snapshot hash of a
list of digests; `hexfmt` renders digests in lowercase hex (through `hex`).

`app/` is a command-line program that builds each check's input, runs the
check and prints the verdicts; `tests/` exercises the library on the same
scenarios.
