# ladefuchs

The verified core of the Ladefuchs charging-price backend: which prices,
tariffs, locations and connectors of the Eco-Movement feed are taken over,
how provider, operator and tariff names are normalised, how banners, image
files and their names are handled, the decisions of an import run, the token
check of the API, and the daily feedback summary. Each function states its
behaviour in `requires`/`ensures` and is proved with Verus.

- `src/` — the library. Outside crates (`regex`, `url`, `base64`,
  `percent-encoding`, `blake3`, `mime`, `uuid`) are called through small
  wrappers whose contracts name or state what those crates compute.
- `tests/` — tests on concrete values.
- `app/` — the I/O around the library: the wire format of the feed with its
  float prices, file reading and type guessing, clocks.
