# age_inbox

An encrypted drop-off inbox: vaults whose X25519 age keypair is derived from a password and
the vault name, uploads encrypted to the vault's public key, and time-limited unlock sessions
for reading them back.

## Layout

- `src/` — the verified library (Verus).
  - `validation`, `paths`, `drop_name`: names, subpaths, payload and sidecar file names.
  - `crypto`: key derivation (Argon2id → Bech32 secret key → age identity).
  - `config`: the `.inbox-age.config` format, written and read back.
  - `sessions`, `vault`: unlock sessions, vault creation, and the laws tying them together.
  - `http_range`, `decimal`: single `Range` values and decimal text.
  - `metadata`: what is recorded for each upload.
  - `api`: the decisions of each HTTP endpoint (refusals, answers, upload form, listings,
    downloads, CORS settings).
- `app/` — the HTTP server: routing, files on disk, age streams and JSON (not verified).
- `tests/` — tests of the library.
