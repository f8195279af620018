# password_vault

A password vault whose core is written in Verus and proved against its
contracts.

- `src/crypto.rs`: Argon2 key derivation and AES-256-GCM sealing, called
  through small trusted wrappers whose contracts name the primitives'
  results.
- `src/vault.rs`: entries, the sealed vault file, the master password rules,
  sealing and opening a vault, the entry operations of an open session and
  wiping its secrets; laws relating these operations.
- `src/password_gen.rs`: random passwords over chosen character classes.
- `src/state.rs`: the application state and the decisions of its screens
  (locking, searching, validating forms, error messages).
- `src/text.rs`: Unicode classification and case mapping (named results of
  std), substring search over characters.
- `app/`: the GTK program, file storage and the JSON form of the vault.
- `tests/`: tests of the library.
