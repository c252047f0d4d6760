# signalui

A desktop Signal client (Tauri) with a headless companion, `signalui-cli`.
The rules of the client are a library verified with Verus; the program
around it does the I/O.

- `src/` — the verified library:
  - `messaging/` — the wire values, what an incoming envelope becomes
    (messages with their attachments, quotes, link previews, styled and
    mentioning spans, polls and group-call notices; receipts, typing,
    reactions, poll votes, edits, deletions), the messages
    this device sends, conversation listing, search and file naming;
  - `calling/` — call signaling messages and the call state machine;
  - `provisioning/` — the device-linking states, errors, QR code and the
    rules of one linking attempt;
  - `store/` — where the database passphrase comes from (keychains, legacy
    key files), with an in-memory keychain;
  - `account.rs`, `settings.rs`, `cli.rs`, `pair_flow.rs`, `backups.rs`,
    and the text and codec helpers.
- `tests/` — the library's tests.
- `app/` — the desktop app and the command-line tool: presage, RingRTC,
  Tauri, the macOS keychain, the file system.
