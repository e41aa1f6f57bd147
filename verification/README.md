# Zsozso wallet

The wallet of the Iceberg Protocol on the Stellar network: key management for the main
and the test network, secure storage of secrets behind a passkey, transaction building
and submission, the ZSOZSO token, and the node's place in the network hierarchy kept in
a graph database (GunDB).

The wallet's logic is a library whose behaviour is stated in contracts and proved with
Verus; the browser program around it performs what the library asks for.

## Layout

- `src/` — the verified library (`zsozso`):
  - `language`, `text` — languages, networks, and the text operations (decimal
    numbers, trimming, prefixes) the wallet relies on;
  - `i18n` — every interface text in English, French, German, Hungarian and Spanish;
  - `state`, `tabs`, `status` — the wallet state and the texts of transaction statuses;
  - `controller` — the user actions and how each answer from outside changes the state;
  - `flows` — saving and loading secrets (with passkey encryption) as step machines;
  - `graph` — the conversations with the graph database (workers, hierarchy, nickname,
    relay, SEA keys and recovery shares);
  - `horizon` — account balances from Horizon;
  - `views`, `browser` — what each screen shows, and the scripts and QR images handed
    to the browser.
- `tests/` — tests of the library on concrete values.
- `app/` — the Dioxus program: screens, and the calls to the passkey, the secret store,
  the ledger, the graph database, the camera and the clipboard.
