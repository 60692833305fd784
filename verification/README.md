# rusty_zechub

A terminal companion for a local Zebra (Zcash) node, reached over JSON-RPC at
`http://127.0.0.1:8232`: it shows a fresh BIP-0039 mnemonic, the mempool,
blockchain and supply details, a transaction or block by id, and the peers.

- `src/` is the verified library (Verus): the node address, the JSON-RPC
  request bodies, the files answers are kept in, the menu and what each choice
  does, input trimming, line counting, decimal formatting and the printed
  reports, each with its contract and the laws that tie them together.
- `app/main.rs` is the program around it: curl for the HTTP exchange,
  dialoguer for the menu, `jq` for pretty-printing, the file system, and the
  floating-point supply figures.
- `tests/` runs the library on concrete values.
