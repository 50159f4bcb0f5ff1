# alla_morra

Morra for two players, settled by a house account on the Miden testnet.

Each player publishes a bet note that carries their stake, their fingers
(0–3) and their guess of the total (0–6). The house consumes both notes in
one transaction: a player whose guess alone matches the total receives the
pot less a 1% fee; otherwise each player receives half of that. After the
expiry block an unsettled note is returned to its player.

Layout:

- `src/` — the verified library (Verus): field elements and words, the
  house's storage and vault, the rules, note inputs, what consuming a bet
  note does, the laws of settlement, the serial-number codec and the
  faucet's proof of work.
- `tests/` — tests of the library on concrete values.
- `app/` — the command-line program: account setup, publishing and settling
  on testnet through the Miden client.
