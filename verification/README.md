# bonus_prize

A Solana program that pays the bonus prize of a no-loss lottery draw to the
draw's winner, with the client helpers that build its instructions.

- `src/` is the verified library: the claim checks and the payout transfer
  (`processor`), the instruction builders (`instruction`, `instructions`),
  the account layouts and their encodings (`nll_state`, `state`), the program
  derived addresses (`utils::pdas`), and the properties relating them
  (`laws`). The calls into the Solana SDK and the SPL token crates are the
  trusted items of `sdk`.
- `app/` is the program's entry point over SDK types: it copies accounts into
  the library's plain values, lets the library decide, and performs the
  signed cross-program invocation; it also carries the SDK-typed copies of
  the library's types with their Borsh, bytemuck and thiserror derives.
- `tests/` runs the library against the SDK and the token crates.
