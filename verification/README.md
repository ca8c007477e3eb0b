# pebbles_game

The pebbles game as a verified library: two players take turns removing
between one and a maximum number of pebbles from a pile, and whoever takes
the last pebbles wins. The program either draws its moves at random (easy)
or follows a fixed strategy (hard).

- `src/types.rs` – the game's values (state, actions, events, replies).
- `src/random.rs` – random numbers from the Gear runtime (trusted wrappers
  around `gstd::msg::id` and `gstd::exec::random`) and the verified reading
  of a random hash.
- `src/strategy.rs` – the program's moves and the choice of who starts.
- `src/game.rs` – checking parameters, starting a game, answering actions.
- `src/laws.rs` – properties that span the operations.
- `app/` – the Gear program: message loading and replies, the program's
  memory, and codec-carrying copies of the types.
