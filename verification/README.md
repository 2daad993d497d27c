# training_modpack

The logic of a training mode modpack for a fighting game, written in Verus:
the in-game menu and its option flags, and the decisions that the CPU
fighter takes each frame as the menu asks (mashing out of hitstun or
shieldstun, out-of-shield options, teching, ledge getups, throws, clatter,
SDI, fast falls), the input recorder, the save state machine, frame
counters and notifications.

The game's own state is not visible here: each decision takes what the game
shows as plain values (an observation) and returns what the caller has to do
(an effect, a status, a notification), with the library's state updated.

Layout:

- `src/` the verified library. `options.rs` holds the menu option types,
  `flags.rs` their model as weight lists, `option_values.rs` what a choice
  means; one module per training feature.
- `tests/` tests of the library on concrete values.
- `app/` the parts that cannot be verified: the frame counter registry behind
  a lock, the configuration file, the usage metrics files, the save state
  file and the floating-point views of verified results.
