# tachyomancer

Verified core logic of the Tachyomancer circuit-puzzle game and of its
Tachyoscope score server, written in Verus.

`src/` holds the library.  Its functions carry contracts that Verus proves,
except a few small trusted wrappers around the standard library, `sha` and
`num-integer`, whose contracts Verus takes on trust (each says in its doc
comment what it claims of the call it makes).  It covers:

- `graph`: score-graph axis ticks and labels;
- `paragraph`, `text`: the paragraph format language (tokens, escaping,
  phrases, text speed) and the decimal text helpers it rests on;
- `geom`, `wires`, `select`, `reorient`: grid geometry, wire fragment maps,
  cutting and pasting selections, flipping and turning their wires;
- `controls`, `manip`, `bounds`, `camera`, `circuit`, `gridedit`: the
  circuit view's simulation controls, selection buttons, bounds handles,
  camera steps, and what keys and mouse buttons do on the editing grid;
- `converse`, `begin`, `prefs`, `dialog`, `lists`, `menu`, `nav`,
  `puzzles`, `chip`, `background`, `tooltip`: layouts and decisions of the menus,
  conversations, dialogs and the new-commander screen;
- `scores`: the score server's solution bookkeeping.

Besides the contracts of the functions, `src/` states laws that relate
several functions, as public `lemma_*` proof functions (for instance that
escaped text reads back literally, that undoing a flip or turn restores a
selection's wires, and that over any run of control presses and
simulation outcomes the controls show "stopped" exactly when no
simulation exists; the views' drawing and widget glue is not part of the
library).

`tests/` runs the library on concrete values.  `app/` is the score server's
executable: flags, HTTP routes, and the conversions from the game's save
formats.
