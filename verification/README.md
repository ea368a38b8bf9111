# canon_collision

The rules, menus, action state machines, collision resolution and frame history of the
Canon Collision platform fighter, written in Verus with their contracts proved.

## Layout

- `src/` — the verified library:
  - `rules`, `results`, `launch` — match rules, the results screen, matches started from
    the command line;
  - `menu_ticker`, `menu`, `character_select` — the menus between matches, with the
    snapshots netplay rolls back to;
  - `player`, `ground`, `air`, `shield`, `frame`, `toriel` — what a fighter does each frame
    on the ground, in the air and behind its shield, and Toriel's specials;
  - `entity`, `collision`, `item_grab` — entity action states, hit and grab resolution over
    the contacts the geometry found;
  - `timeline`, `game`, `editor`, `camera`, `replays`, `seed` — the frame history of a
    match, replay and pause controls, the editor's selections, camera modes and the
    per-frame random seed;
  - `assets`, `audio` — asset reloads, music folders and sound effect keys;
  - `order`, `text` — sorting and string helpers.
- `tests/` — tests of the library on concrete values.
- `app/` — the program around it: the command line, the window and its keyboard, and the
  frame loop that runs the menus sixty times a second.

Positions, velocities and other real-valued state stay with the caller: the library takes
what its decisions read of them as booleans or integer ranks.

Entities are handed to the library as vectors in the order of the match's entity table, each
carrying its key: what the collision and grab logic reads of an entity is plain data, while
the entities themselves (bodies, positions, render data) stay with the caller. The frame's
random numbers only ever feed real-valued effects, so the library takes none; it computes the
frame's seed. The match seed is read from the clock by the program, not the library.
