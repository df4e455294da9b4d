# rts_game

The rules of a small real-time-strategy game, written in Verus and verified.

`src/` is the library. Each module states its behaviour in `requires` /
`ensures` contracts over plain values and proves it:

- `units`, `structures`: the unit and structure catalogues, unlocking units
  from the structures built, the tally of built structures, and the rules
  for building a placeholder, validating and placing it (and charging for
  it).
- `bank`: the funds and the on-screen figure that rolls toward them.
- `build_queue`: the vehicle depot's first-in-first-out build queue with its
  one-shot countdowns, the per-unit queue counts, and the progress bar.
- `cmd_interface`: hovering the interface, the build buttons and the
  information panel, starting and cancelling a placement.
- `mouse`, `cursor`: how mouse buttons become selection and movement orders,
  and the cursor's state and look.
- `path_finding`: the grid neighbourhood, the Manhattan estimate, and A*
  search through the `pathfinding` crate.
- `tank`, `map`, `camera`, `audio`, `resources`: the starting formations, the
  map's grid and light, the zoom rule, voice-line files and choice, and the
  debug flag.

Public `proof fn`s named `lemma_*` state the laws that hold across calls
(the displayed funds never overshoot, the build queue is first in first out,
the search's neighbours are exactly the free adjacent cells, and so on).

`app/` is a headless shell on Bevy's ECS around the library: its systems
gather plain values from the world, call the library and apply what it
returns. It has no renderer, physics engine or audio output; where the game
needs a ray cast, a collision test or a grid cell under the cursor, simple
floating-point geometry stands in, unverified. Widgets' pointer states are
left to a UI layer that is not part of it. `tests/` exercises the library on
concrete values.
