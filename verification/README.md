# civlike

The rules of a small turn-based strategy game on an isometric fifty by fifty
map, written in Verus: players found city centres on ruins, raise wood,
metal and science buildings, queue soldiers in barracks, move and fight with
them, and win by leaving the opponent without a city centre.

- `src/components`: tiles and positions, players and their resources, the
  unit stack of a barrack, unit statistics (fixed point), buildings.
- `src/game.rs`: the state shared by the systems (turn, mouse tile, menus,
  map layers, buildings and units with their identifiers) and the set-up of
  a new game.
- `src/systems`: one module per system the game runs every frame, each a
  function from the current state and the frame's input to the next state,
  with its contract, and the laws that hold across them.
- `src/state.rs`: the whole state of a game and the systems, and a new
  game's starting values.
- `src/text.rs`: decimal text of numbers for the resource bar and the win
  screen.
- `app/`: the game itself on the amethyst engine: window, input, user
  interface, drawing, camera and terrain noise. Every frame it hands the
  mouse tile, the mouse button and the clicked buttons to the library's
  systems and draws what they return.
