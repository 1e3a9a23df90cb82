# ccl_view

A viewer front end for connected-component labelling of occupancy grids,
with its logic verified by Verus.

- `src/` — the verified library:
  - `grid`: occupancy cells to labelling input (clamped cells, foreground
    bits) and the row layout of a grid;
  - `upload`: the byte images of those words for a GPU buffer;
  - `sampling`: random test grids;
  - `message`: the map message that the publisher sends;
  - `viewer`: the window's state machine (resize, new buffer, draw, fault
    recovery, user and window events) and the laws it keeps.
- `tests/` — tests on concrete values.
- `app/` — the program: ROS connection, GPU device, labelling pass, window.
