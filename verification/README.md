# shape_evolution

The core of a drawing game: a picture is approximated by circles, one player hosts, and the others
guess what it shows. The library in `src/` is verified with Verus; `app/` holds the server, the
wire format and the browser bindings around it.

- `raster`, `image_diff`: images, their mathematical model, cropping, and the distance of two
  images.
- `drawing`, `random`, `text`, `cleanup`: the calls into `imageproc`, `image`, `rand`, `uuid`,
  `futures` and the standard library whose contracts are trusted, and the rules built on them.
- `circle_shape`: which pixels a filled circle covers, in closed form.
- `random_shape`: circles, their boxes, drawing, mutation and scoring. `shape_laws`: both scoring
  algorithms agree, drawing stays in the box, and the score is the distance after drawing.
- `evolution`: the state of an evolving picture.
- `events`, `room`, `lobby`, `chat`, `handlers`: players, rooms, joining, leaving, chat and rounds.
  Sending is modelled as an outbox that the server empties. `game_laws`: joining and chat keep one
  host, leaving adds none, hosting goes round, private ids stay private, and joining a room stops
  its cleanup.

Circles are scaled by whole numbers in the library. Scaling by fractions is done in `app/`, in
floating point, which hands the library discs in whole pixels.
