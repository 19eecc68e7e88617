# platformer

The rules of a small 2D platformer, verified with Verus.

- `src/platform.rs`: moving platforms. A platform shuttles back and forth
  along the points of its path (`go_to_next`), starts on its own or when its
  bell is struck, and turns level cells into path offsets.
- `src/movement.rs`: the four grid directions.
- `src/charge.rs`: the straight-charge task of enemies.
- `src/stabber.rs`: how a stabber's sprite is turned to face its charge.
- `app/`: the Bevy glue (components, bundles, plugins, systems), which reads
  the world and hands the library plain values.
- `tests/`: scenarios on concrete values.
