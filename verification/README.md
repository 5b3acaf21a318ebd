# physics_playground

A small 2D physics playground built on bevy and bevy_rapier2d: the player walks and
runs with an animated sprite, objects chosen in a menu are spawned at the
mouse and get colliders made from the outline of their image, and polygons
drawn with the mouse become fixed colliders.

- `src/` is the game's logic, verified with Verus: the sprite animation step
  (`anim`), the queue of objects waiting for a collider and polygon drawing
  (`level`), outline meshes for colliders (`outline`), walking input
  (`player`), the menu's state and asset paths (`my_egui`), level paths
  (`save_load`) and the membership of the system sets (`schedule` and the
  `system_set` functions).
- `app/` is the bevy program around it: plugins, resources, the ECS systems,
  rendering, floating-point geometry and file listing.
- `tests/` runs the library on concrete values.
