# interactive_wallpaper

An animated wallpaper for Wayland compositors with the layer-shell protocol:
a screen-filling tiling of triangles, drawn with wgpu, that reacts to the pointer.

- `src/` is the verified library: the colour palettes (`palette`), the triangle
  tiling that covers a surface (`tiling`), the surface extent kept across resizes
  and what to do with an acquired frame (`surface`), and how the event loop
  answers each compositor event (`events`).
- `app/` is the program around it: the layer-shell event loop, the wgpu device,
  surface and pipeline, and the floating-point geometry and animation uniforms.
  It reads the animation shader from `shader/animation.wgsl` at start-up.
- `tests/` runs the library on concrete values.
