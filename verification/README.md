# Live Earth Wallpaper

Desktop wallpaper showing live geostationary satellite imagery of Earth in
front of an accurate star field.

- `src/` is the verified library: satellites and their image products,
  tile grids and request addresses (SLIDER and Himawari-8), monitor layouts
  and the views rendered for them, the 5×7 label font and label layout,
  the tray menu texts and identifiers, settings defaults, command-line
  flags, Julian day numbers, the time recorded beside a cached image, and
  the scheduler that decides, from tray
  commands, clock ticks, display changes and fetch outcomes, when imagery
  is fetched and the wallpaper redrawn.
- `app/` is the program around it: HTTP requests, image decoding and
  compositing, the floating-point astronomy and shading, the Windows tray,
  registry and wallpaper APIs, settings files, and the event loop that
  carries out the scheduler's actions.
- `tests/` exercises the library on concrete values.

The star catalogue (`star_data.csv`) and Moon texture (`moon_texture.png`)
are read from the wallpaper directory when present.
