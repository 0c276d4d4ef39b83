# MangoGeneration

A local desktop tool that generates wallpapers, tidies folders by sorting files
into sub-folders, and converts images. An external image tool ("brain") does
the drawing and the analysis, an optional copy engine (a shared library) copies
files in bulk, and user rules written in Lua pick folders and wallpapers.

`src/` is the verified library:

- `gui` — the window's state and every decision it takes (what may start, the
  status line after each operation, the theme);
- `brain` — where the image tool is found, the arguments of its commands, and
  what its replies mean;
- `json` — the tool's JSON replies, parsed with `serde_json`, as the library
  reads them;
- `copy` — the folder of each analysed file, the engine's task list, and the
  copy session with its file-by-file fallback;
- `lua` — running the user's Lua rules (embedded Lua 5.4 through `mlua`, with
  its safe standard libraries);
- `resources` — the search order for resources and the preparation of
  `mango/config.lua` beside the program;
- `wallpaper` — setting the desktop wallpaper with the desktop's own tools;
- `text` — decimal numbers and path joining.

`app/` is the program around it: the egui window, the processes, the file
system and the shared library. `tests/` exercises the library.
