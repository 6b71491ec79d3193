# slop_screen_recorder

The decision-making core of a small screen recorder that drives ffmpeg,
written in Verus with its behaviour stated in contracts and proved.

- `src/` — the verified library:
  - `text`, `numeral`: lines as `str::lines` splits them, joining, search,
    whitespace and trimming; decimal and hexadecimal numerals and the
    `isize` parser, with the law that a printed handle parses back.
  - `stderr`: `tail_stderr`, the last non-blank lines of ffmpeg's stderr.
  - `gif`: ffmpeg's arguments for MP4 → GIF and where the GIF goes.
  - `record`: the output file name, the output-directory verdict, window
    handles and window rectangles on Windows, and ffmpeg's recording
    arguments for macOS (avfoundation), Windows (gdigrab) and X11.
  - `start`: starting a recording as a step function: idle session,
    writable output directory, output path, window lookup, ffmpeg.
  - `sources`: reading ffmpeg's avfoundation and DirectShow device
    listings, the windows offered on Windows (deduplicated by title).
  - `session`: the start/stop state of a recording and what a stop reports.
  - `locate`: the search for the ffmpeg binary as a step function (bundled
    copy, install locations, `where`, then `PATH`) and the cache of its
    result, with laws on the search order.
  - `paths`: std `Path` operations the library relies on.
  - `overlay`: the region outline's size.
- `app/` — the Tauri application around it: commands, processes, the file
  system, the clock and the Win32 window enumeration.
- `tests/` — tests of the library on concrete values.
