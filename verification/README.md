# glass

The verified core of GLASS, a Windows overlay framework: a transparent,
click-through, always-on-top window that draws a retained scene of text and
rectangles, switches to an interactive mode on a hotkey, and refuses to start
next to kernel-level anti-cheat software.

## Layout

- `src/` — the library, verified with Verus.
  - `scene.rs` — the retained scene graph: stable node identifiers that are
    never reissued, insertion order, and dirty tracking.
  - `input.rs` — passive/interactive mode state, hotkey and timeout handling,
    the mode indicator's lifecycle, and the decoding of message parameters.
  - `window.rs` — what each window message means for the input state, and
    what the message loop does with each message.
  - `safety.rs` — the anti-cheat self-check: signatures, the probing order,
    the policy of each detection, the startup gate and the log entry.
  - `config.rs`, `modules.rs` — configuration defaults and format detection.
  - `fps.rs` — the frame-time ring behind the FPS estimate.
  - `system_stats.rs` — the memory line of the system stats module.
  - `hdr.rs` — the display capability and the choice of the surface format.
  - `render.rs` — what the renderer does after each attempt to acquire a frame.
  - `error.rs`, `text.rs`, `alloc_tracker.rs` — the error type, string
    helpers, and the allocation counter.
- `tests/` — tests of the library.
- `app/` — the overlay program: Win32 window and tray, DirectComposition,
  the wgpu renderer and glyphon text, configuration files and hot reload,
  and the built-in modules, whose geometry is floating point.
