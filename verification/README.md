# pengu

The core of a loader for a CEF-based game client, as a Verus-verified library.

- `src/` — the verified library: UTF-16 strings for CEF (`cef`), inline hook
  stubs, patches and their undoing (`hook`), text matching (`text`), which
  process gets which hooks (`process`, `browser`, `renderer`), and the
  bootstrapper's decisions (`bootstrap`).
- `app/` — the Windows side: entry points, reading and writing process
  memory, the detours and the CEF C types they touch. It builds on Windows only.
- `tests/` — tests of the library.
