# mengxi

The verified core of Mengxi (梦溪), a command-line tool that manages colour-grading
pipelines: it imports DPX/EXR/MOV projects, fingerprints their colour, searches past
projects for a similar grade and exports the match as a LUT.

## Layout

- `src/` — the library, verified with Verus. Every public function states in its
  `ensures` what it returns or changes, except `clock::epoch_now`, whose result is
  the clock's reading; laws that relate several functions are public proof functions
  named `lemma_*`.
  - Formats and codecs: `ppm` (P6 frames), `grading_blob` (little-endian feature
    BLOBs), `json` (requests to the AI helper), `markdown` (chat rendering), `text`
    (decimal and hexadecimal text, string helpers).
  - Colour science requests: `color_space`, `color_science`, `fingerprint`,
    `strip_analysis`, `downsample`, `feature_pipeline`, `lut` (LUT shapes and the
    decisions of a LUT export).
  - Store and records: `db` (paths, migrations, read-only queries, agent sessions),
    `analytics`, `calibration`, `project`, `consistency`.
  - Search and scoring: `hybrid_scoring`, `movie_search`, `movie_fingerprint`,
    `audio_waveform`.
  - Screens: `keys`, `chat` and `explorer` are the state machines of the terminal
    screens.
  - Commands: `validate` and `dataset` decide what the validation commands report.
  - `clock` reads the system time.
- `app/` — the I/O around the library: SQLite queries, image and frame files, the
  FFmpeg and Python subprocesses, the colour engine's C interface, the terminal
  screens, and the floating-point statistics.
- `tests/` — tests of the library.
