# music_minder

The rules of a music library manager, written in Verus and proved against
their contracts: tag and file-name handling, library organization, quality
assessment, metadata enrichment from MusicBrainz and AcoustID responses, the
play queue and playback control, media-key handling, and system diagnostics
for audio work.

## Layout

- `src/` — the verified library. Each public function states in `ensures`
  what it returns, over spec functions and views; the laws that relate
  several functions are public proof functions beside them.
  - `player/` — play queue (`queue`), playback state and duration text
    (`state`), requests to the audio thread and its answers (`control`),
    media-control commands, performance statistics, SIMD level choice.
  - `health/` — quality scoring and flags, health status, the background
    gardener's decisions, and the content hash of audio files.
  - `enrichment/` — identified tracks and how they merge, and the
    conversion of MusicBrainz and AcoustID responses.
  - `organizer`, `metadata`, `scanner`, `cover`, `db`, `config`,
    `diagnostics` — file organization and undo records, tag write plans,
    scan planning and watch events, cover-art caching rules, database record
    types, configuration defaults, and the diagnostic checks and report.
  - `text`, `paths`, `time`, `random` — string helpers and the few calls into
    `std`, `rand`, `dirs` and `sha2` whose contracts are trusted.
- `tests/` — tests of the library through its public interface.
- `app/` — the command-line program around the library: file and tag I/O,
  configuration files, system queries and the SIMD audio benchmark.
