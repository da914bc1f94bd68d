# shairport-dashboard

Realtime dashboard for Raspberry Pi audio and system telemetry. The library
(`src/`) holds the parsing, bookkeeping and history logic, verified with Verus;
the program (`app/`) runs the collectors, the Axum web server and the history
file, and computes the floating-point figures itself: the CPU temperature in
degrees, and the CPU and RAM usage percentages, from the counts that the
library reads.

## Library (`src/`)

- `wifi` — parser for `iw dev wlan0 station dump` output (plain or through
  `watch`), one line at a time or a whole dump.
- `metadata` — parser for the shairport-sync metadata pipe (hex `type`/`code`,
  base64 payloads, multi-line `data` tags) that emits a sample per new track
  or new artwork.
- `shairport` — timing lines of the shairport-sync journal.
- `system` — `/proc/meminfo`, `/proc/stat`, `vcgencmd get_throttled`, hwmon fan
  files and the CPU-usage bookkeeping.
- `iw_event` — `iw event -t` lines.
- `history` — replay history with its cap, saved and legacy forms.
- `models` — the samples; floats are held as the decimal text they parse from.
- `text`, `numbers` — string primitives and std's number syntax.
- `external` — the calls into `hex`, `base64`, `regex` and std with their
  assumed contracts.
- `laws` — properties across calls.

## Program (`app/`)

`main.rs` serves `/`, `/index.mjs`, `/index.css` and `/ws`; `collectors/`
spawn the external commands and read the files, `wire.rs` holds the serde
forms of the samples.
