# mx_player

Core of a desktop player for network video streams (HLS and similar) with
automatic fallback between a primary and a secondary URL and a periodic
health check of every endpoint.

- `src/` is the library, verified with Verus: the endpoint model
  (`types`), the fallback policy (`fallback`), the health-check rules and
  scan schedule (`health`), the CSV source-list format and the choice of
  format by file extension (`store`), the decisions of the player thread
  (`session`), the state the window shows (`ui`) and string helpers (`text`).
- `app/` is the program around it: the egui window, the MPV player (libmpv),
  the HTTP and TCP probes, the clock, threads and channels, and the JSON
  files (serde). It calls the library for every decision.
- `tests/` exercises the library.
