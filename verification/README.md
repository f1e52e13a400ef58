# lyrics

Terminal lyrics display: follows the MPRIS player, looks lyrics up in a local
cache and then lrclib, Netease, lyrics.ovh and Genius, and draws one line at a
time in big block letters (or, with `--json`, feeds a desktop panel).

## Layout

- `src/` — the verified library (Verus):
  - `font` — the block-letter font and `render`; every glyph is rectangular and
    every rendered row has the same width.
  - `lrc` — which LRC lines carry a time stamp, and how they split.
  - `lyrics_api` — the lookup as a state machine: cache first, synced sources
    before plain ones, and what is written back to the cache.
  - `genius`, `netease`, `lyrics_ovh` — each source's decisions: what to ask
    for, which search hit to take, how a Genius page is scraped.
  - `daemon`, `session`, `mpris` — the JSON daemon's decisions, the current
    track, the tracks whose lookup found nothing (not looked up again in the
    same run), the history of recent tracks (the `Panel` the daemon steps on
    each poll), and which player to follow.
  - `text`, `fmt`, `pick`, `unicode` — string, number and selection helpers
    stated over `Seq<char>`; `unicode` holds the few calls into the standard
    library's Unicode tables, each with its contract.
- `app/` — the program: terminal drawing, D-Bus, HTTP, files, threads, and the
  floating-point parts (time stamps as seconds, colour maths).
- `tests/` — tests of the library.
