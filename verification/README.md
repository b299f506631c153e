# nets_assist

A Discord moderation and utility bot for Roblox community servers, written
as a Verus-verified library (`src/`) and a thin application around it
(`app/`).

- `src/text.rs` — decimal rendering and parsing, padding, joining, chunking
  and byte-bounded truncation, each specified over character sequences.
- `src/time.rs` — playtime rendering, the current time in a named zone and
  zone-name suggestions (chrono and chrono-tz behind trusted wrappers).
- `src/scanner.rs` — which ports a scan probes, their services, scan plans
  and scan reports.
- `src/lookup.rs` — the course of a (cached) web API lookup, as a state
  machine the application drives.
- `src/roblox.rs`, `src/ip_intel.rs` — the APIs' records and addresses.
- `src/config.rs`, `src/models.rs`, `src/sysinfo.rs` — settings, stored
  records and host figures.
- `src/commands/` — the reply of every slash command.
- `app/` — Discord (poise/serenity), SQLite (sqlx), HTTP (reqwest), caches
  (moka), port probing (tokio) and host figures (sysinfo).
