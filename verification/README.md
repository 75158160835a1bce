# companion-updater

The logic of the Companion update dashboard, verified with Verus.

- `src/version.rs` — reading, ordering and displaying version strings.
- `src/bitfocus.rs` — choosing the newest Linux build from the builds API.
- `src/json.rs` — the JSON model the library reads, and the parser that fills it.
- `src/safety.rs` — counting an export and detecting data loss. Exports are
  counted as the plain JSON that Companion's export endpoint returns; a
  compressed export is not decompressed and fails to parse. An export whose
  top level or sections are not of the expected JSON kinds is refused with an
  error rather than counted as empty.
- `src/update.rs` — skip markers, the outcome of a run, installer output.
- `src/run.rs` — an update run as a state machine: requests out, replies in.
- `src/gate.rs` — the status endpoint's version report and the cooldown gate;
  only a successful run starts the cooldown.
- `src/dashboard.rs` — what the browser dashboard shows.
- `src/text.rs` — character-level helpers.
- `app/` — the HTTP server: I/O, processes, and the serde shapes. It is not
  verified. Besides what the library decides, it holds the calls to
  Companion: the full export is fetched over HTTP, and a snapshot is imported
  back through Companion's websocket API in base64 chunks checked by a SHA-1
  digest (`app/companion_api.rs`); that client is written here and not
  verified. The dashboard bundle is served from the directory named by
  `COMPANION_UPDATER_DIST`, not embedded in the binary.
