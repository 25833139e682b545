# omnyssh

The host-configuration and session-bookkeeping core of the Omny SSH desktop
client, written in Verus with its contracts proved.

- `src/host.rs` — the `Host` record, its origin and connection status, defaults.
- `src/hosts.rs` — merging `hosts.toml` hosts with `~/.ssh/config` imports, and
  the subset that is persisted; laws on the merged list.
- `src/registry.rs` — public session ids and the terminal public/inner mapping.
- `src/transfers.rs` — SFTP transfer ids and their owning sessions.
- `src/routes.rs` — terminal output held until the frontend is ready, released
  in arrival order.
- `src/terminal.rs` — the terminal lifecycle across registry and routes.
- `src/event.rs`, `src/dto.rs`, `src/events.rs`, `src/bridge.rs` — engine events,
  the values sent to the webview, and the mapping between them.

`app/` holds the unverified edge: `hosts.toml` file I/O, environment lookups,
the serde wire forms of the library's values, and the floating-point metrics
payloads.
