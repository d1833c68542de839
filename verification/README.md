# sone_proxy

The decisions of the SONE music player about its proxy and its settings, written
in Verus: what a host field may hold, which plan the settings form, which URI each
consumer is given, what the shared HTTP client is built with, in which order a
change of settings is stored and applied, and what each settings command does.

- `src/text.rs`, `src/ipv6.rs`: trimming, decimal numbers, IPv6 literals.
- `src/settings.rs`, `src/proxy.rs`: the proxy screen, plans and routes.
- `src/proxy_http.rs`: the client built for a route, and the cell that holds it.
- `src/proxy_commands.rs`: saving, reporting and testing a proxy.
- `src/app_state.rs`, `src/script.rs`, `src/commands.rs`: live flags, stored
  settings, and the settings commands as scripts of effects.
- `src/files.rs`, `src/image.rs`, `src/startup.rs`: the log folder and logging
  switch, artwork, and the environment at start-up.
- `src/laws.rs`, `src/cell_laws.rs`: what holds of every plan, every route and
  every course of updates to the cell.
- `app/`: the program around the library. It reads and writes files, sends
  requests, and performs the effects that the library asks for.

reqwest is called from `src/proxy_http.rs` and `src/proxy_commands.rs` through
small wrappers whose contracts are believed, not proved. Each wrapper's comment
says what it claims and what it leaves unsaid.
