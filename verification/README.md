# antarcticite

A browser profile router. Acting as the system's default browser, it opens
each link in the browser and profile that the first matching rule of its
configuration names (by exact host or by regular expression), or in the
default browser and profile. Host names are compared whatever their case; a
pattern is a regular expression over the link, or, when it is not one, a
wildcard pattern (`*`, `?`) over the host. Links on the host of a redirect
wrapper named by a redirect policy open in the default browser, where the
companion extension follows them to their destination.

- `src/` is the verified library: routing (`router.rs`), wildcard patterns
  (`glob.rs`), the browser launch
  command for each operating system (`browser.rs`), suppression of repeated
  clicks (`debounce.rs`), the configuration and its last-good fallback
  (`config.rs`), the extension messages and the daemon's decisions
  (`messaging.rs`), the command line (`cli.rs`), the installation steps for
  each operating system with the native messaging manifest (`install.rs`),
  and the calls into the `url`, `regex` and `serde_json` crates and std's lowercasing with their trusted contracts
  (`outside.rs`).
- `app/` is the program around it: argument parsing, reading and writing the
  configuration, the extension's standard streams, launching processes,
  notifications, the tray icon and the event loop.
- `tests/` exercises the library.
