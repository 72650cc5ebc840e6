# rblx_rich_presence

Shows the Roblox game a user is playing as a Discord rich presence.

The decisions of the program live in a verified library (`src/`):

- `models`: the configuration, how a partly written configuration file is
  completed with defaults, and the tray toggles.
- `roblox`: the state of a running session (join data, cookie, launcher path),
  the request URLs built from it, and how each web reply updates it.
- `launch`: reading a `roblox-player:` launch URL into join data, and the
  proof that the launch arguments `as_url` writes (launch mode, game info,
  launch time, tracker id, locales) read back, for values free of `+` and `:`.
  The query of the place-launcher URL is decoded by the `url` crate, whose
  result the library only names, so no read-back is proved for it.
- `session`: ticket handling, the server-list search, the ticket request retries,
  the process watch and the configuration-file watch, each as a small state
  machine, and the version checks.
- `presence`: what the Discord presence shows, and the join secret, which
  reads back as the text it was made from.
- `text`: string helpers with exact contracts (decimal writing and reading,
  splitting, replacing, slicing by bytes).
- `codecs`: the trusted calls into `url`, `serde_json`, `json`, `base64` and
  `String::from_utf8`.

`app/` holds the Windows program around it: the tray menu, the registry, the
HTTP requests, the Discord client and the main loop.

`tests/` runs the library on concrete values.
