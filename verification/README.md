# spotify-dj

A command-line client for the Spotify Web API whose output is always JSON.

- `src/` is the library, verified with Verus. It holds the decisions the
  commands take: which URIs `play` and `queue-add` accept and what they ask the
  player to do, what `now` and `search` read out of Spotify's JSON answers, how
  the OAuth redirect yields its authorization code, how the credentials file
  is read back into a token and when that token is refreshed, the JSON
  documents every command prints, and the messages of every failure. The commands that talk to the
  network are state machines: a step function takes what just happened and
  returns what to do next.
- `app/` is the `spotify-dj` program: argument parsing, the tokio runtime,
  rspotify and reqwest calls, the callback server, reading and writing the
  token file, rspotify's test of whether a token has expired, and rendering
  the library's documents as JSON text.
  It runs the library's step functions and carries out their actions.
- `tests/` runs the library on concrete inputs.

Modules of the library: `json` (the JSON model and its accessors), `text`
(string helpers and decimal numerals), `uri` (`spotify:` URIs and `play`),
`queue` (`queue-add`), `callback` (the OAuth redirect), `playback` (`now`),
`search`, `session` (access token and requests), `config` (commands and
credentials), `auth` (login, the stored token, token status and client setup),
`token` (the stored token and what the library reads of it), `report` (the
printed documents).
