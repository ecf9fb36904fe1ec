# recorder

A live-stream recorder library for Bilibili, Douyin, Douyu, Huya, Kuaishou,
TikTok, Twitch and YouTube, written in Verus. The library's own functions in
`src/` carry contracts that Verus proves; the calls into outside crates and
into a few parts of std stand behind trusted items, whose contracts are
taken from those crates' documentation and sources and are not proved. The
proved contracts cover:

- how each platform's page and API answers are read into rooms, users and
  stream URLs;
- which stream, CDN and HLS variant a recording pulls;
- how an HLS recording advances over a playlist;
- how the recording loop moves between polls, recordings, resumes and live
  ends.

Layout:

- `src/` is the verified library.
  - `json.rs` holds the JSON model that the parsers read, and `text.rs` the
    verified text functions.
  - `media/` holds HLS streams, variants, ad windows and playlist rounds.
  - `platforms/` holds one module per platform, plus `common.rs` (the session
    state machine of the recording loop) and `polls.rs` (room polls).
  - `outside.rs` holds most of the trusted items: the calls into `url`,
    `m3u8-rs`, `regex`, `serde_json`, `md5`, `base64`, `pct-str`,
    `urlencoding`, `chrono`, `rand`, `fastrand` and `sanitize-filename`, and
    into std's UTF-8 conversions and clock, each with the contract that its
    documentation supports. `text.rs` holds two more: std's
    `char::is_alphanumeric` and `String::push`.
- `tests/` runs the library on concrete inputs.
- `app/` is ordinary Rust around the library.
  - It reads media playlists (whose segment durations are floats) and the
    date-range tags of ad windows, decodes the records that serde's derives
    decode, and converts records to and from their serde forms.
  - It holds a synchronous recording loop that leaves every decision to the
    library.
