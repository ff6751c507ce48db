# PeriClaw

A desktop companion to the OpenClaw gateway: an office of pixel-art agents, a
chat with each of them, their sessions, crons, channels and logs.

`src/` is the library: everything that PeriClaw decides and computes, with
contracts that Verus proves. The state of the application is `app::state::App`;
`App::update` takes a message in and returns the effects it leaves, and
`app::model::step` says what both are. A gateway session is
`net::openclaw::Session`, which takes frames in and gives events and frames out.
What each tab shows is plain data, built by `app::view` from the modules under
`ui`.

`app/` is the window around it: sockets, files, the keychain, the clock, and
drawing. It hands plain values to the library and carries out what comes back.

`tests/` runs the compiled library.

The library calls `serde_json`, `ed25519-dalek`, `sha2`, `hex`, `base64`, `rand`
and `uuid`. What it believes of them stands in `src/json.rs` and `src/crypto.rs`;
two functions of the standard library are described in `src/text.rs`.

| Variable | Meaning |
|---|---|
| `OPENCLAW_GATEWAY_URL` | the gateway, before the saved one |
| `OPENCLAW_TOKEN` | the token, before any stored one |
| `PERICLAW_DEMO`, `OPENCLAW_MOCK` | a scripted stream instead of a gateway |
| `RUST_LOG` | how much is logged: `error` to `trace` |
| `OPENCLAW_FORCE_SSH`, `OPENCLAW_SSH_HOST` | read the gateway's files over SSH |
