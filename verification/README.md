# slashcloud

A toolkit for Discord slash-command bots that run on Cloudflare Workers, written in
Verus. The library (`src/`) holds every decision the bot framework takes, each with a
contract that Verus proves:

- `interactions`: interaction kinds and responses, and the JSON text of a response.
- `dispatch`: the interaction endpoint as a state machine (key, signature, payload,
  arguments, handler, reply), with its laws: one reply per request, handlers only for
  verified commands, 401 for bad signatures, 500 without a key, pong for pings.
- `signature`: the signature and signed data of a request (hex decoding through the
  `hex` crate), the verdict of the Ed25519 check, and the failure messages.
- `limiter`: when a request must wait for its rate-limit bucket, the authorization
  header, and what is recorded from Discord's answer.
- `decimal`: integers read as Rust's `str::parse` reads them, and decimal text.
- `discord`: snowflakes, users, emoji, guilds, messages, and the REST requests on
  them (method, path, rate-limit bucket), and how answers are classed by status.

`app/` is the Workers side: the HTTP entry point that runs the state machine, the
Web Crypto calls, the rate-limiter durable object, the REST calls, and the serde
forms of the library's types.
