# ggsbot

The verified core of GGsBot, a Discord bot that runs as a Cloudflare worker
and is fed by a small gateway process.

- `src/` is the library, checked by Verus: request signature checks,
  interaction routing, the commands' answers, embeds and responses, the
  NASA picture-of-the-day embed and its retry policy, key-value namespaces,
  the scheduler's and the queue consumer's decisions, and the gateway's
  dispatcher (worker or queue, with a fallback after a 429) and middlewares.
- `tests/` runs the library on concrete values.
- `app/` is the plain Rust around it: the worker's HTTP, scheduled and queue
  entry points, the Discord gateway loop, HTTP calls, the key-value store, and
  the conversions to and from Discord's JSON types.
