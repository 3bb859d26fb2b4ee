# zeroclaw

The decision core of a crypto trading agent, written in Verus: the functions in
`src/` state what they do in `requires`/`ensures` contracts, and the verifier
proves each body against its contract.

Layout:

- `src/` — the verified library.
  - `signal`, `strategy`, `safety` — market regimes, strategy advice, confluence
    scoring, latency overrides and the safety gates that a trade must pass.
  - `position`, `bands` — stop-loss and take-profit decisions, and where a
    price stands against bands and channels.
  - `orders`, `query`, `text` — signed order requests (sorted query strings,
    HMAC-SHA256 signatures), the position ledger and the retry policy.
  - `stream`, `window` — kline stream URLs, reconnect back-off, message
    reactions and the rolling window of candles.
  - `campaign`, `config`, `keys`, `tools`, `monitor`, `prompt`, `formatter` —
    campaign life cycle, configuration defaults, storage keys, tool replies,
    health alerts and prompt text.
- `tests/` — tests that run the compiled library with the real outside crates.
- `app/` — the program around the library: command line, network and database
  I/O, indicator arithmetic on floats, and the loops that drive the library's
  step functions.

Calls into `hmac`, `sha2`, `hex` and `redis` stand in `src/` behind small trusted
wrappers whose doc comments say what each contract claims of the outside code.
