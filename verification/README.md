# trading_system

The verified core of an algorithmic trading system for US stocks, written in
Verus. `src/` holds the logic with its contracts and laws; `app/` is the
program around it (configuration from the environment, the floating-point
risk and condition arithmetic, the JSON reading of broker and market-data
messages, and a replay of recorded traffic); `tests/` runs the library on
concrete values.

Modules of the library:

- `clock`: UTC instants and their US Eastern reading (chrono, chrono-tz).
- `market`: the market calendar — open/closed status, trading session,
  holidays, and which day's data to use.
- `config`: trading mode and the settings of the data stream, the broker and
  the rules engine, with their checks.
- `broker`, `lightspeed`: order routing by trading mode, the paper broker's
  share bookkeeping (FIFO sales, consolidated positions), and the LightSpeed
  protocol (messages, replies, fills and position reports).
- `rules`, `portfolio`: the rules engine's decisions — condition tally, risk
  grade, execution gate, action of a triggered rule, timing and metrics,
  price sources — and the share side of its portfolio.
- `store`, `realtime`: keyed stores, the time-limited indicator cache, the
  market-data answer caches and the real-time quote cache.
- `json`, `stream`: JSON text as serde_json writes it, and the market-data
  stream's messages, subscriptions, buffer and event handling.
- `data`, `polygon`, `web`, `engine`, `metrics`, `text`, `types`: reference
  data requests and answers, web replies and watchlist rules, the main loop's
  bookkeeping, and text helpers.
