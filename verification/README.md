# debot

The verified core of a trading bot, written in Verus.

- `src/` holds the library: the id counters and transaction log, the
  arbitrage path search, the emulated exchange's order books, the fund
  settings, a fund's order, close and fill decisions, the steps of a trading
  round and of the main loop, and decimal arithmetic through rust_decimal.
  Every function carries a `requires`/`ensures` contract that Verus proves.
- `tests/` runs the library on concrete values.
- `app/` is the program around it: settings from the environment, the
  emulated exchange with its random draws, and the trading loop fed with
  prices from standard input.
