# polars_ta

Technical-analysis indicators on Polars series, split in two crates:

- `src/` — the verified library. It holds the decisions the indicators make by
  comparing values: the candlestick patterns (doji, hammer, engulfing,
  morning/evening star), the true range, the directional movements of the ADX,
  the gain/loss split of the RSI, the up/down direction of rows for On-Balance
  Volume and the windows of positive and negative flows of the Money Flow
  Index, and the trend / stop / extreme-point state machine of the Parabolic
  SAR. Prices enter as order keys (`i64` values ordered as the prices are), so
  every result is exact.
- `app/` — the indicator functions on `polars::Series`: reading the series,
  the floating-point arithmetic, the Polars smoothing and rolling windows, and
  the conversion between floats and order keys.
