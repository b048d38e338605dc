# polymarket_helpers

Verified request helpers for a small Polymarket order service.

- `src/response.rs`: the reply envelope (`code`, `data`, `error`) and the
  three reply builders; every reply they build is consistent (status 200 with
  code 0 and data, or a 4xx/5xx status with code 1 and an error message).
- `src/numbers.rs`: token ids (`U256`, kept as four limbs) and decimal amounts
  (`rust_decimal::Decimal`, kept as its 16 serialized bytes), parsed by the
  outside crates behind two trusted wrappers; a failed parse becomes a 400
  reply that names the field and the parser's message.
- `src/side.rs`: the order side, `buy` or `sell` in any case. For ASCII input
  the contract states exactly which words are accepted (letters `A`..=`Z`
  count as their small forms), and `lemma_ascii_case_keeps_side` proves that
  changing the case of ASCII letters changes nothing; beyond ASCII it goes
  through the name of `str::to_lowercase`, and tests show that words such as
  `ſell`, fullwidth `ＢＵＹ`, `İ` and the Kelvin sign are refused.
- The service takes `U256` and `Decimal` from the Polymarket SDK's `types`
  module (`polymarket_client_sdk_v2`), which re-exports them from
  `alloy-primitives` and `rust_decimal`. The SDK's dependency tree is too large
  to build here, so the library calls those two crates' parsers directly;
  `app/` still names the SDK's types and client, and so does not build here.
- `app/`: the program around the library: the order-book stream, logging, and
  the conversions to axum, `alloy_primitives::U256`, `rust_decimal::Decimal`
  and the SDK's `Side`.
