# crowdloan_bench

Verified setup logic of the benchmarks of a crowdloan rewards pallet.

- `src/` (Verus): the pallet settings the setup reads (`config`), the
  funding of accounts and the reward pot (`funding`), generated
  contributors and their relay accounts (`contributors`), the batches in
  which contributors are inserted (`batching`), the mock relay validation
  data (`relay_data`) and the ed25519 proof of a relay identity (`signing`,
  through `ed25519-dalek` and `parity-scale-codec`).
- `app/`: drives these steps on a runtime described by a trait.
- `tests/`: tests of the library on concrete values.
