# saorsa-attestation-guest

The logic of the SP1 zkVM guest program for Saorsa Entangled Attestation,
written in Verus with its contracts proved.

- `src/witness.rs`: the witness, summary and public-output types, and the limits.
- `src/validation.rs`: `validate_witness`, its specification
  (`validation_outcome`) and the laws on validation.
- `src/message.rs`: the operator-facing message of each validation error.
- `src/external.rs`: the trusted calls into `blake3` and `saorsa-logic`.
- `src/attestation.rs`: `witness_summary`, `compute_public_outputs` and the
  laws relating them.
- `app/`: the guest's `main` (reads the witness, commits the outputs through
  `sp1-zkvm`) and the serde forms of the types.
