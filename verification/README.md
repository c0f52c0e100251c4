# stwo_metal

Host-side logic of a Metal proving backend for the stwo prover, verified with
Verus: the planner and artifact registry that decide which components run on
the device, the version-1 evaluation-program ABI (lowering, validation,
semantic hashing, a reference interpreter and the device staging), the
sampled-values ABI, the recording of constraint programs, the staging of
interaction traces and quotients, FRI-layer commitments and Merkle
decommitments, and lifted Merkle trees.

Device kernels and the Metal runtime are not part of this crate; what the
library prepares for them and reads back from them is.

Layout:

- `src/` – the verified library. Public functions state in their `ensures`
  what they return, over the spec functions and views of the library (the
  version-1 registry is pinned row by row by `is_artifact_registry_v1`);
  the few results that rest on stwo are stated over named results of the
  trusted calls. Laws that relate several functions are public
  proof functions (for instance `lemma_sampled_values_roundtrip`,
  `lemma_gathered_decommitment_matches_tree`,
  `lemma_decommitment_reads_tree`). Calls into stwo (Blake2s hashing,
  circle-domain points, the trace vanishing polynomial, field inversion) sit behind small trusted
  wrappers whose contracts are documented where they are declared.
- `tests/` – tests run against the compiled library with stwo linked.
- `app/` – glue between stwo's types and the library's plain values, the
  serde marker type of the backend, and wall-clock timing reports.
