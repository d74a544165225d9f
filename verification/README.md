# filament_ifc

Information-flow control for data pipelines, verified with Verus.

- `src/lattice.rs`, `ops.rs`, `compare.rs`: the four-point label lattice
  (`Public`, `A`, `B`, `AB`) with its laws, and `Labeled<T, L>`, which carries a
  value under a label through arithmetic, comparisons and logic, joining labels.
- `src/implicit.rs`, `function_rewrite.rs`: program-counter tracking, guarded
  assignments (no write down from a secret branch), side-effect-free vetting, and
  the chains that unwrap labeled arguments while joining their labels.
- `src/pc_policy.rs`, `src/rewrite/`: the rewrites behind the flow-checking macros
  (`pc_block!`, `fcall!`, `mcall!`, `relabel!`, the side-effect-free attribute),
  as functions from syntax to plans with exact contracts; opaque parts of the
  syntax are numbered fragments.
- `src/dataset/`, `src/batcher.rs`: datasets of labeled items and their iteration.
- `src/train/`: the decisions of training and evaluation loops (iteration
  counting, gradient accumulation, progress, checkpoint operations).
- `app/`: what stays outside the verified library: token parsing and emission with
  `syn`/`quote`, file loading, threads, asynchronous chaining, and the loops that
  perform model work while the library decides.
