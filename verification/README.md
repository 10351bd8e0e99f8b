# relentless (verified core)

The outcome-classification vocabulary of a retry and polling library, written
in Verus with its contracts proved.

- `src/decision.rs` — `Decision`, `Verdict`, the `Outcome` trait (with its
  `Result`, `Option` and `ControlFlow` impls), the engine-facing `Decide` trait and its
  classifiers (`DefaultClassifier`, `ClosureClassifier`, `When`, `Until`), the
  sealed `IntoDecision` conversion, and the laws that relate them.
- `src/predicate/mod.rs` — the `Predicate` trait, its blanket impl for
  closures, the boxed impl, and the `any_error`, `error`, `result`, `ok`
  factories.
- `src/engine/` — `StopReason` with its labels, and `RetryError` with its accessors and
  messages.

Traits carry their behaviour as spec functions (`classified`, `admits`,
`decides`, `answers`); an implementor defines them beside the executable
method. For predicates built from closures, the `lemma_*_answers` and
`lemma_when_decides` / `lemma_until_decides` proof functions unfold those spec
functions at a concrete closure type.
