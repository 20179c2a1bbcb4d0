//! Which test cases run, which are skipped and why, and the tally of outcomes.

use vstd::prelude::*;

use crate::config::{feature_names, lemma_missing_spec, missing_features, missing_spec};
use crate::features::{FileSystemFeature, feature_name};
use crate::text::{
    contains_spec, join, join_spec, str_contains, str_equal, trim_prefix_spec, trim_start_matches,
};

verus! {

/// The module path under which the test cases of the suite are registered.
pub open spec fn test_path_prefix() -> Seq<char> {
    "pjdfstest::tests::"@
}

/// The name shown for a test case: its registered name without the module
/// path of the suite.
pub fn display_name(name: &str) -> (res: &str)
    ensures
        res@ == trim_prefix_spec(name@, test_path_prefix()),
        res@ == trim_prefix_spec(name@, "pjdfstest::tests::"@),
{
    trim_start_matches(name, "pjdfstest::tests::")
}

/// Whether a test name matches a pattern: equals it when matching exactly,
/// contains it otherwise.
pub open spec fn pattern_matches(name: Seq<char>, pat: Seq<char>, exact: bool) -> bool {
    if exact {
        name == pat
    } else {
        contains_spec(name, pat)
    }
}

/// A test case is selected when no pattern is given or when one of them matches its name.
pub open spec fn is_selected_spec(name: Seq<char>, patterns: Seq<Seq<char>>, exact: bool) -> bool {
    patterns.len() == 0 || exists|i: int| 0 <= i < patterns.len() && pattern_matches(name, #[trigger] patterns[i], exact)
}

/// A test case is selected when no pattern is given, and otherwise exactly
/// when some pattern of the list, whichever its position, matches its name:
/// is equal to it when matching exactly, occurs in it otherwise.
pub proof fn lemma_selected_by_any_pattern(name: Seq<char>, patterns: Seq<Seq<char>>, exact: bool)
    ensures
        patterns.len() == 0 ==> is_selected_spec(name, patterns, exact),
        forall|i: int|
            0 <= i < patterns.len() && (if exact {
                name == #[trigger] patterns[i]
            } else {
                contains_spec(name, patterns[i])
            }) ==> is_selected_spec(name, patterns, exact),
        is_selected_spec(name, patterns, exact) ==> patterns.len() == 0 || exists|i: int|
            0 <= i < patterns.len() && if exact {
                name == #[trigger] patterns[i]
            } else {
                contains_spec(name, patterns[i])
            },
{
    assert forall|i: int|
        0 <= i < patterns.len() && (if exact {
            name == #[trigger] patterns[i]
        } else {
            contains_spec(name, patterns[i])
        }) implies is_selected_spec(name, patterns, exact) by {
        assert(pattern_matches(name, patterns[i], exact));
    }
    if is_selected_spec(name, patterns, exact) && patterns.len() > 0 {
        let i = choose|i: int| 0 <= i < patterns.len() && pattern_matches(name, #[trigger] patterns[i], exact);
        assert(0 <= i < patterns.len() && if exact {
            name == patterns[i]
        } else {
            contains_spec(name, patterns[i])
        });
    }
}

/// Whether the test case named `name` is selected by `patterns`.
pub fn is_selected(name: &str, patterns: &Vec<String>, exact: bool) -> (res: bool)
    ensures
        res == is_selected_spec(name@, patterns@.map_values(|p: String| p@), exact),
        res <==> (patterns@.len() == 0 || exists|i: int|
            0 <= i < patterns@.len() && if exact {
                name@ == (#[trigger] patterns@[i])@
            } else {
                contains_spec(name@, patterns@[i]@)
            }),
{
    proof {
        let pats = patterns@.map_values(|p: String| p@);
        lemma_selected_by_any_pattern(name@, pats, exact);
        let literal = patterns@.len() == 0 || exists|i: int|
            0 <= i < patterns@.len() && if exact {
                name@ == (#[trigger] patterns@[i])@
            } else {
                contains_spec(name@, patterns@[i]@)
            };
        if is_selected_spec(name@, pats, exact) && patterns@.len() > 0 {
            let i = choose|i: int|
                0 <= i < pats.len() && if exact {
                    name@ == #[trigger] pats[i]
                } else {
                    contains_spec(name@, pats[i])
                };
            assert(pats[i] == patterns@[i]@);
            assert(literal);
        }
        if literal && patterns@.len() > 0 {
            let i = choose|i: int|
                0 <= i < patterns@.len() && if exact {
                    name@ == (#[trigger] patterns@[i])@
                } else {
                    contains_spec(name@, patterns@[i]@)
                };
            assert(pats[i] == patterns@[i]@);
        }
        assert(literal == is_selected_spec(name@, pats, exact));
    }
    let ghost pats = patterns@.map_values(|p: String| p@);
    if patterns.len() == 0 {
        return true;
    }
    let mut i: usize = 0;
    while i < patterns.len()
        invariant
            i <= patterns@.len(),
            pats == patterns@.map_values(|p: String| p@),
            forall|k: int| 0 <= k < i ==> !pattern_matches(name@, #[trigger] pats[k], exact),
        decreases patterns@.len() - i,
    {
        let pat = patterns[i].as_str();
        let m = if exact {
            str_equal(name, pat)
        } else {
            str_contains(name, pat)
        };
        if m {
            proof {
                assert(pattern_matches(name@, pats[i as int], exact));
            }
            return true;
        }
        i = i + 1;
    }
    false
}

/// Why a test case that needs root privileges is skipped.
pub open spec fn root_reason() -> Seq<char> {
    "requires root privileges"@
}

/// Why a test case that needs the features `missing` is skipped.
pub open spec fn features_reason(missing: Seq<FileSystemFeature>) -> Seq<char> {
    "requires features: "@ + join_spec(missing.map_values(|f: FileSystemFeature| feature_name(f)), ", "@)
}

/// The reasons given for skipping a test case: that it needs root privileges
/// the runner lacks, that it needs features the file system lacks, and the
/// errors of its guards.
pub open spec fn skip_reasons_spec(
    require_root: bool,
    is_root: bool,
    required: Seq<FileSystemFeature>,
    enabled: Seq<FileSystemFeature>,
    guard_failed: bool,
    guard_errors: Seq<Seq<char>>,
) -> Seq<Seq<char>> {
    let missing = missing_spec(required, enabled);
    let a: Seq<Seq<char>> = if require_root && !is_root {
        seq![root_reason()]
    } else {
        Seq::empty()
    };
    let b: Seq<Seq<char>> = if missing.len() > 0 {
        seq![features_reason(missing)]
    } else {
        Seq::empty()
    };
    let c: Seq<Seq<char>> = if guard_failed {
        guard_errors
    } else {
        Seq::empty()
    };
    a + b + c
}

/// Whether a test case is skipped, and why.
#[derive(Debug)]
pub struct SkipDecision {
    pub skip: bool,
    pub reasons: Vec<String>,
}

/// Decides whether a test case is skipped: when it needs root privileges and
/// the runner lacks them, when it needs features that are not enabled, or when
/// one of its guards failed. `guard_errors` are the errors its guards report.
pub fn skip_decision(
    require_root: bool,
    is_root: bool,
    required: &[FileSystemFeature],
    enabled: &[FileSystemFeature],
    guard_failed: bool,
    guard_errors: Vec<String>,
) -> (res: SkipDecision)
    ensures
        res.skip == ((require_root && !is_root) || missing_spec(required@, enabled@).len() > 0
            || guard_failed),
        res.skip <==> ((require_root && !is_root) || (exists|i: int|
            0 <= i < required@.len() && !enabled@.contains(#[trigger] required@[i])) || guard_failed),
        res.reasons@.map_values(|s: String| s@) == skip_reasons_spec(
            require_root,
            is_root,
            required@,
            enabled@,
            guard_failed,
            guard_errors@.map_values(|s: String| s@),
        ),
{
    let ghost missing_v = missing_spec(required@, enabled@);
    proof {
        lemma_missing_spec(required@, enabled@);
        if missing_v.len() > 0 {
            let x = missing_v[0];
            assert(missing_v.contains(x));
            let i = choose|i: int| 0 <= i < required@.len() && required@[i] == x;
            assert(!enabled@.contains(required@[i]));
        }
        if exists|i: int| 0 <= i < required@.len() && !enabled@.contains(#[trigger] required@[i]) {
            let i = choose|i: int| 0 <= i < required@.len() && !enabled@.contains(#[trigger] required@[i]);
            assert(required@.contains(required@[i]));
            assert(missing_v.contains(required@[i]));
        }
    }
    let mut skip = require_root && !is_root;
    let mut reasons: Vec<String> = Vec::new();
    if skip {
        reasons.push(String::from_str("requires root privileges"));
    }
    let missing = missing_features(required, enabled);
    if missing.len() > 0 {
        skip = true;
        let names = feature_names(&missing);
        let list = join(&names, ", ");
        let mut msg = String::from_str("requires features: ");
        msg.append(list.as_str());
        reasons.push(msg);
    }
    let ghost before = reasons@.map_values(|s: String| s@);
    let ghost errs = guard_errors@.map_values(|s: String| s@);
    if guard_failed {
        skip = true;
        let mut i: usize = 0;
        while i < guard_errors.len()
            invariant
                i <= guard_errors@.len(),
                errs == guard_errors@.map_values(|s: String| s@),
                reasons@.len() == before.len() + i,
                forall|k: int| 0 <= k < before.len() ==> #[trigger] reasons@[k]@ == before[k],
                forall|k: int| 0 <= k < i ==> #[trigger] reasons@[before.len() + k]@ == errs[k],
            decreases guard_errors@.len() - i,
        {
            reasons.push(guard_errors[i].clone());
            i = i + 1;
        }
        proof {
            let rv = reasons@.map_values(|s: String| s@);
            assert forall|k: int| 0 <= k < reasons@.len() implies #[trigger] rv[k] == (before + errs)[k] by {
                if k >= before.len() {
                    assert(reasons@[before.len() + (k - before.len())]@ == errs[k - before.len()]);
                }
            }
            assert(rv =~= before + errs);
        }
    }
    proof {
        let spec = skip_reasons_spec(require_root, is_root, required@, enabled@, guard_failed, errs);
        assert(reasons@.map_values(|s: String| s@) =~= spec);
    }
    SkipDecision { skip, reasons }
}

/// How a test case ended.
#[derive(Debug, Clone, Copy, PartialEq, Eq, Structural)]
pub enum CaseOutcome {
    Passed,
    Failed,
    Skipped,
}

/// How many outcomes of `history` are `o`.
pub open spec fn count_outcome(history: Seq<CaseOutcome>, o: CaseOutcome) -> nat
    decreases history.len(),
{
    if history.len() == 0 {
        0
    } else {
        count_outcome(history.drop_last(), o) + if history.last() == o {
            1nat
        } else {
            0nat
        }
    }
}

/// Every outcome is counted under exactly one kind.
pub proof fn lemma_counts_sum(history: Seq<CaseOutcome>)
    ensures
        count_outcome(history, CaseOutcome::Failed) + count_outcome(history, CaseOutcome::Skipped)
            + count_outcome(history, CaseOutcome::Passed) == history.len(),
    decreases history.len(),
{
    if history.len() > 0 {
        lemma_counts_sum(history.drop_last());
    }
}

/// The tally of the outcomes of the test cases run so far.
pub struct RunTally {
    failed: usize,
    skipped: usize,
    succeeded: usize,
    history: Ghost<Seq<CaseOutcome>>,
}

impl RunTally {
    /// The outcomes recorded so far, in order.
    pub closed spec fn history(&self) -> Seq<CaseOutcome> {
        self.history@
    }

    /// The counts agree with the outcomes recorded, and their sum fits in a `usize`.
    #[verifier::type_invariant]
    spec fn wf(&self) -> bool {
        &&& self.failed == count_outcome(self.history@, CaseOutcome::Failed)
        &&& self.skipped == count_outcome(self.history@, CaseOutcome::Skipped)
        &&& self.succeeded == count_outcome(self.history@, CaseOutcome::Passed)
        &&& self.history@.len() <= usize::MAX
    }

    /// A tally with nothing recorded.
    pub fn new() -> (res: RunTally)
        ensures
            res.history() == Seq::<CaseOutcome>::empty(),
    {
        RunTally { failed: 0, skipped: 0, succeeded: 0, history: Ghost(Seq::empty()) }
    }

    /// Records the outcome of one more test case.
    pub fn record(&mut self, outcome: CaseOutcome)
        requires
            old(self).history().len() < usize::MAX,
        ensures
            final(self).history() == old(self).history().push(outcome),
    {
        proof {
            use_type_invariant(&*self);
            lemma_counts_sum(self.history@);
        }
        let ghost h = self.history@.push(outcome);
        proof {
            assert(h.drop_last() =~= self.history@);
        }
        let (failed, skipped, succeeded) = match outcome {
            CaseOutcome::Failed => (self.failed + 1, self.skipped, self.succeeded),
            CaseOutcome::Skipped => (self.failed, self.skipped + 1, self.succeeded),
            CaseOutcome::Passed => (self.failed, self.skipped, self.succeeded + 1),
        };
        *self = RunTally { failed, skipped, succeeded, history: Ghost(h) };
    }

    /// How many test cases failed.
    pub fn failed(&self) -> (res: usize)
        ensures
            res == count_outcome(self.history(), CaseOutcome::Failed),
    {
        proof {
            use_type_invariant(self);
        }
        self.failed
    }

    /// How many test cases were skipped.
    pub fn skipped(&self) -> (res: usize)
        ensures
            res == count_outcome(self.history(), CaseOutcome::Skipped),
    {
        proof {
            use_type_invariant(self);
        }
        self.skipped
    }

    /// How many test cases passed.
    pub fn succeeded(&self) -> (res: usize)
        ensures
            res == count_outcome(self.history(), CaseOutcome::Passed),
    {
        proof {
            use_type_invariant(self);
        }
        self.succeeded
    }

    /// How many test cases were recorded.
    pub fn total(&self) -> (res: usize)
        ensures
            res == self.history().len(),
    {
        proof {
            use_type_invariant(self);
            lemma_counts_sum(self.history@);
        }
        self.failed + self.skipped + self.succeeded
    }

    /// The run fails when some test case failed.
    pub fn has_failures(&self) -> (res: bool)
        ensures
            res == (count_outcome(self.history(), CaseOutcome::Failed) > 0),
    {
        proof {
            use_type_invariant(self);
        }
        self.failed > 0
    }
}

/// Recording an outcome adds one to the count of its kind and leaves the
/// other counts as they were.
pub proof fn lemma_record_counts(history: Seq<CaseOutcome>, o: CaseOutcome, k: CaseOutcome)
    ensures
        count_outcome(history.push(o), k) == count_outcome(history, k) + if o == k {
            1nat
        } else {
            0nat
        },
{
    assert(history.push(o).drop_last() =~= history);
}

/// Runs one test case: a skipped case is counted as skipped and `run` is not
/// called; otherwise `run` runs the case and tells whether it passed, and the
/// case is counted as passed or failed accordingly. Each case is counted once.
pub fn run_case<F: FnOnce() -> bool>(tally: &mut RunTally, decision: &SkipDecision, run: F) -> (res: CaseOutcome)
    requires
        old(tally).history().len() < usize::MAX,
        !decision.skip ==> call_requires(run, ()),
    ensures
        final(tally).history() == old(tally).history().push(res),
        decision.skip ==> res == CaseOutcome::Skipped,
        !decision.skip ==> exists|passed: bool|
            call_ensures(run, (), passed) && res == if passed {
                CaseOutcome::Passed
            } else {
                CaseOutcome::Failed
            },
{
    let outcome = if decision.skip {
        CaseOutcome::Skipped
    } else {
        let passed = run();
        if passed {
            CaseOutcome::Passed
        } else {
            CaseOutcome::Failed
        }
    };
    tally.record(outcome);
    outcome
}

/// A test case that needs a feature the configuration does not enable is
/// skipped, whatever else holds of it, and running it adds one to the count
/// of skipped cases and leaves the counts of passed and failed ones as they
/// were.
pub proof fn lemma_missing_feature_skipped(
    require_root: bool,
    is_root: bool,
    required: Seq<FileSystemFeature>,
    enabled: Seq<FileSystemFeature>,
    guard_failed: bool,
    f: FileSystemFeature,
    history: Seq<CaseOutcome>,
)
    requires
        required.contains(f),
        !enabled.contains(f),
    ensures
        (require_root && !is_root) || missing_spec(required, enabled).len() > 0 || guard_failed,
        count_outcome(history.push(CaseOutcome::Skipped), CaseOutcome::Skipped) == count_outcome(
            history,
            CaseOutcome::Skipped,
        ) + 1,
        count_outcome(history.push(CaseOutcome::Skipped), CaseOutcome::Passed) == count_outcome(
            history,
            CaseOutcome::Passed,
        ),
        count_outcome(history.push(CaseOutcome::Skipped), CaseOutcome::Failed) == count_outcome(
            history,
            CaseOutcome::Failed,
        ),
{
    lemma_missing_spec(required, enabled);
    assert(missing_spec(required, enabled).contains(f));
    lemma_record_counts(history, CaseOutcome::Skipped, CaseOutcome::Skipped);
    lemma_record_counts(history, CaseOutcome::Skipped, CaseOutcome::Passed);
    lemma_record_counts(history, CaseOutcome::Skipped, CaseOutcome::Failed);
}

} // verus!
