//! Ensemble transcription bookkeeping: which provider calls count as
//! successes, the labelled raw record kept for history, and the decision
//! between the single-result polish path and the fusion path.

use vstd::prelude::*;
use crate::text::{trim_spec, trim_chars, str_to_chars, chars_to_string};

verus! {

/// The fixed per-provider timeout of an ensemble run, in seconds: each
/// call proceeds independently under it, and the run waits for all of them.
pub const PROVIDER_TIMEOUT_SECS: u64 = 30;

/// One provider's successful transcription.
#[derive(Clone, Debug)]
pub struct ProviderResult {
    /// Provider name, e.g. "OpenAI", "Groq", "Gladia".
    pub provider: String,
    /// The transcribed text, trimmed.
    pub text: String,
    /// How long the call took, in milliseconds.
    pub latency_ms: u64,
}

/// The ghost image of a `ProviderResult`: provider name, text, latency.
pub type ProviderResultSpec = (Seq<char>, Seq<char>, u64);

/// The view of a `ProviderResult`.
pub open spec fn result_view(r: ProviderResult) -> ProviderResultSpec {
    (r.provider@, r.text@, r.latency_ms)
}

/// The view of a result list.
pub open spec fn results_view(rs: Seq<ProviderResult>) -> Seq<ProviderResultSpec> {
    rs.map_values(|r: ProviderResult| result_view(r))
}

/// What one provider's call within the ensemble came to.
#[derive(Clone, Debug)]
pub enum ProviderOutcome {
    /// The call returned within its timeout; the payload is its text.
    Completed { text: String },
    /// The call returned an error.
    Failed,
    /// The call outran the per-provider timeout.
    TimedOut,
}

/// One provider's attempt: who was called, what came back, how long it took.
#[derive(Clone, Debug)]
pub struct ProviderAttempt {
    pub provider: String,
    pub outcome: ProviderOutcome,
    pub latency_ms: u64,
}

/// Whether an attempt counts as a success: it completed, and its trimmed
/// text is non-empty. Timeouts, errors and blank results are excluded and
/// never fail the ensemble by themselves.
pub open spec fn attempt_succeeded(a: ProviderAttempt) -> bool {
    match a.outcome {
        ProviderOutcome::Completed { text } => trim_spec(text@).len() > 0,
        _ => false,
    }
}

/// The successes among a list of attempts, in order, with their texts
/// trimmed.
pub open spec fn successes_of(s: Seq<ProviderAttempt>) -> Seq<ProviderResultSpec>
    decreases s.len(),
{
    if s.len() == 0 {
        Seq::empty()
    } else {
        successes_of(s.drop_last()) + (if attempt_succeeded(s.last()) {
            seq![
                (
                    s.last().provider@,
                    trim_spec(
                        match s.last().outcome {
                            ProviderOutcome::Completed { text } => text@,
                            _ => Seq::empty(),
                        },
                    ),
                    s.last().latency_ms,
                ),
            ]
        } else {
            Seq::<ProviderResultSpec>::empty()
        })
    }
}

/// Keeps the attempts that succeeded, as provider results with trimmed
/// texts, in the order the attempts were given.
pub fn collect_successes(attempts: Vec<ProviderAttempt>) -> (r: Vec<ProviderResult>)
    ensures
        results_view(r@) == successes_of(attempts@),
{
    let ghost s = attempts@;
    let mut rest = attempts;
    let mut out: Vec<ProviderResult> = Vec::new();
    proof {
        assert(results_view(out@) =~= Seq::<ProviderResultSpec>::empty());
        assert(successes_of(Seq::<ProviderAttempt>::empty()) =~= Seq::<
            ProviderResultSpec,
        >::empty());
        assert(s.subrange(0, 0) =~= Seq::<ProviderAttempt>::empty());
    }
    while rest.len() > 0
        invariant
            rest@.len() <= s.len(),
            rest@ =~= s.subrange(s.len() - rest@.len(), s.len() as int),
            results_view(out@) == successes_of(s.subrange(0, s.len() - rest@.len())),
        decreases rest@.len(),
    {
        let ghost p = s.len() - rest@.len();
        let a = rest.remove(0);
        proof {
            assert(a == s[p]);
            assert(rest@ =~= s.subrange(p + 1, s.len() as int));
            let next = s.subrange(0, p + 1);
            assert(next.drop_last() =~= s.subrange(0, p));
            assert(next.last() == s[p]);
        }
        let ghost av = a;
        let ghost prev = out@;
        match a.outcome {
            ProviderOutcome::Completed { text } => {
                let chars = str_to_chars(text.as_str());
                let trimmed = trim_chars(&chars);
                if trimmed.len() > 0 {
                    let res = ProviderResult {
                        provider: a.provider,
                        text: chars_to_string(&trimmed),
                        latency_ms: a.latency_ms,
                    };
                    let ghost rv = res;
                    out.push(res);
                    proof {
                        assert(attempt_succeeded(av));
                        assert(out@ == prev.push(rv));
                        lemma_results_view_push(prev, rv);
                        assert(results_view(out@) =~= successes_of(s.subrange(0, p + 1)));
                    }
                } else {
                    proof {
                        assert(!attempt_succeeded(av));
                        assert(results_view(out@) + Seq::<ProviderResultSpec>::empty()
                            =~= results_view(out@));
                    }
                }
            },
            ProviderOutcome::Failed => {
                proof {
                    assert(!attempt_succeeded(av));
                    assert(results_view(out@) + Seq::<ProviderResultSpec>::empty() =~= results_view(
                        out@,
                    ));
                }
            },
            ProviderOutcome::TimedOut => {
                proof {
                    assert(!attempt_succeeded(av));
                    assert(results_view(out@) + Seq::<ProviderResultSpec>::empty() =~= results_view(
                        out@,
                    ));
                }
            },
        }
    }
    proof {
        assert(s.subrange(0, s.len() as int) =~= s);
    }
    out
}

proof fn lemma_results_view_push(s: Seq<ProviderResult>, r: ProviderResult)
    ensures
        results_view(s.push(r)) =~= results_view(s).push(result_view(r)),
{
}

/// The provider-labelled raw record kept for history: one "[provider]: text"
/// block per success, separated by blank lines.
pub open spec fn raw_label(r: ProviderResultSpec) -> Seq<char> {
    "["@ + r.0 + "]: "@ + r.1
}

/// The joined raw record of a result list.
pub open spec fn raw_record_spec(rs: Seq<ProviderResultSpec>) -> Seq<char>
    decreases rs.len(),
{
    if rs.len() == 0 {
        Seq::empty()
    } else if rs.len() == 1 {
        raw_label(rs[0])
    } else {
        raw_record_spec(rs.drop_last()) + "\n\n"@ + raw_label(rs.last())
    }
}

/// Builds the provider-labelled raw record of a result list.
pub fn raw_record(results: &Vec<ProviderResult>) -> (r: String)
    ensures
        r@ == raw_record_spec(results_view(results@)),
{
    let ghost rv = results_view(results@);
    let mut out = String::new();
    let mut i: usize = 0;
    proof {
        assert(rv.subrange(0, 0) =~= Seq::<ProviderResultSpec>::empty());
        assert(out@ =~= raw_record_spec(rv.subrange(0, 0)));
        assert(rv.len() == results@.len());
    }
    while i < results.len()
        invariant
            i <= results@.len(),
            rv == results_view(results@),
            rv.len() == results@.len(),
            out@ == raw_record_spec(rv.subrange(0, i as int)),
        decreases results@.len() - i,
    {
        proof {
            assert(rv[i as int] == result_view(results@[i as int]));
        }
        if i > 0 {
            out.append("\n\n");
        }
        out.append("[");
        out.append(results[i].provider.as_str());
        out.append("]: ");
        out.append(results[i].text.as_str());
        proof {
            let next = rv.subrange(0, i + 1);
            assert(next.drop_last() =~= rv.subrange(0, i as int));
            assert(next.last() == rv[i as int]);
            assert(out@ =~= raw_record_spec(next));
        }
        i = i + 1;
    }
    proof {
        assert(rv.subrange(0, rv.len() as int) =~= rv);
    }
    out
}

/// Which downstream path an ensemble run takes.
#[derive(Clone, Debug)]
pub enum EnsemblePlan {
    /// No provider succeeded: the run fails.
    AllFailed,
    /// Exactly one provider succeeded: no fusion; only the polish path runs
    /// on that single text, as in single-provider mode.
    PolishSingle { text: String, raw_record: String },
    /// Two or more providers succeeded: fusion runs exactly once, over all
    /// of them.
    Fuse { results: Vec<ProviderResult>, raw_record: String },
}

/// Decides the downstream path from the collected successes: none fails the
/// run, one skips fusion and goes to polish, two or more are fused.
pub fn plan_ensemble(results: Vec<ProviderResult>) -> (p: EnsemblePlan)
    ensures
        results@.len() == 0 ==> p is AllFailed,
        results@.len() == 1 ==> (p matches EnsemblePlan::PolishSingle { text, raw_record }
            && text@ == results@[0].text@ && raw_record@ == raw_record_spec(
            results_view(results@),
        )),
        results@.len() >= 2 ==> (p matches EnsemblePlan::Fuse { results: rs, raw_record }
            && results_view(rs@) == results_view(results@) && raw_record@ == raw_record_spec(
            results_view(results@),
        )),
{
    if results.len() == 0 {
        return EnsemblePlan::AllFailed;
    }
    let record = raw_record(&results);
    if results.len() == 1 {
        let text = results[0].text.clone();
        EnsemblePlan::PolishSingle { text, raw_record: record }
    } else {
        EnsemblePlan::Fuse { results, raw_record: record }
    }
}

} // verus!
