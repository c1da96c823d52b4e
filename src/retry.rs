use vstd::prelude::*;
use vstd::string::*;

use crate::error::AgentError;

verus! {

/// What one completion attempt came to.
pub enum Reply<T> {
    /// The completion capability failed, with this message.
    Unavailable(String),
    /// The capability answered, but the text did not decode; the decoder's message.
    Malformed(String),
    /// The capability answered and the text decoded to this value.
    Parsed(T),
}

/// What the loop does after an attempt.
pub enum Step<T> {
    /// Try again with this prompt.
    Retry(String),
    /// The run is over, with this result.
    Done(Result<T, AgentError>),
}

/// The prompt sent after a failed decoding: the original prompt, a blank line,
/// a notice, the decoder's message and an instruction to return valid output.
pub open spec fn reflection_text(original: Seq<char>, error: Seq<char>) -> Seq<char> {
    original + "\n\nPrevious response did not match schema.\nValidation error: "@ + error
        + "\nReturn valid JSON only."@
}

/// The prompt of attempt `i` of a run that received `replies` so far.
pub open spec fn prompt_at<T>(original: Seq<char>, replies: Seq<Reply<T>>, i: int) -> Seq<char> {
    if i <= 0 {
        original
    } else {
        match replies[i - 1] {
            Reply::Malformed(e) => reflection_text(original, e@),
            _ => original,
        }
    }
}

/// The result of a run whose last attempt ended with `last`.
pub open spec fn outcome_of<T>(budget: nat, last: Reply<T>) -> Result<T, AgentError> {
    match last {
        Reply::Parsed(v) => Ok(v),
        Reply::Unavailable(m) => Err(AgentError::Model(m)),
        Reply::Malformed(m) => Err(AgentError::Validation { attempts: (budget + 1) as usize, message: m }),
    }
}

/// A run with retry budget `budget` on prompt `original` sent `prompts`, one per
/// attempt, received `replies` and ended with `result`: every attempt but the
/// last failed to decode, each prompt after the first reflects on the failure
/// before it, the run stopped at the first success or capability failure, and
/// it went on past a decoding failure exactly while budget was left.
pub open spec fn is_run<T>(
    original: Seq<char>,
    budget: nat,
    prompts: Seq<Seq<char>>,
    replies: Seq<Reply<T>>,
    result: Result<T, AgentError>,
) -> bool {
    &&& 1 <= replies.len() <= budget + 1
    &&& prompts.len() == replies.len()
    &&& forall|i: int| 0 <= i < prompts.len() ==> prompts[i] == prompt_at(original, replies, i)
    &&& forall|i: int| 0 <= i < replies.len() - 1 ==> replies[i] is Malformed
    &&& (replies.last() is Malformed ==> replies.len() == budget + 1)
    &&& result == outcome_of(budget, replies.last())
}

/// Builds the reflection prompt for `original` after the decoding failure `error`.
pub fn reflection_prompt(original: &str, error: &str) -> (r: String)
    ensures
        r@ == reflection_text(original@, error@),
{
    let r = String::from_str(original);
    let r = r.concat("\n\nPrevious response did not match schema.\nValidation error: ");
    let r = r.concat(error);
    r.concat("\nReturn valid JSON only.")
}

/// Decides what follows attempt `attempt` (counted from 0) of a run with retry
/// budget `budget` on prompt `original`, given what that attempt came to.
pub fn next_step<T>(original: &str, budget: usize, attempt: usize, reply: Reply<T>) -> (r: Step<T>)
    requires
        attempt <= budget < usize::MAX,
    ensures
        match reply {
            Reply::Malformed(m) => if attempt < budget {
                r is Retry && r->Retry_0@ == reflection_text(original@, m@)
            } else {
                r == Step::Done(outcome_of(budget as nat, reply))
            },
            _ => r == Step::Done(outcome_of(budget as nat, reply)),
        },
{
    match reply {
        Reply::Parsed(v) => Step::Done(Ok(v)),
        Reply::Unavailable(m) => Step::Done(Err(AgentError::Model(m))),
        Reply::Malformed(m) => {
            if attempt < budget {
                Step::Retry(reflection_prompt(original, m.as_str()))
            } else {
                Step::Done(Err(AgentError::Validation { attempts: budget + 1, message: m }))
            }
        },
    }
}

/// `text` occurs in `s` at some position.
pub open spec fn contains(s: Seq<char>, text: Seq<char>) -> bool {
    exists|k: int| 0 <= k && k + text.len() <= s.len() && #[trigger] s.subrange(k, k + text.len()) == text
}

/// A first reply that decodes ends the run at once, with that value.
pub proof fn lemma_first_reply_decodes<T>(
    original: Seq<char>,
    budget: nat,
    prompts: Seq<Seq<char>>,
    replies: Seq<Reply<T>>,
    result: Result<T, AgentError>,
)
    requires
        is_run(original, budget, prompts, replies, result),
        replies[0] is Parsed,
    ensures
        replies.len() == 1,
        result == Ok::<T, AgentError>(replies[0]->Parsed_0),
{
}

/// If the capability's first `k` replies (`k <= budget`) fail to decode and
/// the next one decodes, the run makes exactly `k + 1` calls and returns the
/// value of the last. `script` is what the capability answers, call by call.
pub proof fn lemma_success_after_failures<T>(
    original: Seq<char>,
    budget: nat,
    prompts: Seq<Seq<char>>,
    replies: Seq<Reply<T>>,
    result: Result<T, AgentError>,
    script: Seq<Reply<T>>,
    k: nat,
)
    requires
        is_run(original, budget, prompts, replies, result),
        k <= budget,
        k < script.len(),
        forall|i: int| 0 <= i < replies.len() && i < script.len() ==> replies[i] == script[i],
        forall|i: int| 0 <= i < k ==> script[i] is Malformed,
        script[k as int] is Parsed,
    ensures
        replies.len() == k + 1,
        result == Ok::<T, AgentError>(script[k as int]->Parsed_0),
{
    if replies.len() <= k {
        assert(replies[replies.len() - 1] == script[replies.len() - 1]);
    }
    assert(replies[k as int] == script[k as int]);
}

/// If no reply decodes and the capability never fails, the run makes exactly
/// `budget + 1` calls and reports a validation failure with that many attempts
/// and the last decoder message.
pub proof fn lemma_all_replies_malformed<T>(
    original: Seq<char>,
    budget: nat,
    prompts: Seq<Seq<char>>,
    replies: Seq<Reply<T>>,
    result: Result<T, AgentError>,
)
    requires
        is_run(original, budget, prompts, replies, result),
        forall|i: int| 0 <= i < replies.len() ==> replies[i] is Malformed,
    ensures
        replies.len() == budget + 1,
        result == Err::<T, AgentError>(
            AgentError::Validation {
                attempts: (budget + 1) as usize,
                message: replies.last()->Malformed_0,
            },
        ),
{
}

/// A failure of the capability ends the run at that call, whatever budget is
/// left, with a model error that carries the capability's message.
pub proof fn lemma_capability_failure_stops<T>(
    original: Seq<char>,
    budget: nat,
    prompts: Seq<Seq<char>>,
    replies: Seq<Reply<T>>,
    result: Result<T, AgentError>,
    j: int,
)
    requires
        is_run(original, budget, prompts, replies, result),
        0 <= j < replies.len(),
        replies[j] is Unavailable,
    ensures
        j == replies.len() - 1,
        result == Err::<T, AgentError>(AgentError::Model(replies[j]->Unavailable_0)),
{
}

/// Every prompt after the first starts with the original prompt and holds the
/// decoder message of the attempt before it and the instruction to return
/// valid output only.
pub proof fn lemma_reflection_keeps_original<T>(
    original: Seq<char>,
    budget: nat,
    prompts: Seq<Seq<char>>,
    replies: Seq<Reply<T>>,
    result: Result<T, AgentError>,
    i: int,
)
    requires
        is_run(original, budget, prompts, replies, result),
        0 < i < prompts.len(),
    ensures
        replies[i - 1] is Malformed,
        prompts[i].subrange(0, original.len() as int) == original,
        contains(prompts[i], replies[i - 1]->Malformed_0@),
        contains(prompts[i], "\nReturn valid JSON only."@),
{
    let p = prompts[i];
    let e = replies[i - 1]->Malformed_0@;
    let notice = "\n\nPrevious response did not match schema.\nValidation error: "@;
    let instruction = "\nReturn valid JSON only."@;
    assert(p == original + notice + e + instruction);
    assert(p.subrange(0, original.len() as int) =~= original);
    let k1: int = (original.len() + notice.len()) as int;
    assert(p.subrange(k1, k1 + e.len()) =~= e);
    let k2: int = k1 + e.len() as int;
    assert(p.subrange(k2, k2 + instruction.len()) =~= instruction);
}

} // verus!
