use vstd::prelude::*;

use crate::error::AgentError;
use crate::retry::{is_run, next_step, prompt_at, Reply, Step};

verus! {

#[verifier::external_type_specification]
#[verifier::external_body]
pub struct ExJsonError(serde_json::Error);

/// Relies on `serde_json::from_str`: decodes JSON text into a `T`, or reports
/// why it could not. Whether it succeeds depends on `T`'s `Deserialize` impl,
/// so nothing is stated of the outcome.
#[verifier::external_body]
fn decode<T: serde::de::DeserializeOwned>(text: &str) -> (r: Result<T, serde_json::Error>) {
    serde_json::from_str::<T>(text)
}

/// Turns a prompt and a caller-supplied context into response text, or fails
/// with a human-readable message.
pub trait ModelClient<Deps> {
    fn complete(&self, prompt: &str, deps: &Deps) -> Result<String, String>;
}

/// Sends prompts to a completion capability and decodes the replies into
/// `Output`, retrying with a reflection prompt after each decoding failure.
pub struct Agent<Deps, Output, Model> {
    model: Model,
    max_retries: usize,
    _marker: core::marker::PhantomData<(Deps, Output)>,
}

impl<Deps, Output, Model> Agent<Deps, Output, Model> where
    Output: serde::de::DeserializeOwned + schemars::JsonSchema,
    Model: ModelClient<Deps>,
 {
    /// The retry budget: how many attempts may follow the first.
    pub closed spec fn budget(&self) -> nat {
        self.max_retries as nat
    }

    /// The completion capability the agent sends its prompts to.
    pub closed spec fn model(&self) -> Model {
        self.model
    }

    /// The budget leaves room to count every attempt.
    pub closed spec fn wf(&self) -> bool {
        self.max_retries < usize::MAX
    }

    /// An agent over `model` with the default retry budget of 2.
    pub fn new(model: Model) -> (r: Self)
        ensures
            r.budget() == 2,
            r.model() == model,
            r.wf(),
    {
        Agent { model, max_retries: 2, _marker: core::marker::PhantomData }
    }

    /// This agent with its retry budget set to `max_retries`.
    pub fn with_max_retries(self, max_retries: usize) -> (r: Self)
        requires
            max_retries < usize::MAX,
        ensures
            r.budget() == max_retries,
            r.model() == self.model(),
            r.wf(),
    {
        let mut this = self;
        this.max_retries = max_retries;
        this
    }

    /// The schema document of the output type.
    pub fn output_schema() -> schemars::schema::RootSchema {
        crate::schema::schema_of::<Output>()
    }

    /// Runs `prompt` with context `deps`: at most `budget() + 1` attempts, each
    /// a call of the completion capability followed by decoding its text.
    pub fn run(&self, prompt: &str, deps: &Deps) -> (r: Result<Output, AgentError>)
        requires
            self.wf(),
        ensures
            exists|prompts: Seq<Seq<char>>, replies: Seq<Reply<Output>>|
                is_run(prompt@, self.budget(), prompts, replies, r),
    {
        let mut current = prompt.to_owned();
        let mut attempt: usize = 0;
        let ghost mut prompts: Seq<Seq<char>> = seq![];
        let ghost mut replies: Seq<Reply<Output>> = seq![];
        loop
            invariant
                self.wf(),
                attempt <= self.max_retries,
                prompts.len() == attempt,
                replies.len() == attempt,
                current@ == prompt_at(prompt@, replies, attempt as int),
                forall|i: int| 0 <= i < attempt ==> prompts[i] == prompt_at(prompt@, replies, i),
                forall|i: int| 0 <= i < attempt ==> replies[i] is Malformed,
            decreases self.max_retries - attempt,
        {
            let reply = match self.model.complete(current.as_str(), deps) {
                Err(message) => Reply::Unavailable(message),
                Ok(text) => match decode::<Output>(text.as_str()) {
                    Ok(value) => Reply::Parsed(value),
                    Err(e) => Reply::Malformed(e.to_string()),
                },
            };
            proof {
                prompts = prompts.push(current@);
                replies = replies.push(reply);
            }
            match next_step(prompt, self.max_retries, attempt, reply) {
                Step::Done(r) => {
                    assert(is_run(prompt@, self.budget(), prompts, replies, r));
                    return r;
                },
                Step::Retry(next) => {
                    current = next;
                    attempt = attempt + 1;
                },
            }
        }
    }
}

} // verus!
