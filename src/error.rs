use vstd::prelude::*;
use vstd::string::*;

verus! {

/// The decimal digit for `d` (`d < 10`).
pub open spec fn digit_char(d: nat) -> char {
    if d == 0 { '0' }
    else if d == 1 { '1' }
    else if d == 2 { '2' }
    else if d == 3 { '3' }
    else if d == 4 { '4' }
    else if d == 5 { '5' }
    else if d == 6 { '6' }
    else if d == 7 { '7' }
    else if d == 8 { '8' }
    else { '9' }
}

/// `n` written in decimal, most significant digit first, without sign or padding.
pub open spec fn decimal(n: nat) -> Seq<char>
    decreases n,
{
    if n < 10 {
        seq![digit_char(n)]
    } else {
        decimal(n / 10).push(digit_char(n % 10))
    }
}

/// Relies on `usize`'s `Display` (through `ToString`): an unsigned integer is
/// written in decimal, most significant digit first, with no sign or padding.
#[verifier::external_body]
fn usize_to_decimal(n: usize) -> (r: String)
    ensures
        r@ == decimal(n as nat),
{
    n.to_string()
}

/// The two ways a run can fail.
#[derive(Debug, Clone, PartialEq, Eq)]
pub enum AgentError {
    /// The completion capability itself failed; its message, unchanged.
    Model(String),
    /// Every permitted attempt returned text that did not decode; the number of
    /// attempts made and the decoding failure of the last one.
    Validation { attempts: usize, message: String },
}

/// The human-readable text of an error, as a view.
pub open spec fn error_text(e: AgentError) -> Seq<char> {
    match e {
        AgentError::Model(message) => "model error: "@ + message@,
        AgentError::Validation { attempts, message } =>
            "validation failed after "@ + decimal(attempts as nat) + " attempts: "@ + message@,
    }
}

impl AgentError {
    /// The human-readable text of this error.
    pub fn render(&self) -> (r: String)
        ensures
            r@ == error_text(*self),
    {
        match self {
            AgentError::Model(message) => {
                let r = String::from_str("model error: ");
                r.concat(message.as_str())
            },
            AgentError::Validation { attempts, message } => {
                let r = String::from_str("validation failed after ");
                let count = usize_to_decimal(*attempts);
                let r = r.concat(count.as_str());
                let r = r.concat(" attempts: ");
                r.concat(message.as_str())
            },
        }
    }
}

} // verus!
