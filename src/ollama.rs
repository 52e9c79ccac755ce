use vstd::prelude::*;

use crate::text::{contains, occurs_in, push_str};

verus! {

/// What one chunk of a streamed reply to a generate request held: the error
/// message and the response text, each where the chunk had one.
pub struct GenerateChunk {
    pub error: Option<String>,
    pub response: Option<String>,
}

/// What to do after a chunk of a generate reply.
#[derive(Debug)]
pub enum GenerateStep {
    /// Read the next chunk.
    Continue,
    /// The model is missing: pull it, then read on.
    Pull,
    /// The server refused; give up with its message.
    Fail(String),
}

/// The error by which the server asks for the model to be pulled.
pub open spec fn asks_for_pull(error: Seq<char>) -> bool {
    occurs_in("try pulling it first"@, error)
}

/// Takes one chunk of a generate reply: an error asking for the model to be
/// pulled gives `Pull`, any other error gives `Fail` with its message, and
/// otherwise the response text, if any, is appended to `text`.
pub fn on_generate_chunk(text: &mut String, chunk: GenerateChunk) -> (r: GenerateStep)
    ensures
        match chunk.error {
            Some(e) => if asks_for_pull(e@) {
                r is Pull
            } else {
                r matches GenerateStep::Fail(m) && m@ == e@
            },
            None => r is Continue,
        },
        !(r is Fail) ==> match chunk.response {
            Some(t) => final(text)@ == old(text)@ + t@,
            None => final(text)@ == old(text)@,
        },
        r is Fail ==> final(text)@ == old(text)@,
{
    let mut step = GenerateStep::Continue;
    if let Some(error) = chunk.error {
        proof {
            reveal_strlit("try pulling it first");
        }
        if contains(error.as_str(), "try pulling it first") {
            step = GenerateStep::Pull;
        } else {
            return GenerateStep::Fail(error);
        }
    }
    if let Some(response) = chunk.response {
        push_str(text, response.as_str());
    }
    step
}

/// What to do after a status line of a pull reply.
#[derive(Debug, Clone, Copy, PartialEq, Eq, Structural)]
pub enum PullStep {
    /// The model is in place: ask again.
    Retry,
    /// The same status as before: say nothing.
    Skip,
    /// A new status: report it.
    Report,
}

/// Takes one status of a pull reply: `success` gives `Retry`, the status seen
/// last gives `Skip`, and any other status becomes the last one seen and
/// gives `Report`.
pub fn on_pull_status(last: &mut String, status: &String) -> (r: PullStep)
    ensures
        status@ == "success"@ ==> r == PullStep::Retry && final(last)@ == old(last)@,
        status@ != "success"@ && status@ == old(last)@ ==> r == PullStep::Skip && final(last)@
            == old(last)@,
        status@ != "success"@ && status@ != old(last)@ ==> r == PullStep::Report && final(last)@
            == status@,
{
    let success = "success".to_owned();
    proof {
        reveal_strlit("success");
    }
    if *status == success {
        PullStep::Retry
    } else if *status == *last {
        PullStep::Skip
    } else {
        *last = status.clone();
        PullStep::Report
    }
}

} // verus!
