//! What goes to the generation service and what comes back from it.

use vstd::prelude::*;
use vstd::string::*;
use crate::config::ServerConfig;
use crate::prompt::{compose_prompt, prompt_text};
use crate::request::GenerateRequest;

verus! {

/// Where the generation service takes requests.
pub const ENDPOINT: &'static str = "http://localhost:11434/api/generate";

/// The model that writes every reply.
pub const MODEL: &'static str = "llama3";

/// What a `GenerationBackendRequest` holds.
pub struct GenerationBackendRequestView {
    pub model: Seq<char>,
    pub prompt: Seq<char>,
    pub stream: bool,
}

/// A request to the generation service. Every one names `MODEL` and asks
/// for the whole answer at once, not for a stream.
#[derive(Debug, PartialEq, Eq)]
pub struct GenerationBackendRequest {
    model: String,
    prompt: String,
    stream: bool,
}

impl View for GenerationBackendRequest {
    type V = GenerationBackendRequestView;

    closed spec fn view(&self) -> GenerationBackendRequestView {
        GenerationBackendRequestView {
            model: self.model@,
            prompt: self.prompt@,
            stream: self.stream,
        }
    }
}

impl GenerationBackendRequest {
    #[verifier::type_invariant]
    spec fn well_formed(self) -> bool {
        &&& self.model@ == MODEL@
        &&& !self.stream
    }

    /// The request to send for `request` under `config`: its prompt, for
    /// `MODEL`, not streamed.
    pub fn new(config: &ServerConfig, request: &GenerateRequest) -> (outgoing: Self)
        ensures
            outgoing@ == (GenerationBackendRequestView {
                model: MODEL@,
                prompt: prompt_text(config@, request@),
                stream: false,
            }),
    {
        GenerationBackendRequest {
            model: String::from_str(MODEL),
            prompt: compose_prompt(config, request),
            stream: false,
        }
    }

    /// The model asked, which is `MODEL`.
    pub fn model(&self) -> (name: &str)
        ensures
            name@ == self@.model,
            name@ == MODEL@,
    {
        proof {
            use_type_invariant(self);
        }
        self.model.as_str()
    }

    /// The prompt.
    pub fn prompt(&self) -> (text: &str)
        ensures
            text@ == self@.prompt,
    {
        self.prompt.as_str()
    }

    /// Whether the answer is to be streamed, which it never is.
    pub fn stream(&self) -> (streamed: bool)
        ensures
            streamed == self@.stream,
            !streamed,
    {
        proof {
            use_type_invariant(self);
        }
        self.stream
    }

    /// The model, the prompt and whether to stream, in this order.
    pub fn into_parts(self) -> (parts: (String, String, bool))
        ensures
            parts.0@ == self@.model,
            parts.1@ == self@.prompt,
            parts.2 == self@.stream,
            parts.0@ == MODEL@,
            !parts.2,
    {
        proof {
            use_type_invariant(&self);
        }
        (self.model, self.prompt, self.stream)
    }
}

/// What the generation service answers: the text it wrote, which may have
/// white space around it.
#[derive(Debug, PartialEq, Eq)]
pub struct GenerationBackendResponse {
    pub response: String,
}

} // verus!
