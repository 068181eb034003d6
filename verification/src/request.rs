//! The request to draft a reply.

use vstd::prelude::*;
use vstd::string::*;

verus! {

/// What a `GenerateRequest` holds, as text.
pub struct GenerateRequestView {
    pub message: Seq<char>,
    pub thread_context: Option<Seq<char>>,
    pub sender_headline: Option<Seq<char>>,
}

/// A recruiter's latest message, with the conversation before it and the
/// sender's headline where they are known.
#[derive(Debug, PartialEq, Eq)]
pub struct GenerateRequest {
    pub message: String,
    pub thread_context: Option<String>,
    pub sender_headline: Option<String>,
}

/// The text of an optional field.
pub open spec fn field_view(field: Option<String>) -> Option<Seq<char>> {
    match field {
        Some(text) => Some(text@),
        None => None,
    }
}

impl View for GenerateRequest {
    type V = GenerateRequestView;

    open spec fn view(&self) -> GenerateRequestView {
        GenerateRequestView {
            message: self.message@,
            thread_context: field_view(self.thread_context),
            sender_headline: field_view(self.sender_headline),
        }
    }
}

/// The text of a field, empty where the field is absent.
pub open spec fn text_or_empty(field: Option<Seq<char>>) -> Seq<char> {
    match field {
        Some(text) => text,
        None => Seq::empty(),
    }
}

/// The text of a field, empty where the field is absent.
pub fn field_text(field: &Option<String>) -> (text: &str)
    ensures
        text@ == text_or_empty(field_view(*field)),
{
    proof {
        reveal_strlit("");
    }
    match field {
        Some(text) => text.as_str(),
        None => "",
    }
}

impl GenerateRequest {
    /// The request with these fields. No field is checked: a message that
    /// is absent is taken as the empty message, and is accepted like any
    /// other.
    pub fn new(
        message: Option<String>,
        thread_context: Option<String>,
        sender_headline: Option<String>,
    ) -> (request: GenerateRequest)
        ensures
            request@ == (GenerateRequestView {
                message: text_or_empty(field_view(message)),
                thread_context: field_view(thread_context),
                sender_headline: field_view(sender_headline),
            }),
    {
        let message = match message {
            Some(text) => text,
            None => String::new(),
        };
        GenerateRequest { message, thread_context, sender_headline }
    }
}

} // verus!
