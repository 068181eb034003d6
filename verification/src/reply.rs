//! The drafted reply and the reason that goes with it.

use vstd::prelude::*;
use vstd::string::*;
use crate::whitespace::{lemma_trimmed_idempotent, lemma_trimmed_of_tight, trim, trimmed};

verus! {

/// What the generation service answers, and nothing else, where the message
/// calls for no reply.
pub const SKIP_AUTOREPLY: &'static str = "SKIP_AUTOREPLY";

/// The reason given with a drafted reply.
pub const RECRUITER_MESSAGE: &'static str = "recruiter_message";

/// The reason given where no reply was drafted.
pub const NON_RECRUITER_OR_UNCLEAR: &'static str = "non_recruiter_or_unclear";

/// The reason that goes with `reply`.
pub open spec fn reason_for(reply: Seq<char>) -> Seq<char> {
    if reply == SKIP_AUTOREPLY@ {
        NON_RECRUITER_OR_UNCLEAR@
    } else {
        RECRUITER_MESSAGE@
    }
}

/// The reason says whether the reply is `SKIP_AUTOREPLY`: it is
/// `NON_RECRUITER_OR_UNCLEAR` for that reply and `RECRUITER_MESSAGE` for
/// every other, and the two differ.
pub proof fn lemma_reason_tells_skip(reply: Seq<char>)
    ensures
        reason_for(reply) == NON_RECRUITER_OR_UNCLEAR@ <==> reply == SKIP_AUTOREPLY@,
        reason_for(reply) == RECRUITER_MESSAGE@ <==> reply != SKIP_AUTOREPLY@,
{
    reveal_strlit("recruiter_message");
    reveal_strlit("non_recruiter_or_unclear");
    assert(RECRUITER_MESSAGE@.len() != NON_RECRUITER_OR_UNCLEAR@.len());
}

/// Whatever the generation service wrote, the reason drawn from it is
/// `NON_RECRUITER_OR_UNCLEAR` if and only if the reply, trimmed, is
/// `SKIP_AUTOREPLY`.
pub proof fn lemma_reason_of_generated(generated: Seq<char>)
    ensures
        reason_for(trimmed(generated)) == NON_RECRUITER_OR_UNCLEAR@ <==> trimmed(
            trimmed(generated),
        ) == SKIP_AUTOREPLY@,
{
    lemma_trimmed_idempotent(generated);
    lemma_reason_tells_skip(trimmed(generated));
}

/// What a `GenerateResponse` holds, as text.
pub struct GenerateResponseView {
    pub reply: Seq<char>,
    pub reason: Seq<char>,
}

/// The response for the text that the generation service wrote: the text
/// without the white space at either end, and the reason that goes with it.
pub open spec fn response_for(generated: Seq<char>) -> GenerateResponseView {
    GenerateResponseView { reply: trimmed(generated), reason: reason_for(trimmed(generated)) }
}

/// Where the generation service writes `SKIP_AUTOREPLY` and nothing else,
/// that is the reply, and the reason is `NON_RECRUITER_OR_UNCLEAR`.
pub proof fn lemma_skip_gives_no_reply()
    ensures
        response_for(SKIP_AUTOREPLY@) == (GenerateResponseView {
            reply: SKIP_AUTOREPLY@,
            reason: NON_RECRUITER_OR_UNCLEAR@,
        }),
{
    reveal_strlit("SKIP_AUTOREPLY");
    lemma_trimmed_of_tight(SKIP_AUTOREPLY@);
}

/// A drafted reply, or `SKIP_AUTOREPLY`, with its reason. The reply has no
/// white space at either end, and the reason is the one that goes with it.
#[derive(Debug, PartialEq, Eq)]
pub struct GenerateResponse {
    reply: String,
    reason: String,
}

impl View for GenerateResponse {
    type V = GenerateResponseView;

    closed spec fn view(&self) -> GenerateResponseView {
        GenerateResponseView { reply: self.reply@, reason: self.reason@ }
    }
}

impl GenerateResponse {
    #[verifier::type_invariant]
    spec fn well_formed(self) -> bool {
        &&& trimmed(self.reply@) == self.reply@
        &&& self.reason@ == reason_for(self.reply@)
    }

    /// The response for the text that the generation service wrote. Its
    /// reason is `NON_RECRUITER_OR_UNCLEAR` if and only if its reply,
    /// trimmed, is `SKIP_AUTOREPLY`.
    pub fn from_generated(generated: &str) -> (response: GenerateResponse)
        ensures
            response@ == response_for(generated@),
            response@.reason == NON_RECRUITER_OR_UNCLEAR@ <==> trimmed(response@.reply)
                == SKIP_AUTOREPLY@,
    {
        let reply = String::from_str(trim(generated));
        let skip = String::from_str(SKIP_AUTOREPLY);
        let reason = if reply == skip {
            String::from_str(NON_RECRUITER_OR_UNCLEAR)
        } else {
            String::from_str(RECRUITER_MESSAGE)
        };
        proof {
            lemma_trimmed_idempotent(generated@);
            lemma_reason_tells_skip(reply@);
        }
        GenerateResponse { reply, reason }
    }

    /// The drafted reply.
    pub fn reply(&self) -> (text: &str)
        ensures
            text@ == self@.reply,
            trimmed(text@) == text@,
    {
        proof {
            use_type_invariant(self);
        }
        self.reply.as_str()
    }

    /// The reason, which is the one that goes with the reply.
    pub fn reason(&self) -> (text: &str)
        ensures
            text@ == self@.reason,
            text@ == reason_for(self@.reply),
    {
        proof {
            use_type_invariant(self);
        }
        self.reason.as_str()
    }

    /// The reply and the reason, in this order.
    pub fn into_parts(self) -> (parts: (String, String))
        ensures
            parts.0@ == self@.reply,
            parts.1@ == self@.reason,
            parts.1@ == reason_for(parts.0@),
    {
        proof {
            use_type_invariant(&self);
        }
        (self.reply, self.reason)
    }
}

} // verus!
