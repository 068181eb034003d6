//! The prompt sent to the generation service: fixed instructions with the
//! user's details in them, then the resume, the profile and the request, each
//! in a section of its own.

use vstd::prelude::*;
use vstd::string::*;
use crate::config::{ServerConfig, ServerConfigView};
use crate::reply::SKIP_AUTOREPLY;
use crate::request::{field_text, text_or_empty, GenerateRequest, GenerateRequestView};

verus! {

/// The prompt opens by saying for whom the replies are drafted.
pub const INTRO: &'static str = "You are an assistant that drafts LinkedIn replies to recruiter messages on behalf of ";

/// Ends a sentence that ends a line.
pub const STOP: &'static str = ".\n";

/// The resume and the profile are the only source of truth.
pub const GROUNDING: &'static str = "Use the resume summary and LinkedIn About section below as the ONLY source of truth.\n\
    Never invent details (years of experience, current location, notice period, technologies, compensation, dates, or companies)\n\
    that are not clearly present in the resume/about text.\n\n\
    HARD RULES:\n";

/// Anything but a recruiter's message is answered with `SKIP_AUTOREPLY`.
pub const RULE_RECRUITERS_ONLY: &'static str = "- Reply ONLY if this is clearly a recruiter or hiring-related message. If not, reply exactly with: ";

/// The reply is written in the first person, as the user.
pub const RULE_FIRST_PERSON: &'static str = "- Always write in first person as ";

/// The recruiter is greeted by name only where the message shows the name.
pub const RULE_GREETING: &'static str = "- Address the recruiter by their first name ONLY if it is clearly visible in the message; otherwise start with a generic\n\
    greeting like 'Hi' or 'Hi there' and NEVER guess or fabricate a name.\n";

/// What to say about relocation.
pub const RULE_RELOCATION: &'static str = "- When relocation is mentioned:\n\
    - If the role/location appears to be in India, talk only about being open to opportunities within India.\n\
    - Only mention being open to relocating outside India if the recruiter explicitly talks about roles or locations outside India.\n\
    - NEVER say that the user is not willing to relocate.\n";

/// Compensation is left to a call; the phone number follows.
pub const RULE_COMPENSATION: &'static str = "- If asked about current or expected CTC/salary/compensation, do NOT provide exact numbers and do NOT say it is confidential.\n\
    Instead say something like: \"I'm happy to discuss compensation expectations over a call (";

/// What follows the phone number.
pub const RULE_COMPENSATION_END: &'static str = ") once we've aligned on the role and responsibilities.\"\n";

/// The resume is shared as a link; the link follows.
pub const RULE_RESUME: &'static str = "- If the recruiter asks for a CV/resume or it is relevant to share, include this exact sentence once in the reply:\n\
    \"You can find my resume here: ";

/// What follows the resume link.
pub const RULE_RESUME_END: &'static str = "\".\n\
    Do NOT say that a resume is attached; always point to this link instead.\n";

/// The notice period gets one sentence at most.
pub const RULE_NOTICE_PERIOD: &'static str = "- If the recruiter asks about notice period or LWD, you may mention it briefly in ONE sentence, but do not over-explain.\n";

/// The layout of the reply, up to the name that closes it.
pub const RULE_FORMAT: &'static str = "- FORMAT STRICTLY AS FOLLOWS:\n\
    1) Greeting line (e.g., \"Hi <name>,\").\n\
    2) Blank line.\n\
    3) 1â€“2 short paragraphs, each separated by a blank line, no wall of text.\n\
    4) Closing line (e.g., \"Best regards,\\n";

/// The rest of the layout rules.
pub const RULE_FORMAT_END: &'static str = "\").\n\
    Use \"\\n\\n\" between paragraphs so the message is easy to read in LinkedIn.\n\
    Do NOT wrap the reply in quotes, backticks, Markdown, or code blocks.\n\
    Do NOT prefix the reply with any explanation or label such as\n\
    \"Here is the draft LinkedIn reply:\", \"Answer:\", or similar.\n\
    The first characters of your output MUST be the greeting itself (e.g., \"Hi ...,\").\n\n";

/// Starts the line that names a section.
pub const SECTION_OPEN: &'static str = "=== ";

/// Ends the line that names a section.
pub const SECTION_CLOSE: &'static str = " ===\n";

/// The blank line after a section.
pub const SECTION_END: &'static str = "\n\n";

/// The section that holds the resume summary.
pub const RESUME_SECTION: &'static str = "RESUME SUMMARY";

/// The section that holds the profile text.
pub const PROFILE_SECTION: &'static str = "LINKEDIN ABOUT";

/// The section that holds the sender's headline.
pub const HEADLINE_SECTION: &'static str = "SENDER HEADLINE";

/// The section that holds the conversation so far.
pub const THREAD_SECTION: &'static str = "THREAD CONTEXT";

/// The section that holds the message to answer.
pub const MESSAGE_SECTION: &'static str = "LATEST MESSAGE";

/// The last line, up to the word for "no reply".
pub const CLOSING: &'static str = "Write only the reply text (or ";

/// The end of the last line.
pub const CLOSING_END: &'static str = "), following all rules above.";

/// A text with a gap in it, filled: `head`, then `body` as it is, then
/// `tail`.
pub open spec fn filled(head: Seq<char>, body: Seq<char>, tail: Seq<char>) -> Seq<char> {
    head + body + tail
}

/// The instructions: the rules for every reply, with the user's name, the
/// phone number and the resume link where the rules speak of them.
pub open spec fn instructions(config: ServerConfigView) -> Seq<char> {
    filled(INTRO@, config.user_name, STOP@)
        + GROUNDING@
        + filled(RULE_RECRUITERS_ONLY@, SKIP_AUTOREPLY@, STOP@)
        + filled(RULE_FIRST_PERSON@, config.user_name, STOP@)
        + RULE_GREETING@
        + RULE_RELOCATION@
        + filled(RULE_COMPENSATION@, config.phone_number, RULE_COMPENSATION_END@)
        + filled(RULE_RESUME@, config.resume_link, RULE_RESUME_END@)
        + RULE_NOTICE_PERIOD@
        + filled(RULE_FORMAT@, config.user_name, RULE_FORMAT_END@)
}

/// A section: a line with its title, then its body as it is, then a blank
/// line.
pub open spec fn section(title: Seq<char>, body: Seq<char>) -> Seq<char> {
    filled(SECTION_OPEN@ + title + SECTION_CLOSE@, body, SECTION_END@)
}

/// The last line of the prompt.
pub open spec fn closing() -> Seq<char> {
    filled(CLOSING@, SKIP_AUTOREPLY@, CLOSING_END@)
}

/// The prompt for `request` under `config`: the instructions, the five
/// sections, and the last line. A field that the request lacks gives a
/// section with an empty body.
pub open spec fn prompt_text(config: ServerConfigView, request: GenerateRequestView) -> Seq<char> {
    instructions(config)
        + section(RESUME_SECTION@, config.resume_text)
        + section(PROFILE_SECTION@, config.profile_text)
        + section(HEADLINE_SECTION@, text_or_empty(request.sender_headline))
        + section(THREAD_SECTION@, text_or_empty(request.thread_context))
        + section(MESSAGE_SECTION@, request.message)
        + closing()
}

/// Whether `part` stands in `text` as it is: character for character, in
/// one piece.
pub open spec fn occurs_in(part: Seq<char>, text: Seq<char>) -> bool {
    exists|at: int|
        0 <= at && at + part.len() <= text.len() && #[trigger] text.subrange(
            at,
            at + part.len(),
        ) == part
}

/// What fills a gap occurs in the filled text.
pub proof fn lemma_filled_holds_body(head: Seq<char>, body: Seq<char>, tail: Seq<char>)
    ensures
        occurs_in(body, filled(head, body, tail)),
{
    let at = head.len() as int;
    assert(filled(head, body, tail).subrange(at, at + body.len()) =~= body);
}

/// A section holds its body as it is.
pub proof fn lemma_section_holds_body(title: Seq<char>, body: Seq<char>)
    ensures
        occurs_in(body, section(title, body)),
{
    lemma_filled_holds_body(SECTION_OPEN@ + title + SECTION_CLOSE@, body, SECTION_END@);
}

/// What occurs in a part of a text occurs in the text.
pub proof fn lemma_occurs_in_transitive(part: Seq<char>, middle: Seq<char>, text: Seq<char>)
    requires
        occurs_in(part, middle),
        occurs_in(middle, text),
    ensures
        occurs_in(part, text),
{
    let inner = choose|at: int|
        0 <= at && at + part.len() <= middle.len() && #[trigger] middle.subrange(
            at,
            at + part.len(),
        ) == part;
    let outer = choose|at: int|
        0 <= at && at + middle.len() <= text.len() && #[trigger] text.subrange(
            at,
            at + middle.len(),
        ) == middle;
    let there = outer + inner;
    assert(text.subrange(there, there + part.len()) =~= middle.subrange(
        inner,
        inner + part.len(),
    ));
}

/// The instructions hold the user's name, the phone number, the resume link
/// and `SKIP_AUTOREPLY`, each as it is.
pub proof fn lemma_instructions_hold_details(config: ServerConfigView)
    ensures
        occurs_in(config.user_name, instructions(config)),
        occurs_in(config.phone_number, instructions(config)),
        occurs_in(config.resume_link, instructions(config)),
        occurs_in(SKIP_AUTOREPLY@, instructions(config)),
{
    let rules = instructions(config);
    let none = Seq::<char>::empty();
    let intro = filled(INTRO@, config.user_name, STOP@);
    let recruiters_only = filled(RULE_RECRUITERS_ONLY@, SKIP_AUTOREPLY@, STOP@);
    let first_person = filled(RULE_FIRST_PERSON@, config.user_name, STOP@);
    let compensation = filled(RULE_COMPENSATION@, config.phone_number, RULE_COMPENSATION_END@);
    let resume = filled(RULE_RESUME@, config.resume_link, RULE_RESUME_END@);
    let format = filled(RULE_FORMAT@, config.user_name, RULE_FORMAT_END@);

    assert(occurs_in(config.user_name, rules)) by {
        let after = GROUNDING@ + recruiters_only + first_person + RULE_GREETING@ + RULE_RELOCATION@
            + compensation + resume + RULE_NOTICE_PERIOD@ + format;
        assert(rules =~= filled(none, intro, after));
        lemma_filled_holds_body(none, intro, after);
        lemma_filled_holds_body(INTRO@, config.user_name, STOP@);
        lemma_occurs_in_transitive(config.user_name, intro, rules);
    }
    assert(occurs_in(SKIP_AUTOREPLY@, rules)) by {
        let before = intro + GROUNDING@;
        let after = first_person + RULE_GREETING@ + RULE_RELOCATION@ + compensation + resume
            + RULE_NOTICE_PERIOD@ + format;
        assert(rules =~= filled(before, recruiters_only, after));
        lemma_filled_holds_body(before, recruiters_only, after);
        lemma_filled_holds_body(RULE_RECRUITERS_ONLY@, SKIP_AUTOREPLY@, STOP@);
        lemma_occurs_in_transitive(SKIP_AUTOREPLY@, recruiters_only, rules);
    }
    assert(occurs_in(config.phone_number, rules)) by {
        let before = intro + GROUNDING@ + recruiters_only + first_person + RULE_GREETING@
            + RULE_RELOCATION@;
        let after = resume + RULE_NOTICE_PERIOD@ + format;
        assert(rules =~= filled(before, compensation, after));
        lemma_filled_holds_body(before, compensation, after);
        lemma_filled_holds_body(
            RULE_COMPENSATION@,
            config.phone_number,
            RULE_COMPENSATION_END@,
        );
        lemma_occurs_in_transitive(config.phone_number, compensation, rules);
    }
    assert(occurs_in(config.resume_link, rules)) by {
        let before = intro + GROUNDING@ + recruiters_only + first_person + RULE_GREETING@
            + RULE_RELOCATION@ + compensation;
        let after = RULE_NOTICE_PERIOD@ + format;
        assert(rules =~= filled(before, resume, after));
        lemma_filled_holds_body(before, resume, after);
        lemma_filled_holds_body(RULE_RESUME@, config.resume_link, RULE_RESUME_END@);
        lemma_occurs_in_transitive(config.resume_link, resume, rules);
    }
}

/// The prompt holds its parts: the instructions; the section of the resume,
/// of the profile, of the sender's headline, of the thread context and of
/// the message, each under its title; and the last line.
pub proof fn lemma_prompt_holds_sections(config: ServerConfigView, request: GenerateRequestView)
    ensures
        occurs_in(instructions(config), prompt_text(config, request)),
        occurs_in(section(RESUME_SECTION@, config.resume_text), prompt_text(config, request)),
        occurs_in(section(PROFILE_SECTION@, config.profile_text), prompt_text(config, request)),
        occurs_in(
            section(HEADLINE_SECTION@, text_or_empty(request.sender_headline)),
            prompt_text(config, request),
        ),
        occurs_in(
            section(THREAD_SECTION@, text_or_empty(request.thread_context)),
            prompt_text(config, request),
        ),
        occurs_in(section(MESSAGE_SECTION@, request.message), prompt_text(config, request)),
        occurs_in(closing(), prompt_text(config, request)),
{
    lemma_each_part_occurs(
        instructions(config),
        section(RESUME_SECTION@, config.resume_text),
        section(PROFILE_SECTION@, config.profile_text),
        section(HEADLINE_SECTION@, text_or_empty(request.sender_headline)),
        section(THREAD_SECTION@, text_or_empty(request.thread_context)),
        section(MESSAGE_SECTION@, request.message),
        closing(),
    );
}

/// Each of the parts that a text is made of occurs in it.
proof fn lemma_each_part_occurs(
    a: Seq<char>,
    b: Seq<char>,
    c: Seq<char>,
    d: Seq<char>,
    e: Seq<char>,
    f: Seq<char>,
    g: Seq<char>,
)
    ensures
        occurs_in(a, a + b + c + d + e + f + g),
        occurs_in(b, a + b + c + d + e + f + g),
        occurs_in(c, a + b + c + d + e + f + g),
        occurs_in(d, a + b + c + d + e + f + g),
        occurs_in(e, a + b + c + d + e + f + g),
        occurs_in(f, a + b + c + d + e + f + g),
        occurs_in(g, a + b + c + d + e + f + g),
{
    let text = a + b + c + d + e + f + g;
    let none = Seq::<char>::empty();
    assert(occurs_in(a, text)) by {
        assert(text =~= filled(none, a, b + c + d + e + f + g));
        lemma_filled_holds_body(none, a, b + c + d + e + f + g);
    }
    assert(occurs_in(b, text)) by {
        assert(text =~= filled(a, b, c + d + e + f + g));
        lemma_filled_holds_body(a, b, c + d + e + f + g);
    }
    assert(occurs_in(c, text)) by {
        assert(text =~= filled(a + b, c, d + e + f + g));
        lemma_filled_holds_body(a + b, c, d + e + f + g);
    }
    assert(occurs_in(d, text)) by {
        assert(text =~= filled(a + b + c, d, e + f + g));
        lemma_filled_holds_body(a + b + c, d, e + f + g);
    }
    assert(occurs_in(e, text)) by {
        assert(text =~= filled(a + b + c + d, e, f + g));
        lemma_filled_holds_body(a + b + c + d, e, f + g);
    }
    assert(occurs_in(f, text)) by {
        lemma_filled_holds_body(a + b + c + d + e, f, g);
    }
    assert(occurs_in(g, text)) by {
        assert(text =~= filled(a + b + c + d + e + f, g, none));
        lemma_filled_holds_body(a + b + c + d + e + f, g, none);
    }
}

/// The prompt holds, each as it is: the resume text and the profile text;
/// the request's message, and its thread context and its sender headline,
/// or the empty text where the request has none; the user's name, the phone
/// number and the resume link.
pub proof fn lemma_prompt_holds_inputs(config: ServerConfigView, request: GenerateRequestView)
    ensures
        occurs_in(config.resume_text, prompt_text(config, request)),
        occurs_in(config.profile_text, prompt_text(config, request)),
        occurs_in(request.message, prompt_text(config, request)),
        occurs_in(text_or_empty(request.thread_context), prompt_text(config, request)),
        occurs_in(text_or_empty(request.sender_headline), prompt_text(config, request)),
        occurs_in(config.user_name, prompt_text(config, request)),
        occurs_in(config.phone_number, prompt_text(config, request)),
        occurs_in(config.resume_link, prompt_text(config, request)),
{
    let prompt = prompt_text(config, request);
    let rules = instructions(config);
    let headline = text_or_empty(request.sender_headline);
    let thread = text_or_empty(request.thread_context);
    lemma_prompt_holds_sections(config, request);

    lemma_instructions_hold_details(config);
    lemma_occurs_in_transitive(config.user_name, rules, prompt);
    lemma_occurs_in_transitive(config.phone_number, rules, prompt);
    lemma_occurs_in_transitive(config.resume_link, rules, prompt);

    lemma_section_holds_body(RESUME_SECTION@, config.resume_text);
    lemma_occurs_in_transitive(
        config.resume_text,
        section(RESUME_SECTION@, config.resume_text),
        prompt,
    );
    lemma_section_holds_body(PROFILE_SECTION@, config.profile_text);
    lemma_occurs_in_transitive(
        config.profile_text,
        section(PROFILE_SECTION@, config.profile_text),
        prompt,
    );
    lemma_section_holds_body(HEADLINE_SECTION@, headline);
    lemma_occurs_in_transitive(headline, section(HEADLINE_SECTION@, headline), prompt);
    lemma_section_holds_body(THREAD_SECTION@, thread);
    lemma_occurs_in_transitive(thread, section(THREAD_SECTION@, thread), prompt);
    lemma_section_holds_body(MESSAGE_SECTION@, request.message);
    lemma_occurs_in_transitive(
        request.message,
        section(MESSAGE_SECTION@, request.message),
        prompt,
    );
}

fn push_filled(text: &mut String, head: &str, body: &str, tail: &str)
    ensures
        final(text)@ == old(text)@ + filled(head@, body@, tail@),
{
    text.append(head);
    text.append(body);
    text.append(tail);
    assert(text@ =~= old(text)@ + filled(head@, body@, tail@));
}

fn push_section(text: &mut String, title: &str, body: &str)
    ensures
        final(text)@ == old(text)@ + section(title@, body@),
{
    text.append(SECTION_OPEN);
    text.append(title);
    text.append(SECTION_CLOSE);
    text.append(body);
    text.append(SECTION_END);
    assert(text@ =~= old(text)@ + section(title@, body@));
}

fn write_instructions(config: &ServerConfig) -> (text: String)
    ensures
        text@ == instructions(config@),
{
    let mut text = String::new();
    push_filled(&mut text, INTRO, config.user_name(), STOP);
    text.append(GROUNDING);
    push_filled(&mut text, RULE_RECRUITERS_ONLY, SKIP_AUTOREPLY, STOP);
    push_filled(&mut text, RULE_FIRST_PERSON, config.user_name(), STOP);
    text.append(RULE_GREETING);
    text.append(RULE_RELOCATION);
    push_filled(&mut text, RULE_COMPENSATION, config.phone_number(), RULE_COMPENSATION_END);
    push_filled(&mut text, RULE_RESUME, config.resume_link(), RULE_RESUME_END);
    text.append(RULE_NOTICE_PERIOD);
    push_filled(&mut text, RULE_FORMAT, config.user_name(), RULE_FORMAT_END);
    text
}

/// Writes the prompt for `request` under `config`.
pub fn compose_prompt(config: &ServerConfig, request: &GenerateRequest) -> (prompt: String)
    ensures
        prompt@ == prompt_text(config@, request@),
{
    let mut prompt = write_instructions(config);
    push_section(&mut prompt, RESUME_SECTION, config.resume_text());
    push_section(&mut prompt, PROFILE_SECTION, config.profile_text());
    push_section(&mut prompt, HEADLINE_SECTION, field_text(&request.sender_headline));
    push_section(&mut prompt, THREAD_SECTION, field_text(&request.thread_context));
    push_section(&mut prompt, MESSAGE_SECTION, request.message.as_str());
    push_filled(&mut prompt, CLOSING, SKIP_AUTOREPLY, CLOSING_END);
    prompt
}

} // verus!
