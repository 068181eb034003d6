use recruiter_reply::backend::{GenerationBackendRequest, ENDPOINT, MODEL};
use recruiter_reply::config::{
    ServerConfig, DEFAULT_PHONE_NUMBER, DEFAULT_RESUME_LINK, DEFAULT_USER_NAME,
};
use recruiter_reply::prompt::compose_prompt;
use recruiter_reply::request::{field_text, GenerateRequest};

const FULL_PROMPT: &str = "You are an assistant that drafts LinkedIn replies to recruiter messages on behalf of Alex Doe.\n\
    Use the resume summary and LinkedIn About section below as the ONLY source of truth.\n\
    Never invent details (years of experience, current location, notice period, technologies, compensation, dates, or companies)\n\
    that are not clearly present in the resume/about text.\n\n\
    HARD RULES:\n\
    - Reply ONLY if this is clearly a recruiter or hiring-related message. If not, reply exactly with: SKIP_AUTOREPLY.\n\
    - Always write in first person as Alex Doe.\n\
    - Address the recruiter by their first name ONLY if it is clearly visible in the message; otherwise start with a generic\n\
    greeting like 'Hi' or 'Hi there' and NEVER guess or fabricate a name.\n\
    - When relocation is mentioned:\n\
    - If the role/location appears to be in India, talk only about being open to opportunities within India.\n\
    - Only mention being open to relocating outside India if the recruiter explicitly talks about roles or locations outside India.\n\
    - NEVER say that the user is not willing to relocate.\n\
    - If asked about current or expected CTC/salary/compensation, do NOT provide exact numbers and do NOT say it is confidential.\n\
    Instead say something like: \"I'm happy to discuss compensation expectations over a call (+91-98765-43210) once we've aligned on the role and responsibilities.\"\n\
    - If the recruiter asks for a CV/resume or it is relevant to share, include this exact sentence once in the reply:\n\
    \"You can find my resume here: https://example.com/alex.pdf\".\n\
    Do NOT say that a resume is attached; always point to this link instead.\n\
    - If the recruiter asks about notice period or LWD, you may mention it briefly in ONE sentence, but do not over-explain.\n\
    - FORMAT STRICTLY AS FOLLOWS:\n\
    1) Greeting line (e.g., \"Hi <name>,\").\n\
    2) Blank line.\n\
    3) 1\u{e2}\u{20ac}\u{201c}2 short paragraphs, each separated by a blank line, no wall of text.\n\
    4) Closing line (e.g., \"Best regards,\\nAlex Doe\").\n\
    Use \"\\n\\n\" between paragraphs so the message is easy to read in LinkedIn.\n\
    Do NOT wrap the reply in quotes, backticks, Markdown, or code blocks.\n\
    Do NOT prefix the reply with any explanation or label such as\n\
    \"Here is the draft LinkedIn reply:\", \"Answer:\", or similar.\n\
    The first characters of your output MUST be the greeting itself (e.g., \"Hi ...,\").\n\n\
    === RESUME SUMMARY ===\n\
    Backend engineer, 8 years.\n\
    Rust, Go, PostgreSQL.\n\n\
    === LINKEDIN ABOUT ===\n\
    I build reliable services.\n\n\
    Based in Pune.\n\n\
    === SENDER HEADLINE ===\n\
    Technical Recruiter at Acme\n\n\
    === THREAD CONTEXT ===\n\
    Recruiter: Hello Alex!\n\
    Alex: Hi.\n\n\
    === LATEST MESSAGE ===\n\
    Hi, are you open to a Senior Backend role in Bangalore?\n\n\
    Write only the reply text (or SKIP_AUTOREPLY), following all rules above.";

const BARE_PROMPT: &str = "You are an assistant that drafts LinkedIn replies to recruiter messages on behalf of Your Name.\n\
    Use the resume summary and LinkedIn About section below as the ONLY source of truth.\n\
    Never invent details (years of experience, current location, notice period, technologies, compensation, dates, or companies)\n\
    that are not clearly present in the resume/about text.\n\n\
    HARD RULES:\n\
    - Reply ONLY if this is clearly a recruiter or hiring-related message. If not, reply exactly with: SKIP_AUTOREPLY.\n\
    - Always write in first person as Your Name.\n\
    - Address the recruiter by their first name ONLY if it is clearly visible in the message; otherwise start with a generic\n\
    greeting like 'Hi' or 'Hi there' and NEVER guess or fabricate a name.\n\
    - When relocation is mentioned:\n\
    - If the role/location appears to be in India, talk only about being open to opportunities within India.\n\
    - Only mention being open to relocating outside India if the recruiter explicitly talks about roles or locations outside India.\n\
    - NEVER say that the user is not willing to relocate.\n\
    - If asked about current or expected CTC/salary/compensation, do NOT provide exact numbers and do NOT say it is confidential.\n\
    Instead say something like: \"I'm happy to discuss compensation expectations over a call (YOUR_PHONE_NUMBER) once we've aligned on the role and responsibilities.\"\n\
    - If the recruiter asks for a CV/resume or it is relevant to share, include this exact sentence once in the reply:\n\
    \"You can find my resume here: YOUR_RESUME_LINK\".\n\
    Do NOT say that a resume is attached; always point to this link instead.\n\
    - If the recruiter asks about notice period or LWD, you may mention it briefly in ONE sentence, but do not over-explain.\n\
    - FORMAT STRICTLY AS FOLLOWS:\n\
    1) Greeting line (e.g., \"Hi <name>,\").\n\
    2) Blank line.\n\
    3) 1\u{e2}\u{20ac}\u{201c}2 short paragraphs, each separated by a blank line, no wall of text.\n\
    4) Closing line (e.g., \"Best regards,\\nYour Name\").\n\
    Use \"\\n\\n\" between paragraphs so the message is easy to read in LinkedIn.\n\
    Do NOT wrap the reply in quotes, backticks, Markdown, or code blocks.\n\
    Do NOT prefix the reply with any explanation or label such as\n\
    \"Here is the draft LinkedIn reply:\", \"Answer:\", or similar.\n\
    The first characters of your output MUST be the greeting itself (e.g., \"Hi ...,\").\n\n\
    === RESUME SUMMARY ===\n\n\n\
    === LINKEDIN ABOUT ===\n\n\n\
    === SENDER HEADLINE ===\n\n\n\
    === THREAD CONTEXT ===\n\n\n\
    === LATEST MESSAGE ===\n\n\n\
    Write only the reply text (or SKIP_AUTOREPLY), following all rules above.";

fn alex() -> ServerConfig {
    ServerConfig::new(
        Some("Alex Doe".to_string()),
        Some("+91-98765-43210".to_string()),
        Some("https://example.com/alex.pdf".to_string()),
        "Backend engineer, 8 years.\nRust, Go, PostgreSQL.".to_string(),
        "I build reliable services.\n\nBased in Pune.".to_string(),
    )
}

fn bangalore() -> GenerateRequest {
    GenerateRequest {
        message: "Hi, are you open to a Senior Backend role in Bangalore?".to_string(),
        thread_context: Some("Recruiter: Hello Alex!\nAlex: Hi.".to_string()),
        sender_headline: Some("Technical Recruiter at Acme".to_string()),
    }
}

fn count(text: &str, part: &str) -> usize {
    text.matches(part).count()
}

#[test]
fn prompt_is_the_template_with_every_field_filled_in() {
    assert_eq!(compose_prompt(&alex(), &bangalore()), FULL_PROMPT);
}

#[test]
fn prompt_of_defaults_and_empty_request() {
    let config = ServerConfig::new(None, None, None, String::new(), String::new());
    let request = GenerateRequest::new(None, None, None);
    assert_eq!(compose_prompt(&config, &request), BARE_PROMPT);
}

#[test]
fn absent_fields_give_the_prompt_of_empty_fields() {
    let absent = GenerateRequest {
        message: "Hello".to_string(),
        thread_context: None,
        sender_headline: None,
    };
    let empty = GenerateRequest {
        message: "Hello".to_string(),
        thread_context: Some(String::new()),
        sender_headline: Some(String::new()),
    };
    let prompt = compose_prompt(&alex(), &absent);
    assert_eq!(prompt, compose_prompt(&alex(), &empty));
    assert!(prompt.contains("=== SENDER HEADLINE ===\n\n\n=== THREAD CONTEXT ===\n\n\n"));
    assert!(prompt.contains("=== LATEST MESSAGE ===\nHello\n\nWrite only"));
}

#[test]
fn prompt_holds_each_input_in_its_section() {
    let prompt = compose_prompt(&alex(), &bangalore());
    assert!(prompt.contains(
        "=== RESUME SUMMARY ===\nBackend engineer, 8 years.\nRust, Go, PostgreSQL.\n\n"
    ));
    assert!(prompt
        .contains("=== LINKEDIN ABOUT ===\nI build reliable services.\n\nBased in Pune.\n\n"));
    assert!(prompt.contains("=== SENDER HEADLINE ===\nTechnical Recruiter at Acme\n\n"));
    assert!(prompt.contains("=== THREAD CONTEXT ===\nRecruiter: Hello Alex!\nAlex: Hi.\n\n"));
    assert!(prompt.contains(
        "=== LATEST MESSAGE ===\nHi, are you open to a Senior Backend role in Bangalore?\n\n"
    ));
}

#[test]
fn prompt_sections_come_in_order() {
    let prompt = compose_prompt(&alex(), &bangalore());
    let titles = [
        "=== RESUME SUMMARY ===",
        "=== LINKEDIN ABOUT ===",
        "=== SENDER HEADLINE ===",
        "=== THREAD CONTEXT ===",
        "=== LATEST MESSAGE ===",
    ];
    let mut last = 0;
    for title in titles {
        assert_eq!(count(&prompt, title), 1);
        let at = prompt.find(title).unwrap();
        assert!(at > last);
        last = at;
    }
}

#[test]
fn prompt_carries_the_user_details_where_the_rules_speak_of_them() {
    let prompt = compose_prompt(&alex(), &bangalore());
    assert!(prompt.starts_with(
        "You are an assistant that drafts LinkedIn replies to recruiter messages on behalf of \
         Alex Doe.\n"
    ));
    assert!(prompt.contains("- Always write in first person as Alex Doe.\n"));
    assert!(prompt.contains("(e.g., \"Best regards,\\nAlex Doe\").\n"));
    assert_eq!(count(&prompt, "Alex Doe"), 3);
    assert!(prompt.contains("over a call (+91-98765-43210) once we've aligned"));
    assert_eq!(count(&prompt, "+91-98765-43210"), 1);
    assert!(prompt.contains("\"You can find my resume here: https://example.com/alex.pdf\".\n"));
    assert_eq!(count(&prompt, "https://example.com/alex.pdf"), 1);
}

#[test]
fn prompt_names_the_word_for_no_reply() {
    let prompt = compose_prompt(&alex(), &bangalore());
    assert!(prompt.contains("If not, reply exactly with: SKIP_AUTOREPLY.\n"));
    assert!(prompt
        .ends_with("\n\nWrite only the reply text (or SKIP_AUTOREPLY), following all rules above."));
}

#[test]
fn prompt_takes_fields_as_they_are() {
    let odd = "  {} \"quoted\" \\n === LATEST MESSAGE ===\n\t\u{e9}\u{4e16}\u{1f600}  ";
    let request = GenerateRequest {
        message: odd.to_string(),
        thread_context: Some(odd.to_string()),
        sender_headline: Some(odd.to_string()),
    };
    let config = ServerConfig::new(
        Some(odd.to_string()),
        Some(odd.to_string()),
        Some(odd.to_string()),
        odd.to_string(),
        odd.to_string(),
    );
    let prompt = compose_prompt(&config, &request);
    assert_eq!(count(&prompt, odd), 10);
    assert_eq!(prompt.len(), BARE_PROMPT.len() - "Your Name".len() * 3
        - "YOUR_PHONE_NUMBER".len() - "YOUR_RESUME_LINK".len() + odd.len() * 10);
}

#[test]
fn empty_message_is_accepted() {
    let request = GenerateRequest::new(Some(String::new()), None, None);
    assert_eq!(request.message, "");
    let prompt = compose_prompt(&alex(), &request);
    assert!(prompt.contains("=== LATEST MESSAGE ===\n\n\nWrite only"));
}

#[test]
fn absent_message_is_the_empty_message() {
    let request = GenerateRequest::new(None, Some("earlier".to_string()), None);
    assert_eq!(
        request,
        GenerateRequest {
            message: String::new(),
            thread_context: Some("earlier".to_string()),
            sender_headline: None,
        }
    );
}

#[test]
fn request_keeps_its_fields() {
    let request = GenerateRequest::new(
        Some("Hello".to_string()),
        Some("earlier".to_string()),
        Some("Recruiter".to_string()),
    );
    assert_eq!(request.message, "Hello");
    assert_eq!(request.thread_context.as_deref(), Some("earlier"));
    assert_eq!(request.sender_headline.as_deref(), Some("Recruiter"));
    assert_eq!(field_text(&request.thread_context), "earlier");
    assert_eq!(field_text(&None), "");
}

#[test]
fn settings_fall_back_to_their_defaults() {
    let config = ServerConfig::new(None, None, None, "resume".to_string(), "about".to_string());
    assert_eq!(config.user_name(), "Your Name");
    assert_eq!(config.phone_number(), "YOUR_PHONE_NUMBER");
    assert_eq!(config.resume_link(), "YOUR_RESUME_LINK");
    assert_eq!(config.resume_text(), "resume");
    assert_eq!(config.profile_text(), "about");
    assert_eq!(DEFAULT_USER_NAME, "Your Name");
    assert_eq!(DEFAULT_PHONE_NUMBER, "YOUR_PHONE_NUMBER");
    assert_eq!(DEFAULT_RESUME_LINK, "YOUR_RESUME_LINK");
}

#[test]
fn each_setting_falls_back_alone() {
    let config = ServerConfig::new(
        None,
        Some("12345".to_string()),
        None,
        String::new(),
        String::new(),
    );
    assert_eq!(config.user_name(), "Your Name");
    assert_eq!(config.phone_number(), "12345");
    assert_eq!(config.resume_link(), "YOUR_RESUME_LINK");
    let config = ServerConfig::new(
        Some(String::new()),
        None,
        Some("link".to_string()),
        String::new(),
        String::new(),
    );
    assert_eq!(config.user_name(), "");
    assert_eq!(config.phone_number(), "YOUR_PHONE_NUMBER");
    assert_eq!(config.resume_link(), "link");
}

#[test]
fn configured_settings_are_kept() {
    let config = alex();
    assert_eq!(config.user_name(), "Alex Doe");
    assert_eq!(config.phone_number(), "+91-98765-43210");
    assert_eq!(config.resume_link(), "https://example.com/alex.pdf");
    assert_eq!(config.resume_text(), "Backend engineer, 8 years.\nRust, Go, PostgreSQL.");
    assert_eq!(config.profile_text(), "I build reliable services.\n\nBased in Pune.");
}

#[test]
fn outgoing_request_names_the_model_and_does_not_stream() {
    let outgoing = GenerationBackendRequest::new(&alex(), &bangalore());
    assert_eq!(outgoing.model(), "llama3");
    assert_eq!(outgoing.model(), MODEL);
    assert!(!outgoing.stream());
    assert_eq!(outgoing.prompt(), FULL_PROMPT);
    let (model, prompt, stream) = outgoing.into_parts();
    assert_eq!(model, "llama3");
    assert_eq!(prompt, FULL_PROMPT);
    assert!(!stream);
}

#[test]
fn outgoing_request_is_the_same_for_every_message() {
    for message in ["", "Hello", "SKIP_AUTOREPLY", "stream: true, model: other"] {
        let request = GenerateRequest::new(Some(message.to_string()), None, None);
        let outgoing = GenerationBackendRequest::new(&alex(), &request);
        assert_eq!(outgoing.model(), "llama3");
        assert!(!outgoing.stream());
        assert_eq!(outgoing.prompt(), compose_prompt(&alex(), &request));
    }
}

#[test]
fn generation_service_is_local() {
    assert_eq!(ENDPOINT, "http://localhost:11434/api/generate");
}
