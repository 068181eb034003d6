//! The configuration that every request is answered with.

use vstd::prelude::*;
use vstd::string::*;

verus! {

/// The environment variable that may hold the user's name.
pub const USER_NAME_VARIABLE: &'static str = "USER_NAME";

/// The environment variable that may hold the phone number.
pub const PHONE_NUMBER_VARIABLE: &'static str = "PHONE_NUMBER";

/// The environment variable that may hold the resume link.
pub const RESUME_LINK_VARIABLE: &'static str = "RESUME_LINK";

/// The file that holds the resume summary.
pub const RESUME_FILE: &'static str = "../resume-summary.txt";

/// The file that holds the profile's "about" text.
pub const PROFILE_FILE: &'static str = "../linkdin-about-section.txt";

/// The name used where none is configured.
pub const DEFAULT_USER_NAME: &'static str = "Your Name";

/// The phone number used where none is configured.
pub const DEFAULT_PHONE_NUMBER: &'static str = "YOUR_PHONE_NUMBER";

/// The resume link used where none is configured.
pub const DEFAULT_RESUME_LINK: &'static str = "YOUR_RESUME_LINK";

/// What a `ServerConfig` holds, as text.
pub struct ServerConfigView {
    pub user_name: Seq<char>,
    pub phone_number: Seq<char>,
    pub resume_link: Seq<char>,
    pub resume_text: Seq<char>,
    pub profile_text: Seq<char>,
}

/// The user's name, contact details, resume and profile. It is made once and
/// read from then on: nothing in this crate changes one.
#[derive(Debug, PartialEq, Eq)]
pub struct ServerConfig {
    user_name: String,
    phone_number: String,
    resume_link: String,
    resume_text: String,
    profile_text: String,
}

impl View for ServerConfig {
    type V = ServerConfigView;

    closed spec fn view(&self) -> ServerConfigView {
        ServerConfigView {
            user_name: self.user_name@,
            phone_number: self.phone_number@,
            resume_link: self.resume_link@,
            resume_text: self.resume_text@,
            profile_text: self.profile_text@,
        }
    }
}

/// The configured text, or `default` where nothing is configured.
pub open spec fn configured_or(setting: Option<String>, default: Seq<char>) -> Seq<char> {
    match setting {
        Some(text) => text@,
        None => default,
    }
}

fn setting_or(setting: Option<String>, default: &str) -> (text: String)
    ensures
        text@ == configured_or(setting, default@),
{
    match setting {
        Some(text) => text,
        None => String::from_str(default),
    }
}

impl ServerConfig {
    /// The configuration with the given resume and profile text, and with
    /// each of the three settings as configured or, where it is not, as its
    /// default.
    pub fn new(
        user_name: Option<String>,
        phone_number: Option<String>,
        resume_link: Option<String>,
        resume_text: String,
        profile_text: String,
    ) -> (config: ServerConfig)
        ensures
            config@ == (ServerConfigView {
                user_name: configured_or(user_name, DEFAULT_USER_NAME@),
                phone_number: configured_or(phone_number, DEFAULT_PHONE_NUMBER@),
                resume_link: configured_or(resume_link, DEFAULT_RESUME_LINK@),
                resume_text: resume_text@,
                profile_text: profile_text@,
            }),
    {
        ServerConfig {
            user_name: setting_or(user_name, DEFAULT_USER_NAME),
            phone_number: setting_or(phone_number, DEFAULT_PHONE_NUMBER),
            resume_link: setting_or(resume_link, DEFAULT_RESUME_LINK),
            resume_text,
            profile_text,
        }
    }

    /// The name the replies are written under.
    pub fn user_name(&self) -> (text: &str)
        ensures
            text@ == self@.user_name,
    {
        self.user_name.as_str()
    }

    /// The number to call about compensation.
    pub fn phone_number(&self) -> (text: &str)
        ensures
            text@ == self@.phone_number,
    {
        self.phone_number.as_str()
    }

    /// Where the resume can be found.
    pub fn resume_link(&self) -> (text: &str)
        ensures
            text@ == self@.resume_link,
    {
        self.resume_link.as_str()
    }

    /// The resume summary.
    pub fn resume_text(&self) -> (text: &str)
        ensures
            text@ == self@.resume_text,
    {
        self.resume_text.as_str()
    }

    /// The profile's "about" text.
    pub fn profile_text(&self) -> (text: &str)
        ensures
            text@ == self@.profile_text,
    {
        self.profile_text.as_str()
    }
}

} // verus!
