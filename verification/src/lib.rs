//! Drafting replies to recruiter messages through a text-generation service.
//!
//! A request carries a recruiter's message. `prompt` writes the prompt for
//! it: fixed instructions, with the user's details from `config` in them,
//! then the resume, the profile and the request. `backend` wraps the prompt
//! for the generation service. `handler` decides what to make of the
//! service's answer, and `reply` turns the text it wrote into the response:
//! the text without the white space around it (`whitespace`), and the reason
//! that says whether it is a reply at all.
//!
//! The library sends and receives nothing. Its caller does, and tells it what
//! came back.

pub mod backend;
pub mod config;
pub mod handler;
pub mod prompt;
pub mod reply;
pub mod request;
pub mod whitespace;
