//! The two remote services: Groq's Whisper transcription and Anthropic's
//! clean-up of the transcript. What is sent and how replies are read.

use vstd::prelude::*;
use vstd::string::StringExecFns;
use crate::text::{trim, trim_string, chars_of};

verus! {

/// Groq's transcription endpoint.
pub const GROQ_URL: &'static str = "https://api.groq.com/openai/v1/audio/transcriptions";

/// The Groq model used when the settings name none.
pub const GROQ_DEFAULT_MODEL: &'static str = "whisper-large-v3-turbo";

/// Anthropic's messages endpoint.
pub const ANTHROPIC_URL: &'static str = "https://api.anthropic.com/v1/messages";

/// The Anthropic API version sent with each request.
pub const ANTHROPIC_VERSION: &'static str = "2023-06-01";

/// The most tokens the clean-up may answer with.
pub const CLEANUP_MAX_TOKENS: u32 = 1024;

/// The instructions given to the clean-up model.
pub const SYSTEM_PROMPT: &'static str = "You clean up dictated speech. Fix punctuation, capitalization, and obvious filler words (um, uh, like). Preserve the speaker's wording and intent — do NOT rephrase, summarize, translate, or add content. Return only the cleaned text, nothing else.";

/// Which remote service a request goes to.
#[derive(PartialEq, Eq, Structural, Clone, Copy, Debug)]
pub enum Service {
    Groq,
    Anthropic,
}

/// Why a remote request gave no text.
#[derive(Clone, Debug)]
pub enum ServiceError {
    /// No API key is stored for the service.
    KeyNotSet(Service),
    /// The settings name no model for the service.
    ModelNotSet(Service),
    /// The service answered with a status outside 200-299; `status` is the
    /// status as text (code and reason), `body` what it answered.
    Status { service: Service, status: String, body: String },
    /// Anthropic's answer holds no text where it should; `reply` is the
    /// answer as JSON text.
    Unexpected(String),
    /// The request could not be sent or its answer not read.
    Transport(String),
}

pub open spec fn service_name(s: Service) -> Seq<char> {
    match s {
        Service::Groq => "Groq"@,
        Service::Anthropic => "Anthropic"@,
    }
}

impl ServiceError {
    /// The text of the error, as shown to the user.
    pub open spec fn message_spec(&self) -> Seq<char> {
        match self {
            ServiceError::KeyNotSet(s) => service_name(*s) + " API key not set"@,
            ServiceError::ModelNotSet(s) => service_name(*s) + " model not set"@,
            ServiceError::Status { service, status, body } => service_name(*service)
                + " error "@ + status@ + ": "@ + body@,
            ServiceError::Unexpected(reply) => "unexpected Anthropic response: "@ + reply@,
            ServiceError::Transport(m) => m@,
        }
    }

    /// The text of the error, as shown to the user.
    pub fn message(&self) -> (r: String)
        ensures
            r@ == self.message_spec(),
    {
        match self {
            ServiceError::KeyNotSet(s) => {
                let mut m = service_name_string(*s);
                m.append(" API key not set");
                m
            },
            ServiceError::ModelNotSet(s) => {
                let mut m = service_name_string(*s);
                m.append(" model not set");
                m
            },
            ServiceError::Status { service, status, body } => {
                let mut m = service_name_string(*service);
                m.append(" error ");
                m.append(status.as_str());
                m.append(": ");
                m.append(body.as_str());
                m
            },
            ServiceError::Unexpected(reply) => {
                let mut m = String::from_str("unexpected Anthropic response: ");
                m.append(reply.as_str());
                m
            },
            ServiceError::Transport(m) => m.clone(),
        }
    }
}

fn service_name_string(s: Service) -> (r: String)
    ensures
        r@ == service_name(s),
{
    match s {
        Service::Groq => String::from_str("Groq"),
        Service::Anthropic => String::from_str("Anthropic"),
    }
}

/// A transcription request to Groq: the audio goes as the multipart file
/// `audio.wav` (`audio/wav`), with the model, `response_format=text` and
/// `temperature=0`, authorised by the key as a bearer token.
#[derive(Clone, Debug)]
pub struct GroqRequest {
    pub api_key: String,
    pub model: String,
}

/// A clean-up request to Anthropic: `SYSTEM_PROMPT` as the (cached) system
/// text, `text` as the one user message, at most `max_tokens` back, asked of
/// `model`, the model that the settings name.
#[derive(Clone, Debug)]
pub struct CleanupRequest {
    pub api_key: String,
    pub model: String,
    pub max_tokens: u32,
    pub system: String,
    pub text: String,
}

/// An optional model name, or `default`.
pub open spec fn model_or(model: Option<Seq<char>>, default: Seq<char>) -> Seq<char> {
    match model {
        Some(m) => m,
        None => default,
    }
}

fn model_or_default(model: &Option<String>, default: &str) -> (r: String)
    ensures
        r@ == model_or(crate::keychain::opt_view(*model), default@),
{
    match model {
        Some(m) => m.clone(),
        None => String::from_str(default),
    }
}

/// The Groq request for the key and model of the settings; refused when no
/// key is set.
pub fn groq_request(api_key: &str, model: &Option<String>) -> (r: Result<GroqRequest, ServiceError>)
    ensures
        api_key@.len() == 0 ==> r matches Err(ServiceError::KeyNotSet(Service::Groq)),
        api_key@.len() > 0 ==> (r matches Ok(req) && req.api_key@ == api_key@ && req.model@
            == model_or(crate::keychain::opt_view(*model), GROQ_DEFAULT_MODEL@)),
{
    let k = chars_of(api_key);
    if k.len() == 0 {
        return Err(ServiceError::KeyNotSet(Service::Groq));
    }
    Ok(GroqRequest { api_key: String::from_str(api_key), model: model_or_default(model, GROQ_DEFAULT_MODEL) })
}

/// The clean-up request for `text` with the key and model of the settings;
/// refused when no key is set, and then when no model is named (this
/// library names no default clean-up model).
pub fn cleanup_request(api_key: &str, model: &Option<String>, text: &str) -> (r: Result<CleanupRequest, ServiceError>)
    ensures
        api_key@.len() == 0 ==> r matches Err(ServiceError::KeyNotSet(Service::Anthropic)),
        api_key@.len() > 0 && model is None ==> r matches Err(ServiceError::ModelNotSet(Service::Anthropic)),
        api_key@.len() > 0 && model is Some ==> (r matches Ok(req) && req.api_key@ == api_key@
            && req.model@ == model->0@ && req.max_tokens == 1024 && req.system@ == SYSTEM_PROMPT@
            && req.text@ == text@),
{
    let k = chars_of(api_key);
    if k.len() == 0 {
        return Err(ServiceError::KeyNotSet(Service::Anthropic));
    }
    match model {
        None => Err(ServiceError::ModelNotSet(Service::Anthropic)),
        Some(m) => Ok(
            CleanupRequest {
                api_key: String::from_str(api_key),
                model: m.clone(),
                max_tokens: CLEANUP_MAX_TOKENS,
                system: String::from_str(SYSTEM_PROMPT),
                text: String::from_str(text),
            },
        ),
    }
}

/// Whether an HTTP status code means success (200-299).
pub fn status_is_success(code: u16) -> (r: bool)
    ensures
        r == (200 <= code <= 299),
{
    200 <= code && code <= 299
}

/// Groq's answer: with a successful status its body, trimmed, is the
/// transcript; any other status is an error carrying the body.
pub fn transcription_reply(code: u16, status: String, body: String) -> (r: Result<String, ServiceError>)
    ensures
        200 <= code <= 299 ==> (r matches Ok(t) && t@ == trim(body@)),
        !(200 <= code <= 299) ==> (r matches Err(ServiceError::Status { service, status: s, body: b })
            && service == Service::Groq && s@ == status@ && b@ == body@),
{
    if status_is_success(code) {
        Ok(trim_string(body.as_str()))
    } else {
        Err(ServiceError::Status { service: Service::Groq, status, body })
    }
}

/// Anthropic's answer with an unsuccessful status is an error carrying the
/// body; `None` when the status is a success.
pub fn cleanup_status(code: u16, status: String, body: String) -> (r: Option<ServiceError>)
    ensures
        200 <= code <= 299 ==> r is None,
        !(200 <= code <= 299) ==> (r matches Some(ServiceError::Status { service, status: s, body: b })
            && service == Service::Anthropic && s@ == status@ && b@ == body@),
{
    if status_is_success(code) {
        None
    } else {
        Some(ServiceError::Status { service: Service::Anthropic, status, body })
    }
}

/// The cleaned text from Anthropic's successful answer: `content` is the
/// text of its first content block (if it is a string), `reply` the whole
/// answer as JSON text. The text comes back trimmed.
pub fn cleanup_reply(content: Option<String>, reply: String) -> (r: Result<String, ServiceError>)
    ensures
        content matches Some(t) ==> (r matches Ok(c) && c@ == trim(t@)),
        content is None ==> (r matches Err(ServiceError::Unexpected(m)) && m@ == reply@),
{
    match content {
        Some(t) => Ok(trim_string(t.as_str())),
        None => Err(ServiceError::Unexpected(reply)),
    }
}

} // verus!
