//! Chat-completion endpoint types and the deterministic endpoint
//! logic: prompt extraction, error classification and response
//! shaping.  The HTTP transport itself (routing, JSON marshaling,
//! status codes on the wire) lives in the embedding program, which
//! carries mirror types with the serialisation derives and converts
//! at the boundary.

use vstd::prelude::*;
use vstd::string::StringExecFns;

use crate::model::{GenerationParams, ModelError};

verus! {

/// One chat message.
#[derive(Debug, Clone)]
pub struct ChatCompletionMessage {
    pub role: String,
    pub content: String,
}

/// An inbound chat-completion request, after JSON decoding.  The
/// sampling temperature of the wire format plays no part in
/// translation and is dropped at the boundary.
#[derive(Debug, Clone)]
pub struct ChatCompletionRequest {
    pub model: String,
    pub messages: Vec<ChatCompletionMessage>,
    pub max_tokens: Option<u32>,
    /// Extension: target language code (e.g. "fra_Latn").
    pub target_lang: Option<String>,
}

/// One response choice.
#[derive(Debug, Clone)]
pub struct ChatCompletionChoice {
    pub index: u32,
    pub message: ChatCompletionMessage,
    pub finish_reason: Option<String>,
}

/// Token accounting of a response.
#[derive(Debug, Clone)]
pub struct Usage {
    pub prompt_tokens: u32,
    pub completion_tokens: u32,
    pub total_tokens: u32,
}

/// An outbound chat-completion response.
#[derive(Debug, Clone)]
pub struct ChatCompletionResponse {
    pub id: String,
    pub object: String,
    pub created: u64,
    pub model: String,
    pub choices: Vec<ChatCompletionChoice>,
    pub usage: Option<Usage>,
}

/// Transport-level fault category with its message.
#[derive(Debug)]
pub enum ApiError {
    /// Caller-input fault, reported with status 400.
    BadRequest(String),
    /// Server-side fault, reported with status 500.
    InternalServerError(String),
}

impl ApiError {
    /// The HTTP status code and message body of the error.
    pub fn into_parts(self) -> (r: (u16, String))
        ensures
            match self {
                ApiError::BadRequest(msg) => r.0 == 400 && r.1 == msg,
                ApiError::InternalServerError(msg) => r.0 == 500 && r.1 == msg,
            },
    {
        match self {
            ApiError::BadRequest(msg) => (400, msg),
            ApiError::InternalServerError(msg) => (500, msg),
        }
    }

    /// Classifies a registry failure: unknown model ids are the
    /// caller's fault, load and inference failures the server's.
    pub fn from_model_error(e: &ModelError) -> (r: ApiError)
        ensures
            match e {
                ModelError::NotFound { .. } | ModelError::ConfigNotFound { .. } => r matches
                    ApiError::BadRequest(msg) && msg@ == "Model error: "@ + e.spec_message(),
                ModelError::LoadError { .. } | ModelError::InferenceError { .. } => r matches
                    ApiError::InternalServerError(msg) && msg@ == "Inference failed: "@
                    + e.spec_message(),
            },
    {
        match e {
            ModelError::NotFound { .. } | ModelError::ConfigNotFound { .. } => {
                let mut s = String::from_str("Model error: ");
                s.append(e.message().as_str());
                ApiError::BadRequest(s)
            },
            _ => {
                let mut s = String::from_str("Inference failed: ");
                s.append(e.message().as_str());
                ApiError::InternalServerError(s)
            },
        }
    }
}

/// Deterministic front half of the chat-completion endpoint: takes
/// the last message as the prompt and turns the request's target
/// language into a generation override, rejecting an empty message
/// list as a caller-input fault.
pub fn prepare_chat(request: &ChatCompletionRequest) -> (r: Result<
    (String, GenerationParams),
    ApiError,
>)
    ensures
        match r {
            Ok((prompt, params)) => {
                &&& request.messages@.len() > 0
                &&& prompt@ == request.messages@[request.messages@.len() - 1].content@
                &&& params.target_lang == request.target_lang
                &&& params.beam_size is None
                &&& params.repetition_penalty is None
                &&& params.no_repeat_ngram_size is None
            },
            Err(e) => {
                &&& request.messages@.len() == 0
                &&& e matches ApiError::BadRequest(msg) && msg@ == "No messages provided"@
            },
        },
{
    let n = request.messages.len();
    if n == 0 {
        return Err(ApiError::BadRequest(String::from_str("No messages provided")));
    }
    let prompt = request.messages[n - 1].content.clone();
    let target_lang = match &request.target_lang {
        Some(t) => Some(t.clone()),
        None => None,
    };
    Ok(
        (
            prompt,
            GenerationParams {
                target_lang,
                beam_size: None,
                repetition_penalty: None,
                no_repeat_ngram_size: None,
            },
        ),
    )
}

/// Deterministic back half of the chat-completion endpoint: shapes
/// the first translated text (or an empty string when the engine
/// returned no result) into a single-choice response.
pub fn chat_response_of(model: String, results: &Vec<String>, created: u64) -> (r:
    ChatCompletionResponse)
    ensures
        r.id@ == "chatcmpl-123"@,
        r.object@ == "chat.completion"@,
        r.created == created,
        r.model == model,
        r.choices@.len() == 1,
        r.choices@[0].index == 0,
        r.choices@[0].message.role@ == "assistant"@,
        r.choices@[0].message.content@ == (if results@.len() > 0 {
            results@[0]@
        } else {
            Seq::<char>::empty()
        }),
        r.choices@[0].finish_reason matches Some(f) && f@ == "stop"@,
        r.usage is None,
{
    let content = if results.len() > 0 {
        results[0].clone()
    } else {
        String::new()
    };
    let mut choices: Vec<ChatCompletionChoice> = Vec::new();
    choices.push(
        ChatCompletionChoice {
            index: 0,
            message: ChatCompletionMessage { role: String::from_str("assistant"), content },
            finish_reason: Some(String::from_str("stop")),
        },
    );
    ChatCompletionResponse {
        id: String::from_str("chatcmpl-123"),
        object: String::from_str("chat.completion"),
        created,
        model,
        choices,
        usage: None,
    }
}

} // verus!
