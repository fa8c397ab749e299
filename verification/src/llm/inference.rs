//! Generation requests, their options and the answers.

use vstd::prelude::*;
use crate::llm::model::Model;
use crate::llm::ollama::OllamaAdapter;
use crate::llm::prompt::Prompt;

verus! {

/// The default bound on generated tokens: none.
pub const DEFAULT_MAX_TOKENS: i32 = -1;

/// The default size of the context window, in tokens.
pub const DEFAULT_CONTEXT_WINDOW: u64 = 32768;

/// The default sampling temperature, 0.8, as the bits of a single-precision
/// number.
pub const DEFAULT_TEMPERATURE: u32 = 0x3F4C_CCCD;

/// The adapter that serves `model`. Every model is served by the same kind of
/// backend.
pub fn build(model: Model, host: &str, port: u16) -> (a: OllamaAdapter)
    ensures
        a.model == model,
        a.host@ == host@,
        a.port == port,
{
    OllamaAdapter::new(model, host, port)
}

#[derive(Debug, Clone)]
pub struct InferenceRequest {
    pub prompt: Prompt,
    pub options: Option<InferenceOptions>,
}

impl InferenceRequest {
    pub fn new(prompt: Prompt) -> (r: InferenceRequest)
        ensures
            r.prompt == prompt,
            r.options is None,
    {
        InferenceRequest { prompt, options: None }
    }

    /// Sets the options of the request.
    pub fn options(self, options: InferenceOptions) -> (r: InferenceRequest)
        ensures
            r.prompt == self.prompt,
            r.options == Some(options),
    {
        let mut r = self;
        r.options = Some(options);
        r
    }
}

#[derive(Debug, Clone, Copy, PartialEq, Eq, Structural)]
pub struct InferenceOptions {
    /// The most tokens to generate; -1 for no bound.
    pub max_tokens: Option<i32>,
    /// The size of the context window, in tokens.
    pub context_window: Option<u64>,
    /// The sampling temperature, as the bits of a single-precision number;
    /// higher values give more varied text.
    pub temperature: Option<u32>,
}

impl Default for InferenceOptions {
    fn default() -> (r: InferenceOptions)
        ensures
            r == InferenceOptions::defaults(),
    {
        InferenceOptions {
            max_tokens: Some(DEFAULT_MAX_TOKENS),
            context_window: Some(DEFAULT_CONTEXT_WINDOW),
            temperature: Some(DEFAULT_TEMPERATURE),
        }
    }
}

impl InferenceOptions {
    /// The options used where a request names none: no bound on generated
    /// tokens, a window of 32768 tokens, a temperature of 0.8.
    pub open spec fn defaults() -> InferenceOptions {
        InferenceOptions {
            max_tokens: Some(DEFAULT_MAX_TOKENS),
            context_window: Some(DEFAULT_CONTEXT_WINDOW),
            temperature: Some(DEFAULT_TEMPERATURE),
        }
    }

    pub fn max_tokens(self, tokens: i32) -> (r: InferenceOptions)
        ensures
            r == (InferenceOptions { max_tokens: Some(tokens), ..self }),
    {
        let mut r = self;
        r.max_tokens = Some(tokens);
        r
    }

    pub fn context_window(self, size: u64) -> (r: InferenceOptions)
        ensures
            r == (InferenceOptions { context_window: Some(size), ..self }),
    {
        let mut r = self;
        r.context_window = Some(size);
        r
    }

    /// Sets the temperature, given as the bits of a single-precision number.
    pub fn temperature(self, temp: u32) -> (r: InferenceOptions)
        ensures
            r == (InferenceOptions { temperature: Some(temp), ..self }),
    {
        let mut r = self;
        r.temperature = Some(temp);
        r
    }
}

#[derive(Debug, Clone)]
pub struct InferenceResponse {
    /// The generated text: the whole answer, or one fragment of a stream.
    pub content: String,
    /// The number of tokens in the generated text.
    pub token_count: Option<u16>,
    /// The generation time in milliseconds.
    pub generation_time: Option<u64>,
}

} // verus!
