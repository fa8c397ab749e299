//! The generation backend as plain records: where it listens, what is sent
//! to it and what it sends back.

use vstd::prelude::*;
use vstd::std_specs::convert::FromSpecImpl;
use vstd::string::StringExecFns;
use crate::error::InferenceError;
use crate::llm::inference::{
    InferenceOptions, InferenceRequest, InferenceResponse, DEFAULT_CONTEXT_WINDOW,
    DEFAULT_MAX_TOKENS, DEFAULT_TEMPERATURE,
};
use crate::llm::model::Model;

verus! {

/// Nanoseconds in a millisecond.
pub const NANOS_PER_MILLI: u64 = 1_000_000;

/// A generation backend: its address and the model it is asked for.
#[derive(Debug, Clone)]
pub struct OllamaAdapter {
    pub host: String,
    pub port: u16,
    pub model: Model,
}

impl OllamaAdapter {
    pub fn new(model: Model, host: &str, port: u16) -> (a: OllamaAdapter)
        ensures
            a.model == model,
            a.host@ == host@,
            a.port == port,
    {
        OllamaAdapter { host: String::from_str(host), port, model }
    }

    /// The model that the adapter asks for.
    pub fn model(&self) -> (m: &Model)
        ensures
            *m == self.model,
    {
        &self.model
    }

    /// The request that the adapter sends for `request`: the prompt in the
    /// form its task selects, under the adapter's model, with the request's
    /// options or, where it has none, the defaults.
    pub fn generation_request(&self, request: InferenceRequest) -> (r: GenerationRequest)
        ensures
            r.model_name@ == self.model.name(),
            r.prompt@ == request.prompt.text(),
            r.options == Some(
                match request.options {
                    Some(options) => options.generation_options(),
                    None => InferenceOptions::defaults().generation_options(),
                },
            ),
    {
        let options = match request.options {
            Some(options) => options,
            None => InferenceOptions::default(),
        };
        let settings = GenerationOptions::from(options);
        let bare = InferenceRequest { prompt: request.prompt, options: None };
        bare.to_generation_request(&self.model).options(settings)
    }
}

/// The sampling options in the backend's terms.
#[derive(Debug, Clone, Copy, PartialEq, Eq, Structural)]
pub struct GenerationOptions {
    /// The most tokens to generate; -1 for no bound.
    pub num_predict: i32,
    /// The size of the context window, in tokens.
    pub num_ctx: u64,
    /// The sampling temperature, as the bits of a single-precision number.
    pub temperature: u32,
}

/// A request to the backend.
#[derive(Debug, Clone)]
pub struct GenerationRequest {
    pub model_name: String,
    pub prompt: String,
    pub options: Option<GenerationOptions>,
}

impl GenerationRequest {
    pub fn new(model_name: String, prompt: String) -> (r: GenerationRequest)
        ensures
            r == (GenerationRequest { model_name, prompt, options: None }),
    {
        GenerationRequest { model_name, prompt, options: None }
    }

    /// Sets the sampling options.
    pub fn options(self, options: GenerationOptions) -> (r: GenerationRequest)
        ensures
            r == (GenerationRequest { options: Some(options), ..self }),
    {
        let mut r = self;
        r.options = Some(options);
        r
    }
}

/// The backend's answer to a request that is not streamed.
#[derive(Debug, Clone)]
pub struct GenerationResponse {
    pub response: String,
    /// The number of tokens generated.
    pub eval_count: Option<u16>,
    /// The time spent generating, in nanoseconds.
    pub eval_duration: Option<u64>,
}

/// Whole milliseconds in a span of nanoseconds.
pub open spec fn whole_millis(nanos: Option<u64>) -> Option<u64> {
    match nanos {
        Some(n) => Some((n / NANOS_PER_MILLI) as u64),
        None => None,
    }
}

impl InferenceRequest {
    /// The backend request for this request's prompt, without options.
    pub fn to_generation_request(self, model: &Model) -> (r: GenerationRequest)
        ensures
            r.model_name@ == model.name(),
            r.prompt@ == self.prompt.text(),
            r.options is None,
    {
        let prompt = self.prompt.assemble();
        GenerationRequest::new(model.to_string(), prompt)
    }
}

/// The error of a generation that the backend could not perform: the
/// backend's own words are its message.
pub fn generation_failure(cause: &str) -> (e: InferenceError)
    ensures
        e.message() == cause@,
{
    InferenceError::Message(String::from_str(cause))
}

impl InferenceResponse {
    /// The answer as the library reports it: the text, the token count and
    /// the generation time in whole milliseconds.
    pub fn new(response: GenerationResponse) -> (r: InferenceResponse)
        ensures
            r.content == response.response,
            r.token_count == response.eval_count,
            r.generation_time == whole_millis(response.eval_duration),
    {
        let generation_time = match response.eval_duration {
            Some(duration) => Some(duration / NANOS_PER_MILLI),
            None => None,
        };
        InferenceResponse {
            content: response.response,
            token_count: response.eval_count,
            generation_time,
        }
    }
}

impl InferenceOptions {
    /// The options in the backend's terms. An option without a value takes
    /// its default.
    pub open spec fn generation_options(self) -> GenerationOptions {
        GenerationOptions {
            num_predict: match self.max_tokens {
                Some(tokens) => tokens,
                None => DEFAULT_MAX_TOKENS,
            },
            num_ctx: match self.context_window {
                Some(size) => size,
                None => DEFAULT_CONTEXT_WINDOW,
            },
            temperature: match self.temperature {
                Some(temp) => temp,
                None => DEFAULT_TEMPERATURE,
            },
        }
    }
}

impl From<InferenceOptions> for GenerationOptions {
    fn from(options: InferenceOptions) -> (r: GenerationOptions) {
        GenerationOptions {
            num_predict: match options.max_tokens {
                Some(tokens) => tokens,
                None => DEFAULT_MAX_TOKENS,
            },
            num_ctx: match options.context_window {
                Some(size) => size,
                None => DEFAULT_CONTEXT_WINDOW,
            },
            temperature: match options.temperature {
                Some(temp) => temp,
                None => DEFAULT_TEMPERATURE,
            },
        }
    }
}

impl FromSpecImpl<InferenceOptions> for GenerationOptions {
    open spec fn obeys_from_spec() -> bool {
        true
    }

    open spec fn from_spec(options: InferenceOptions) -> GenerationOptions {
        options.generation_options()
    }
}

} // verus!
