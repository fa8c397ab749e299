use backend::api::completions::ApiMessage;
use backend::llm::inference::{
    build, InferenceOptions, InferenceRequest, InferenceResponse, DEFAULT_CONTEXT_WINDOW,
    DEFAULT_MAX_TOKENS, DEFAULT_TEMPERATURE,
};
use backend::llm::model::Model;
use backend::llm::ollama::{
    generation_failure, GenerationOptions, GenerationRequest, GenerationResponse, OllamaAdapter,
};
use backend::llm::prompt::{Instruction, Prompt};
use backend::storage::model::DBMessageRole;

fn prompt(instruction: Instruction) -> Prompt {
    Prompt::new(
        vec![ApiMessage { role: DBMessageRole::User, content: "hi".to_string() }],
        None,
        Some("ctx".to_string()),
        Some("hi".to_string()),
        instruction,
    )
}

#[test]
fn model_names() {
    assert_eq!(Model::Llama3_3b.to_string(), "llama3.2:latest");
    assert_eq!(Model::Qwen.to_string(), "qwen2.5:72b-instruct-q4_K_M");
    assert_eq!(Model::Phi4.to_string(), "phi4:14b-q4_K_M");
    assert_eq!(Model::GPT4o.to_string(), "gpt-4o-2024-08-06");
    assert_eq!(Model::BespokeMinicheck.to_string(), "bespoke-minicheck");
    assert_eq!(Model::Mistral24b.to_string(), "mistral-small:24b-instruct-2501-q4_K_M");
    assert_eq!(Model::Gemma3.to_string(), "gemma3:27b-it-q4_K_M");
    assert_eq!(Model::MistralSmall.to_string(), "mistral-small3.1:24b-instruct-2503-q4_K_M");
    assert_eq!(Model::Phi4.as_str(), "phi4:14b-q4_K_M");
}

#[test]
fn default_options() {
    let options = InferenceOptions::default();
    assert_eq!(options.max_tokens, Some(-1));
    assert_eq!(options.context_window, Some(32768));
    assert_eq!(options.temperature, Some(0.8f32.to_bits()));
    assert_eq!(DEFAULT_MAX_TOKENS, -1);
    assert_eq!(DEFAULT_CONTEXT_WINDOW, 32768);
    assert_eq!(f32::from_bits(DEFAULT_TEMPERATURE), 0.8f32);
}

#[test]
fn options_can_be_overridden_one_by_one() {
    let options = InferenceOptions::default()
        .max_tokens(256)
        .context_window(4096)
        .temperature(0.25f32.to_bits());
    assert_eq!(options.max_tokens, Some(256));
    assert_eq!(options.context_window, Some(4096));
    assert_eq!(options.temperature.map(f32::from_bits), Some(0.25));
    let only_tokens = InferenceOptions::default().max_tokens(7);
    assert_eq!(only_tokens.context_window, Some(32768));
    assert_eq!(only_tokens.temperature, Some(DEFAULT_TEMPERATURE));
}

#[test]
fn options_in_the_backends_terms() {
    let settings = GenerationOptions::from(InferenceOptions::default().max_tokens(12));
    assert_eq!(
        settings,
        GenerationOptions { num_predict: 12, num_ctx: 32768, temperature: 0.8f32.to_bits() }
    );
}

#[test]
fn option_without_a_value_takes_its_default() {
    let bare = InferenceOptions { max_tokens: None, context_window: None, temperature: None };
    assert_eq!(
        GenerationOptions::from(bare),
        GenerationOptions { num_predict: -1, num_ctx: 32768, temperature: 0.8f32.to_bits() }
    );
    let partly = InferenceOptions { max_tokens: Some(5), context_window: None, temperature: Some(0) };
    assert_eq!(
        GenerationOptions::from(partly),
        GenerationOptions { num_predict: 5, num_ctx: 32768, temperature: 0 }
    );
    let adapter = OllamaAdapter::new(Model::Phi4, "h", 1);
    let r = adapter
        .generation_request(InferenceRequest::new(prompt(Instruction::RAG)).options(partly));
    assert_eq!(
        r.options,
        Some(GenerationOptions { num_predict: 5, num_ctx: 32768, temperature: 0 })
    );
}

#[test]
fn request_builder() {
    let request = InferenceRequest::new(prompt(Instruction::RAG));
    assert!(request.options.is_none());
    let request = request.options(InferenceOptions::default().max_tokens(3));
    assert_eq!(request.options.unwrap().max_tokens, Some(3));
}

#[test]
fn response_reports_whole_milliseconds() {
    let response = InferenceResponse::new(GenerationResponse {
        response: "answer".to_string(),
        eval_count: Some(42),
        eval_duration: Some(1_999_999),
    });
    assert_eq!(response.content, "answer");
    assert_eq!(response.token_count, Some(42));
    assert_eq!(response.generation_time, Some(1));

    let exact = InferenceResponse::new(GenerationResponse {
        response: String::new(),
        eval_count: None,
        eval_duration: Some(2_000_000),
    });
    assert_eq!(exact.generation_time, Some(2));
    assert_eq!(exact.token_count, None);

    let short = InferenceResponse::new(GenerationResponse {
        response: String::new(),
        eval_count: None,
        eval_duration: Some(999_999),
    });
    assert_eq!(short.generation_time, Some(0));

    let long = InferenceResponse::new(GenerationResponse {
        response: String::new(),
        eval_count: None,
        eval_duration: Some(u64::MAX),
    });
    assert_eq!(long.generation_time, Some(18_446_744_073_709));

    let untimed = InferenceResponse::new(GenerationResponse {
        response: String::new(),
        eval_count: Some(1),
        eval_duration: None,
    });
    assert_eq!(untimed.generation_time, None);
}

#[test]
fn generation_request_carries_model_and_assembled_prompt() {
    let rag = InferenceRequest::new(prompt(Instruction::RAG));
    let r = rag.to_generation_request(&Model::Mistral24b);
    assert_eq!(r.model_name, "mistral-small:24b-instruct-2501-q4_K_M");
    assert_eq!(r.prompt, prompt(Instruction::RAG).to_string_rag());
    assert!(r.options.is_none());

    let title = InferenceRequest::new(prompt(Instruction::Title));
    let r = title.to_generation_request(&Model::Phi4);
    assert_eq!(r.model_name, "phi4:14b-q4_K_M");
    assert_eq!(r.prompt, prompt(Instruction::Title).to_string_title());
}

#[test]
fn generation_request_builder() {
    let r = GenerationRequest::new("m".to_string(), "p".to_string());
    assert_eq!(r.model_name, "m");
    assert_eq!(r.prompt, "p");
    assert!(r.options.is_none());
    let settings = GenerationOptions { num_predict: 1, num_ctx: 2, temperature: 3 };
    assert_eq!(r.options(settings).options, Some(settings));
}

#[test]
fn adapter_uses_default_options_where_the_request_has_none() {
    let adapter = build(Model::Gemma3, "http://localhost", 11434);
    assert_eq!(adapter.host, "http://localhost");
    assert_eq!(adapter.port, 11434);
    assert_eq!(*adapter.model(), Model::Gemma3);
    let r = adapter.generation_request(InferenceRequest::new(prompt(Instruction::RAG)));
    assert_eq!(r.model_name, "gemma3:27b-it-q4_K_M");
    assert_eq!(r.prompt, prompt(Instruction::RAG).to_string_rag());
    assert_eq!(
        r.options,
        Some(GenerationOptions { num_predict: -1, num_ctx: 32768, temperature: 0.8f32.to_bits() })
    );
}

#[test]
fn adapter_uses_the_options_of_the_request() {
    let adapter = OllamaAdapter::new(Model::Qwen, "host", 1);
    let options = InferenceOptions::default().max_tokens(64).temperature(0.0f32.to_bits());
    let r = adapter
        .generation_request(InferenceRequest::new(prompt(Instruction::Title)).options(options));
    assert_eq!(
        r.options,
        Some(GenerationOptions { num_predict: 64, num_ctx: 32768, temperature: 0 })
    );
    assert_eq!(r.prompt, prompt(Instruction::Title).to_string_title());
}

#[test]
fn models_are_found_by_their_names() {
    let all = [
        Model::Llama3_3b,
        Model::Qwen,
        Model::Phi4,
        Model::GPT4o,
        Model::BespokeMinicheck,
        Model::Mistral24b,
        Model::Gemma3,
        Model::MistralSmall,
    ];
    for model in all {
        assert_eq!(Model::from_str(&model.to_string()), Some(model));
    }
    assert_eq!(Model::from_str("phi4:14b-q4_K_M"), Some(Model::Phi4));
    assert_eq!(Model::from_str("Phi4"), None);
    assert_eq!(Model::from_str(""), None);
    assert_eq!(Model::from_str("llama3.2:latest "), None);
}

#[test]
fn failure_of_the_backend_keeps_its_words() {
    assert_eq!(
        generation_failure("connection refused").to_string(),
        "Inference error occurred: connection refused"
    );
}
