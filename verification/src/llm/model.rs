//! The generation models and the names under which the backend knows them.

use vstd::prelude::*;
use vstd::string::StringExecFns;
use crate::text::same_text;

verus! {

#[derive(Debug, Clone, Copy, PartialEq, Eq, Structural)]
pub enum Model {
    Llama3_3b,
    Qwen,
    Phi4,
    GPT4o,
    BespokeMinicheck,
    Mistral24b,
    Gemma3,
    MistralSmall,
}

impl Model {
    /// The name under which the backend knows the model.
    pub open spec fn name(self) -> Seq<char> {
        match self {
            Model::Llama3_3b => "llama3.2:latest"@,
            Model::Qwen => "qwen2.5:72b-instruct-q4_K_M"@,
            Model::Phi4 => "phi4:14b-q4_K_M"@,
            Model::GPT4o => "gpt-4o-2024-08-06"@,
            Model::BespokeMinicheck => "bespoke-minicheck"@,
            Model::Mistral24b => "mistral-small:24b-instruct-2501-q4_K_M"@,
            Model::Gemma3 => "gemma3:27b-it-q4_K_M"@,
            Model::MistralSmall => "mistral-small3.1:24b-instruct-2503-q4_K_M"@,
        }
    }

    /// The name under which the backend knows the model.
    pub fn as_str(&self) -> (s: &'static str)
        ensures
            s@ == self.name(),
    {
        match self {
            Model::Llama3_3b => "llama3.2:latest",
            Model::Qwen => "qwen2.5:72b-instruct-q4_K_M",
            Model::Phi4 => "phi4:14b-q4_K_M",
            Model::GPT4o => "gpt-4o-2024-08-06",
            Model::BespokeMinicheck => "bespoke-minicheck",
            Model::Mistral24b => "mistral-small:24b-instruct-2501-q4_K_M",
            Model::Gemma3 => "gemma3:27b-it-q4_K_M",
            Model::MistralSmall => "mistral-small3.1:24b-instruct-2503-q4_K_M",
        }
    }

    /// The model that the backend knows under `name`, if there is one.
    pub open spec fn named(name: Seq<char>) -> Option<Model> {
        if name == Model::Llama3_3b.name() {
            Some(Model::Llama3_3b)
        } else if name == Model::Qwen.name() {
            Some(Model::Qwen)
        } else if name == Model::Phi4.name() {
            Some(Model::Phi4)
        } else if name == Model::GPT4o.name() {
            Some(Model::GPT4o)
        } else if name == Model::BespokeMinicheck.name() {
            Some(Model::BespokeMinicheck)
        } else if name == Model::Mistral24b.name() {
            Some(Model::Mistral24b)
        } else if name == Model::Gemma3.name() {
            Some(Model::Gemma3)
        } else if name == Model::MistralSmall.name() {
            Some(Model::MistralSmall)
        } else {
            None
        }
    }

    /// Finds the model that the backend knows under the name `s`.
    pub fn from_str(s: &str) -> (m: Option<Model>)
        ensures
            m == Model::named(s@),
    {
        if same_text(s, Model::Llama3_3b.as_str()) {
            Some(Model::Llama3_3b)
        } else if same_text(s, Model::Qwen.as_str()) {
            Some(Model::Qwen)
        } else if same_text(s, Model::Phi4.as_str()) {
            Some(Model::Phi4)
        } else if same_text(s, Model::GPT4o.as_str()) {
            Some(Model::GPT4o)
        } else if same_text(s, Model::BespokeMinicheck.as_str()) {
            Some(Model::BespokeMinicheck)
        } else if same_text(s, Model::Mistral24b.as_str()) {
            Some(Model::Mistral24b)
        } else if same_text(s, Model::Gemma3.as_str()) {
            Some(Model::Gemma3)
        } else if same_text(s, Model::MistralSmall.as_str()) {
            Some(Model::MistralSmall)
        } else {
            None
        }
    }

    /// Renders the model as its backend name.
    pub fn to_string(&self) -> (s: String)
        ensures
            s@ == self.name(),
    {
        String::from_str(self.as_str())
    }
}

/// No two models share a name: the name of a model finds that model.
pub proof fn lemma_model_is_found_by_its_name(model: Model)
    ensures
        Model::named(model.name()) == Some(model),
{
    reveal_strlit("llama3.2:latest");
    reveal_strlit("qwen2.5:72b-instruct-q4_K_M");
    reveal_strlit("phi4:14b-q4_K_M");
    reveal_strlit("gpt-4o-2024-08-06");
    reveal_strlit("bespoke-minicheck");
    reveal_strlit("mistral-small:24b-instruct-2501-q4_K_M");
    reveal_strlit("gemma3:27b-it-q4_K_M");
    reveal_strlit("mistral-small3.1:24b-instruct-2503-q4_K_M");
    assert(Model::Llama3_3b.name()[0] == 'l');
    assert(Model::Qwen.name()[0] == 'q');
    assert(Model::Phi4.name()[0] == 'p');
    assert(Model::GPT4o.name()[0] == 'g');
    assert(Model::GPT4o.name()[1] == 'p');
    assert(Model::BespokeMinicheck.name()[0] == 'b');
    assert(Model::Mistral24b.name()[0] == 'm');
    assert(Model::Mistral24b.name()[13] == ':');
    assert(Model::Gemma3.name()[0] == 'g');
    assert(Model::Gemma3.name()[1] == 'e');
    assert(Model::MistralSmall.name()[0] == 'm');
    assert(Model::MistralSmall.name()[13] == '3');
}

} // verus!
