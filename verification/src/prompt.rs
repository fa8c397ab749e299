//! The plain prompt: an instruction, an optional context and an optional
//! question.

use vstd::prelude::*;
use vstd::string::StringExecFns;

verus! {

/// The instruction a new prompt starts with.
pub const INSTRUCTION: &'static str =
    "You are a helpful assistant. Provide answers using only the given context. Feel free to use as much information in the given context as you want.";

/// The text that stands for an optional part: its value, or `None`.
pub open spec fn or_none(part: Option<String>) -> Seq<char> {
    match part {
        Some(value) => value@,
        None => "None"@,
    }
}

#[derive(Clone)]
pub struct Prompt {
    /// What the model is told to do.
    pub instruction: String,
    pub context: Option<String>,
    pub question: Option<String>,
}

impl Prompt {
    /// The text handed to the model.
    pub open spec fn rendered(self) -> Seq<char> {
        self.instruction@ + "\nContext: "@ + or_none(self.context) + "\nQuestion: "@ + or_none(
            self.question,
        )
    }

    /// A prompt with the default instruction and neither context nor question.
    pub fn new() -> (p: Prompt)
        ensures
            p.instruction@ == INSTRUCTION@,
            p.context is None,
            p.question is None,
    {
        Prompt { instruction: String::from_str(INSTRUCTION), context: None, question: None }
    }

    /// Replaces the instruction.
    pub fn instruction(self, instruction: String) -> (p: Prompt)
        ensures
            p == (Prompt { instruction, ..self }),
    {
        let mut p = self;
        p.instruction = instruction;
        p
    }

    /// Sets the context.
    pub fn context(self, context: String) -> (p: Prompt)
        ensures
            p == (Prompt { context: Some(context), ..self }),
    {
        let mut p = self;
        p.context = Some(context);
        p
    }

    /// Sets the question.
    pub fn question(self, question: String) -> (p: Prompt)
        ensures
            p == (Prompt { question: Some(question), ..self }),
    {
        let mut p = self;
        p.question = Some(question);
        p
    }

    /// Renders the prompt: the instruction, then the context and the question
    /// on a line each, a missing one written as `None`.
    pub fn to_string(self) -> (s: String)
        ensures
            s@ == self.rendered(),
    {
        let mut s = self.instruction;
        s.append("\nContext: ");
        match &self.context {
            Some(value) => s.append(value.as_str()),
            None => s.append("None"),
        }
        s.append("\nQuestion: ");
        match &self.question {
            Some(value) => s.append(value.as_str()),
            None => s.append("None"),
        }
        s
    }
}

} // verus!
