//! The prompt sent to the generation backend: the conversation so far, the
//! retrieved context and the question, under one of two fixed instructions.

use vstd::prelude::*;
use vstd::string::StringExecFns;
use crate::api::completions::ApiMessage;

verus! {

/// The instruction of an answering prompt.
pub const RAG_INSTRUCTION: &'static str =
    "You are Echelon, TCU's AI academic advising assistant designed to help students and faculty. You are talking with a student who has an academic profile. Everytime the user says 'I' they are referring to the academic profile. If courses are listed as '0.00' for 'Earned' or 'Points', assume these classes are currently being completed this semester. You should determine which year the student is currently enrolled as when you answer questions. Use the following pieces of retrieved context to answer the question with accurate information about TCU courses, programs, and policies. Format your responses in a clear, concise manner using markdown for readability when appropriate. When discussing courses, include course codes and relevant details such as prerequisites when available. Review the chat history before answering to maintain conversation continuity. If information is available in the context, provide specific, actionable guidance. If information is partially available, clearly indicate what is known and what might require further clarification. If you don't know or can't find the answer in the provided context, acknowledge this honestly and suggest how the user might find the information elsewhere (e.g., 'You may want to check with your academic advisor or the registrar's office for the most current information about this'). Never mention that you are using retrieved context or vector search in your responses.";

/// The instruction of a titling prompt.
pub const TITLE_INSTRUCTION: &'static str =
    "Analyze the following conversation and generate a concise, descriptive title (maximum 8 words) that captures the main topic or purpose. The title should:\n1. Identify the core subject matter or question being discussed.\n2. Be specific enough to distinguish this conversation from others.\n3. Avoid generic phrases like 'Discussion about' or 'Conversation regarding.'\n4. Prioritize the earliest messages, which typically establish the conversation's purpose.\n5. Capture any unique aspects, project names, or specific requests.\n6. Be formatted in title case.\nOutput only the title as plain text, without any formatting, quotation marks, or additional explanations.";

/// The task a prompt is for.
#[derive(Debug, Clone, Copy, PartialEq, Eq, Structural)]
pub enum Instruction {
    RAG,
    Title,
}

impl Instruction {
    /// The fixed instruction text of the task.
    pub open spec fn text(self) -> Seq<char> {
        match self {
            Instruction::RAG => RAG_INSTRUCTION@,
            Instruction::Title => TITLE_INSTRUCTION@,
        }
    }

    /// The fixed instruction text of the task.
    pub fn as_str(&self) -> (s: &'static str)
        ensures
            s@ == self.text(),
    {
        match self {
            Instruction::RAG => RAG_INSTRUCTION,
            Instruction::Title => TITLE_INSTRUCTION,
        }
    }
}

/// One message as a line of the chat history.
pub open spec fn history_line(message: ApiMessage) -> Seq<char> {
    "[role: "@ + message.role.name() + ", content: "@ + message.content@ + "]\n"@
}

/// The chat history: one line per message, in the order given.
pub open spec fn history_text(history: Seq<ApiMessage>) -> Seq<char>
    decreases history.len(),
{
    if history.len() == 0 {
        Seq::empty()
    } else {
        history_text(history.drop_last()) + history_line(history.last())
    }
}

/// The text of an optional part: its value, or nothing.
pub open spec fn or_empty(part: Option<String>) -> Seq<char> {
    match part {
        Some(value) => value@,
        None => Seq::empty(),
    }
}

/// Appends the chat history to `out`.
fn push_history(out: &mut String, history: &Vec<ApiMessage>)
    ensures
        final(out)@ == old(out)@ + history_text(history@),
{
    let ghost start = out@;
    let mut i: usize = 0;
    assert(history@.take(0) =~= Seq::empty());
    while i < history.len()
        invariant
            i <= history.len(),
            out@ == start + history_text(history@.take(i as int)),
        decreases history.len() - i,
    {
        let ghost before = history@.take(i as int);
        let ghost after = history@.take(i + 1);
        proof {
            assert(after.drop_last() =~= before);
            assert(after.last() == history@[i as int]);
        }
        let role = history[i].role.to_string();
        out.append("[role: ");
        out.append(role.as_str());
        out.append(", content: ");
        out.append(history[i].content.as_str());
        out.append("]\n");
        assert(out@ =~= start + history_text(after));
        i += 1;
    }
    assert(history@.take(history.len() as int) =~= history@);
}

/// Appends an optional part to `out`; a missing part adds nothing.
fn push_or_empty(out: &mut String, part: &Option<String>)
    ensures
        final(out)@ == old(out)@ + or_empty(*part),
{
    match part {
        Some(value) => out.append(value.as_str()),
        None => {
            assert(out@ + Seq::<char>::empty() =~= out@);
        },
    }
}

#[derive(Debug, Clone)]
pub struct Prompt {
    pub history: Vec<ApiMessage>,
    pub profile: Option<String>,
    pub context: Option<String>,
    pub question: Option<String>,
    pub instruction: Instruction,
}

impl Prompt {
    /// The answering form: the chat history, then the profile, the context
    /// and the question, each under its heading, then the instruction. A
    /// missing part leaves its heading in place over an empty line.
    pub open spec fn rag_text(self) -> Seq<char> {
        "Chat History:\n"@ + history_text(self.history@) + "Student's Academic Profile: \n"@
            + or_empty(self.profile) + "\nContext:\n"@ + or_empty(self.context) + "\nQuestion:\n"@
            + or_empty(self.question) + "\nInstruction:\n"@ + self.instruction.text()
            + "\n        "@
    }

    /// The titling form: the chat history, then the instruction. Profile,
    /// context and question take no part in it.
    pub open spec fn title_text(self) -> Seq<char> {
        "Chat History:\n"@ + history_text(self.history@) + "\nInstruction:\n"@
            + self.instruction.text() + "\n        "@
    }

    /// The text of the prompt in the form that its task selects.
    pub open spec fn text(self) -> Seq<char> {
        match self.instruction {
            Instruction::RAG => self.rag_text(),
            Instruction::Title => self.title_text(),
        }
    }

    pub fn new(
        history: Vec<ApiMessage>,
        profile: Option<String>,
        context: Option<String>,
        question: Option<String>,
        instruction: Instruction,
    ) -> (p: Prompt)
        ensures
            p == (Prompt { history, profile, context, question, instruction }),
    {
        Prompt { history, profile, instruction, context, question }
    }

    /// Renders the prompt in the answering form.
    pub fn to_string_rag(self) -> (s: String)
        ensures
            s@ == self.rag_text(),
    {
        let mut s = String::from_str("Chat History:\n");
        push_history(&mut s, &self.history);
        s.append("Student's Academic Profile: \n");
        push_or_empty(&mut s, &self.profile);
        s.append("\nContext:\n");
        push_or_empty(&mut s, &self.context);
        s.append("\nQuestion:\n");
        push_or_empty(&mut s, &self.question);
        s.append("\nInstruction:\n");
        s.append(self.instruction.as_str());
        s.append("\n        ");
        s
    }

    /// Renders the prompt in the titling form.
    pub fn to_string_title(self) -> (s: String)
        ensures
            s@ == self.title_text(),
    {
        let mut s = String::from_str("Chat History:\n");
        push_history(&mut s, &self.history);
        s.append("\nInstruction:\n");
        s.append(self.instruction.as_str());
        s.append("\n        ");
        s
    }

    /// Renders the prompt in the form that its task selects.
    pub fn assemble(self) -> (s: String)
        ensures
            s@ == self.text(),
    {
        match self.instruction {
            Instruction::RAG => self.to_string_rag(),
            Instruction::Title => self.to_string_title(),
        }
    }
}

} // verus!
