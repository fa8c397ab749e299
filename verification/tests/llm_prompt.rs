use backend::api::completions::ApiMessage;
use backend::llm::prompt::{Instruction, Prompt, RAG_INSTRUCTION, TITLE_INSTRUCTION};
use backend::storage::model::DBMessageRole;

fn message(role: DBMessageRole, content: &str) -> ApiMessage {
    ApiMessage { role, content: content.to_string() }
}

fn conversation() -> Vec<ApiMessage> {
    vec![
        message(DBMessageRole::User, "What is CS 101?"),
        message(DBMessageRole::Assistant, "An introduction."),
        message(DBMessageRole::User, "Who teaches it?"),
    ]
}

#[test]
fn rag_prompt_is_assembled_in_order() {
    let prompt = Prompt::new(
        conversation(),
        Some("Junior, CS major".to_string()),
        Some("CS 101 is taught by Dr. A.".to_string()),
        Some("Who teaches it?".to_string()),
        Instruction::RAG,
    );
    let expected = format!(
        "Chat History:\n\
         [role: user, content: What is CS 101?]\n\
         [role: assistant, content: An introduction.]\n\
         [role: user, content: Who teaches it?]\n\
         Student's Academic Profile: \n\
         Junior, CS major\n\
         Context:\n\
         CS 101 is taught by Dr. A.\n\
         Question:\n\
         Who teaches it?\n\
         Instruction:\n\
         {}\n        ",
        RAG_INSTRUCTION
    );
    assert_eq!(prompt.to_string_rag(), expected);
}

#[test]
fn rag_prompt_keeps_the_headings_of_missing_parts() {
    let prompt = Prompt::new(vec![], None, None, None, Instruction::RAG);
    let expected = format!(
        "Chat History:\nStudent's Academic Profile: \n\nContext:\n\nQuestion:\n\nInstruction:\n{}\n        ",
        RAG_INSTRUCTION
    );
    assert_eq!(prompt.to_string_rag(), expected);
}

#[test]
fn title_prompt_ignores_profile_context_and_question() {
    let with_parts = Prompt::new(
        conversation(),
        Some("profile".to_string()),
        Some("context".to_string()),
        Some("question".to_string()),
        Instruction::Title,
    );
    let without = Prompt::new(conversation(), None, None, None, Instruction::Title);
    let expected = format!(
        "Chat History:\n\
         [role: user, content: What is CS 101?]\n\
         [role: assistant, content: An introduction.]\n\
         [role: user, content: Who teaches it?]\n\
         \nInstruction:\n{}\n        ",
        TITLE_INSTRUCTION
    );
    assert_eq!(with_parts.to_string_title(), expected);
    assert_eq!(without.to_string_title(), expected);
}

#[test]
fn assemble_follows_the_task() {
    let rag = Prompt::new(conversation(), None, Some("c".to_string()), None, Instruction::RAG);
    assert_eq!(rag.clone().assemble(), rag.to_string_rag());
    let title = Prompt::new(conversation(), None, Some("c".to_string()), None, Instruction::Title);
    assert_eq!(title.clone().assemble(), title.to_string_title());
}

#[test]
fn each_form_uses_the_instruction_of_the_prompt() {
    let title = Prompt::new(vec![], None, None, None, Instruction::Title);
    assert!(title.to_string_rag().ends_with(&format!("Instruction:\n{}\n        ", TITLE_INSTRUCTION)));
    let rag = Prompt::new(vec![], None, None, None, Instruction::RAG);
    assert!(rag.to_string_title().ends_with(&format!("Instruction:\n{}\n        ", RAG_INSTRUCTION)));
}

#[test]
fn instruction_texts_are_the_fixed_templates() {
    assert_eq!(Instruction::RAG.as_str(), RAG_INSTRUCTION);
    assert_eq!(Instruction::Title.as_str(), TITLE_INSTRUCTION);
    assert!(RAG_INSTRUCTION.starts_with("You are Echelon, TCU's AI academic advising assistant"));
    assert!(RAG_INSTRUCTION
        .ends_with("Never mention that you are using retrieved context or vector search in your responses."));
    assert_eq!(RAG_INSTRUCTION.len(), 1435);
    assert!(TITLE_INSTRUCTION.starts_with("Analyze the following conversation and generate a concise"));
    assert!(TITLE_INSTRUCTION.contains("(maximum 8 words)"));
    assert!(TITLE_INSTRUCTION.contains("should:\n1. Identify"));
    assert!(TITLE_INSTRUCTION.ends_with("quotation marks, or additional explanations."));
    assert_eq!(TITLE_INSTRUCTION.len(), 660);
}
