use backend::prompt::Prompt;

#[test]
fn test_prompt_to_string_no_context_no_question() {
    let prompt = Prompt::new();
    let formatted_prompt = format!("{}\nContext: None\nQuestion: None", prompt.instruction);

    assert_eq!(formatted_prompt, prompt.to_string())
}

#[test]
fn test_prompt_to_string() {
    let prompt = Prompt::new()
        .context("TCU is a private university in Fort Worth, TX.".to_string())
        .question("What is TCU?".to_string());

    let formatted_prompt = format!(
        "{}\nContext: TCU is a private university in Fort Worth, TX.\nQuestion: What is TCU?",
        prompt.instruction
    );

    assert_eq!(formatted_prompt, prompt.to_string())
}

#[test]
fn prompt_default_instruction_is_exact() {
    let prompt = Prompt::new();
    assert_eq!(
        prompt.instruction,
        "You are a helpful assistant. Provide answers using only the given context. \
         Feel free to use as much information in the given context as you want."
    );
    assert!(prompt.context.is_none());
    assert!(prompt.question.is_none());
}

#[test]
fn prompt_builders_replace_one_field_each() {
    let prompt = Prompt::new()
        .instruction("Answer briefly.".to_string())
        .context("ctx".to_string());
    assert_eq!(prompt.instruction, "Answer briefly.");
    assert_eq!(prompt.context.as_deref(), Some("ctx"));
    assert!(prompt.question.is_none());
    assert_eq!(
        prompt.to_string(),
        "Answer briefly.\nContext: ctx\nQuestion: None"
    );
}
