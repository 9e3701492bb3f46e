use chat_np::preset::{assemble, join_parts, plain_prompt, weekday_label, CalendarDay, Preset, PromptExample};

fn bare(name: &str) -> Preset {
    Preset::new(name.to_string(), "test preset".to_string(), 20, true)
}

fn price_preset() -> Preset {
    let mut p = bare("prices");
    p.system_prompt = "You classify prices.".to_string();
    p.instruction = Some("Reply with one word.".to_string());
    p.examples = Some(vec![PromptExample { input: "$5".to_string(), output: "cheap".to_string() }]);
    p.negative_prompt = Some("explanations".to_string());
    p.response_format = Some("single word".to_string());
    p
}

#[test]
fn bare_preset_wraps_input_only() {
    let p = bare("plain");
    assert_eq!(p.build_full_prompt("X"), "\n\nInput: X\nOutput:");
    assert_eq!(assemble(&p, "X", &None), "\n\nInput: X\nOutput:");
}

#[test]
fn bare_preset_defaults() {
    let p = bare("plain");
    assert_eq!(p.name, "plain");
    assert_eq!(p.description, "test preset");
    assert_eq!(p.max_tokens, 20);
    assert!(p.stop_on_newline);
    assert!(p.system_prompt.is_empty());
    assert!(p.instruction.is_none());
    assert!(p.examples.is_none());
    assert!(p.negative_prompt.is_none());
    assert!(p.response_format.is_none());
    assert!(!p.include_current_date);
}

#[test]
fn full_preset_assembles_blocks_in_order() {
    let p = price_preset();
    let expected = "You classify prices.\n\nReply with one word.\n\nExamples:\nInput: $5\nOutput: cheap\n\nDO NOT: explanations\n\nResponse format: single word\n\nInput: $500\nOutput:";
    assert_eq!(p.build_full_prompt("$500"), expected);
}

#[test]
fn assembly_is_repeatable() {
    let p = price_preset();
    assert_eq!(p.build_full_prompt("$7"), p.build_full_prompt("$7"));
}

#[test]
fn several_examples_are_separated_by_blank_lines() {
    let mut p = bare("ex");
    p.examples = Some(vec![
        PromptExample { input: "a".to_string(), output: "1".to_string() },
        PromptExample { input: "b".to_string(), output: "2".to_string() },
    ]);
    assert_eq!(
        p.build_full_prompt("c"),
        "Examples:\nInput: a\nOutput: 1\n\nInput: b\nOutput: 2\n\nInput: c\nOutput:"
    );
}

#[test]
fn empty_examples_and_instruction_are_skipped() {
    let mut p = bare("ex");
    p.examples = Some(vec![]);
    p.instruction = Some(String::new());
    p.response_format = Some("json".to_string());
    assert_eq!(p.build_full_prompt("q"), "Response format: json\n\nInput: q\nOutput:");
}

#[test]
fn date_line_uses_given_day() {
    let mut p = bare("dated");
    p.include_current_date = true;
    p.system_prompt = "Sys".to_string();
    let day = CalendarDay { date_text: "05.03.2024".to_string(), weekday: 1 };
    assert_eq!(
        assemble(&p, "hi", &Some(day)),
        "Sys\n\nToday is 05.03.2024 (Tuesday)\n\nInput: hi\nOutput:"
    );
}

#[test]
fn date_line_skipped_when_not_asked() {
    let mut p = bare("undated");
    p.system_prompt = "Sys".to_string();
    let day = CalendarDay { date_text: "05.03.2024".to_string(), weekday: 1 };
    assert_eq!(assemble(&p, "hi", &Some(day)), "Sys\n\nInput: hi\nOutput:");
}

#[test]
fn current_date_is_filled_in() {
    let mut p = bare("today");
    p.include_current_date = true;
    let out = p.build_full_prompt("q");
    assert!(out.starts_with("Today is "));
    let date = &out["Today is ".len().."Today is ".len() + 10];
    let bytes = date.as_bytes();
    assert_eq!(bytes[2], b'.');
    assert_eq!(bytes[5], b'.');
    assert!(bytes.iter().enumerate().all(|(i, b)| i == 2 || i == 5 || b.is_ascii_digit()));
    assert!(out.ends_with(")\n\nInput: q\nOutput:"));
}

#[test]
fn weekday_names() {
    let names: Vec<&str> = (0u8..7).map(weekday_label).collect();
    assert_eq!(names, vec!["Monday", "Tuesday", "Wednesday", "Thursday", "Friday", "Saturday", "Sunday"]);
}

#[test]
fn plain_prompt_without_system_prompt() {
    assert_eq!(plain_prompt(&None, "hello"), "hello");
    assert_eq!(plain_prompt(&Some(String::new()), "hello"), "hello");
}

#[test]
fn plain_prompt_with_system_prompt() {
    assert_eq!(plain_prompt(&Some("Be brief.".to_string()), "hello"), "Be brief.\n\nhello");
}

#[test]
fn join_parts_separates_with_blank_line() {
    assert_eq!(join_parts(&vec![]), "");
    assert_eq!(join_parts(&vec!["a".to_string()]), "a");
    assert_eq!(join_parts(&vec!["a".to_string(), "b".to_string(), "c".to_string()]), "a\n\nb\n\nc");
}
