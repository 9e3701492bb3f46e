use chat_np::session::{prompt_batch, BatchEntry, GenerationSession, StepAction};
use chat_np::text::{contains_char, is_json_object_like};

const EOS: i32 = 2;

/// Feeds `script` (token, fragment) to a session the way a driver would,
/// checking each submitted position; returns the response and the number of
/// tokens examined.
fn drive(prompt_len: usize, max_tokens: usize, stop_on_newline: bool, script: &[(i32, Option<&str>)]) -> (String, usize) {
    let mut s = GenerationSession::new(prompt_len, max_tokens, stop_on_newline, EOS);
    let mut next_pos = prompt_len as i64;
    let mut k = 0;
    while s.is_running() {
        let (token, fragment) = script[k];
        k += 1;
        match s.step(token, fragment) {
            StepAction::Submit { token: t, position } => {
                assert_eq!(t, token);
                assert_eq!(position, next_pos);
                next_pos += 1;
            }
            StepAction::Stop => break,
        }
    }
    assert_eq!(s.tokens_examined(), k);
    (s.finish(), k)
}

#[test]
fn budget_reached_returns_text_so_far() {
    let script = [(10, Some(" a")), (11, Some("b")), (12, Some("c")), (13, Some("d"))];
    assert_eq!(drive(5, 3, false, &script), ("abc".to_string(), 3));
}

#[test]
fn zero_budget_gives_empty_response() {
    assert_eq!(drive(5, 0, false, &[]), (String::new(), 0));
}

#[test]
fn end_of_sequence_stops() {
    let script = [(10, Some("Hi")), (EOS, Some("</s>")), (12, Some("x"))];
    assert_eq!(drive(3, 10, false, &script), ("Hi".to_string(), 2));
}

#[test]
fn newline_stops_when_asked() {
    let script = [(10, Some("cheap")), (11, Some(".\nMore")), (12, Some("x"))];
    let mut s = GenerationSession::new(4, 10, true, EOS);
    assert_eq!(s.step(script[0].0, script[0].1), StepAction::Submit { token: 10, position: 4 });
    assert_eq!(s.step(script[1].0, script[1].1), StepAction::Stop);
    assert_eq!(s.text(), "cheap.\nMore");
    assert!(!s.is_running());
    assert_eq!(s.finish(), "cheap.\nMore");
    assert_eq!(drive(4, 10, true, &script), ("cheap.\nMore".to_string(), 2));
}

#[test]
fn newline_ignored_when_not_asked() {
    let script = [(10, Some("a\n")), (11, Some("b")), (12, Some("c"))];
    assert_eq!(drive(4, 3, false, &script), ("a\nbc".to_string(), 3));
}

#[test]
fn balanced_json_object_stops() {
    let script = [(10, Some(" {\"a\"")), (11, Some(":1}")), (12, Some(" extra")), (13, Some("x"))];
    assert_eq!(drive(4, 50, false, &script), ("{\"a\":1}".to_string(), 2));
}

#[test]
fn nested_json_waits_for_balance() {
    let script = [(10, Some("{\"a\":{\"b\":1}")), (11, Some("}")), (12, Some("x"))];
    assert_eq!(drive(4, 50, false, &script), ("{\"a\":{\"b\":1}}".to_string(), 2));
}

#[test]
fn failed_fragment_is_resubmitted_and_generation_goes_on() {
    let mut s = GenerationSession::new(7, 10, false, EOS);
    assert_eq!(s.step(20, Some("caf")), StepAction::Submit { token: 20, position: 7 });
    assert_eq!(s.step(21, None), StepAction::Submit { token: 21, position: 8 });
    assert_eq!(s.text(), "caf");
    assert_eq!(s.step(22, Some("é!")), StepAction::Submit { token: 22, position: 9 });
    assert_eq!(s.step(EOS, None), StepAction::Stop);
    assert_eq!(s.finish(), "café!");
    assert_eq!(s.tokens_examined(), 4);
}

#[test]
fn failed_fragment_uses_budget() {
    let script = [(10, None), (11, Some("x")), (12, Some("y"))];
    assert_eq!(drive(1, 2, false, &script), ("x".to_string(), 2));
}

#[test]
fn same_script_same_response() {
    let script = [(10, Some("a")), (11, None), (12, Some("b")), (EOS, None)];
    assert_eq!(drive(2, 9, false, &script), drive(2, 9, false, &script));
}

#[test]
fn response_is_trimmed() {
    let script = [(10, Some("\t  hello ")), (11, Some("world \u{3000}\n"))];
    assert_eq!(drive(1, 2, false, &script), ("hello world".to_string(), 2));
}

#[test]
fn prompt_batch_wants_logits_for_last_only() {
    let b = prompt_batch(&vec![1, 15, 27]);
    assert_eq!(
        b,
        vec![
            BatchEntry { token: 1, position: 0, wants_logits: false },
            BatchEntry { token: 15, position: 1, wants_logits: false },
            BatchEntry { token: 27, position: 2, wants_logits: true },
        ]
    );
    assert!(prompt_batch(&vec![]).is_empty());
}

#[test]
fn json_heuristic() {
    assert!(is_json_object_like("{\"a\":1}"));
    assert!(is_json_object_like("  {\"a\":{}}\n"));
    assert!(!is_json_object_like("{\"a\":{1}"));
    assert!(!is_json_object_like("{\"a\""));
    assert!(!is_json_object_like("x{}"));
    assert!(!is_json_object_like(""));
    assert!(!is_json_object_like("   "));
    assert!(is_json_object_like("{\"s\":\"}{\"}"));
}

#[test]
fn char_helpers() {
    assert!(contains_char("ab\ncd", '\n'));
    assert!(!contains_char("abcd", '\n'));
    assert!(!contains_char("", 'a'));
}
