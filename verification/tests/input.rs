use juicer::input::{answer, input, loop_bool_input_step, match_answer, Prompt};

#[test]
fn input_drops_line_break_after_a_read() {
    let mut buff = String::from("logs\n");
    let r: Result<usize, String> = input(Ok(5), &mut buff);
    assert_eq!(r, Ok(5));
    assert_eq!(buff, "logs");
}

#[test]
fn input_keeps_buffer_after_a_failed_read() {
    let mut buff = String::from("logs\n");
    let r: Result<usize, String> = input(Err(String::from("closed")), &mut buff);
    assert_eq!(r, Err(String::from("closed")));
    assert_eq!(buff, "logs\n");
}

#[test]
fn input_on_empty_buffer() {
    let mut buff = String::new();
    let r: Result<usize, ()> = input(Ok(0), &mut buff);
    assert_eq!(r, Ok(0));
    assert_eq!(buff, "");
}

#[test]
fn answer_ignores_case() {
    assert_eq!(answer("Y", "y", "n"), Some(true));
    assert_eq!(answer("n", "Y", "N"), Some(false));
    assert_eq!(answer("yes", "y", "n"), None);
    assert_eq!(answer("ÉTÉ", "été", "non"), Some(true));
}

#[test]
fn answer_prefers_yes_when_both_match() {
    assert_eq!(answer("a", "A", "a"), Some(true));
}

#[test]
fn match_answer_compares_exactly() {
    let y = String::from("y");
    let n = String::from("n");
    assert_eq!(match_answer(&String::from("y"), &y, &n), Some(true));
    assert_eq!(match_answer(&String::from("n"), &y, &n), Some(false));
    assert_eq!(match_answer(&String::from("Y"), &y, &n), None);
}

#[test]
fn prompt_step_answers() {
    let mut buff = String::from("Y\n");
    let r: Prompt<String> = loop_bool_input_step(Ok(2), &mut buff, "y", "n");
    assert!(matches!(r, Prompt::Answered(true)));
    assert_eq!(buff, "Y");
}

#[test]
fn prompt_step_asks_again() {
    let mut buff = String::from("maybe\n");
    let r: Prompt<String> = loop_bool_input_step(Ok(6), &mut buff, "y", "n");
    assert!(matches!(r, Prompt::Again));
    assert_eq!(buff, "");
}

#[test]
fn prompt_step_fails_with_the_read_error() {
    let mut buff = String::new();
    let r: Prompt<String> = loop_bool_input_step(Err(String::from("eof")), &mut buff, "y", "n");
    match r {
        Prompt::Failed(e) => assert_eq!(e, "eof"),
        _ => panic!("expected a failure"),
    }
}

#[test]
fn prompt_ignores_case_of_words_and_lines() {
    let mut a = String::from("YES\n");
    let mut b = String::from("yes\n");
    let ra: Prompt<()> = loop_bool_input_step(Ok(4), &mut a, "Yes", "No");
    let rb: Prompt<()> = loop_bool_input_step(Ok(4), &mut b, "yEs", "nO");
    assert!(matches!(ra, Prompt::Answered(true)));
    assert!(matches!(rb, Prompt::Answered(true)));
}
