use jobshell::launcher::stage_is_launchable;
use jobshell::parser::{parse_command_line, tokenize_stage, split_str};
use jobshell::runloop::{shell_step, LoopDecision};

#[test]
fn single_stage_no_separator() {
    let r = parse_command_line(String::from("echo hi")).unwrap();
    assert_eq!(r, vec![String::from("echo hi")]);
}

#[test]
fn separator_count_two() {
    let r = parse_command_line(String::from("a|b|c")).unwrap();
    assert_eq!(r, vec![String::from("a"), String::from("b"), String::from("c")]);
}

#[test]
fn empty_line_yields_no_command_line() {
    assert!(parse_command_line(String::new()).is_none());
    match shell_step(Some(String::new())) {
        LoopDecision::Skip => {}
        _ => panic!("an empty line must be skipped with no launch"),
    }
}

#[test]
fn end_of_input_exits() {
    match shell_step(None) {
        LoopDecision::Exit => {}
        _ => panic!("end of input must end the run loop"),
    }
}

#[test]
fn tokens_of_echo_hi() {
    let toks = tokenize_stage("echo hi");
    assert_eq!(toks, vec![String::from("echo"), String::from("hi")]);
}

#[test]
fn plan_for_echo_hi() {
    match shell_step(Some(String::from("echo hi"))) {
        LoopDecision::Run(stages) => {
            assert_eq!(stages, vec![vec![String::from("echo"), String::from("hi")]]);
        }
        _ => panic!("a non-empty line must be launched"),
    }
}

#[test]
fn plan_for_false_pipe_true() {
    match shell_step(Some(String::from("false | true"))) {
        LoopDecision::Run(stages) => {
            assert_eq!(
                stages,
                vec![vec![String::from("false")], vec![String::from("true")]]
            );
        }
        _ => panic!("a non-empty line must be launched"),
    }
}

#[test]
fn whitespace_runs_make_no_empty_tokens() {
    // Runs of spaces and tabs separate tokens once: no empty tokens.
    let toks = tokenize_stage(" echo  hi ");
    assert_eq!(toks, vec![String::from("echo"), String::from("hi")]);
    let toks = tokenize_stage("a\t b\t\tc");
    assert_eq!(
        toks,
        vec![String::from("a"), String::from("b"), String::from("c")]
    );
    // The same tokens the standard library's whitespace split gives.
    let line = " du -h \t x ";
    let expected: Vec<String> = line.split_whitespace().map(String::from).collect();
    assert_eq!(tokenize_stage(line), expected);
}

#[test]
fn all_whitespace_stage_has_no_tokens() {
    assert_eq!(tokenize_stage(""), Vec::<String>::new());
    assert_eq!(tokenize_stage(" \t \u{3000}"), Vec::<String>::new());
}

#[test]
fn unicode_whitespace_separates_tokens() {
    // Every character with the Unicode white-space property separates.
    let toks = tokenize_stage("\u{3000}\u{A0}echo\u{2003}hi\u{B}\u{2028}");
    assert_eq!(toks, vec![String::from("echo"), String::from("hi")]);
}

#[test]
fn whitespace_only_stage_is_planned_but_not_launchable() {
    match shell_step(Some(String::from(" | ls"))) {
        LoopDecision::Run(stages) => {
            assert_eq!(stages.len(), 2);
            // The first segment held only whitespace: a stage with zero
            // tokens, refused by the launch gate; the second launches.
            assert_eq!(stages[0], Vec::<String>::new());
            assert!(!stage_is_launchable(&stages[0]));
            assert_eq!(stages[1], vec![String::from("ls")]);
            assert!(stage_is_launchable(&stages[1]));
        }
        _ => panic!("a non-empty line must be planned"),
    }
}

#[test]
fn lone_separator_gives_two_empty_stages() {
    // The command line still has both (empty) stage strings; each
    // tokenizes to no tokens and is refused by the launch gate.
    let r = parse_command_line(String::from("|")).unwrap();
    assert_eq!(r, vec![String::new(), String::new()]);
    assert_eq!(tokenize_stage(""), Vec::<String>::new());
}

#[test]
fn multibyte_characters_survive_parsing() {
    let toks = tokenize_stage("  héllo wörld\u{3000}x ");
    assert_eq!(
        toks,
        vec![String::from("héllo"), String::from("wörld"), String::from("x")]
    );
}

#[test]
fn rejoining_stage_strings_restores_the_line() {
    let line = "du -h | sort -n | tail";
    let r = parse_command_line(String::from(line)).unwrap();
    assert_eq!(r.join("|"), line);
}

#[test]
fn split_keeps_separator_free_segments() {
    let r = split_str("one,two,,three", ',');
    assert_eq!(
        r,
        vec![
            String::from("one"),
            String::from("two"),
            String::new(),
            String::from("three")
        ]
    );
}
