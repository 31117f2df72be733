use chatgpt::docs::{find, join_lines, split_lines, trimmed, FunctionDocs};

fn chars(text: &str) -> Vec<char> {
    text.chars().collect()
}

fn strings(lines: &[&str]) -> Vec<String> {
    lines.iter().map(|line| line.to_string()).collect()
}

#[test]
fn description_and_parameters_are_told_apart() {
    let docs = FunctionDocs::extract_docs(&strings(&[
        " Says hello to the user with provided name",
        "",
        " * name - Name of the user",
    ]))
    .unwrap();
    assert_eq!(docs.description, "Says hello to the user with provided name");
    assert_eq!(
        docs.parameter_docs,
        vec![("name".to_string(), "Name of the user".to_string())]
    );
    assert_eq!(docs.parameter_doc("name"), Some(&"Name of the user".to_string()));
    assert_eq!(docs.parameter_doc("age"), None);
}

#[test]
fn description_keeps_inner_lines_and_drops_one_empty_last_line() {
    let docs = FunctionDocs::extract_docs(&strings(&[
        "",
        " Sends message to a certain user.\n Returns `failure` if user does not exist.",
        "",
        " * user - Name of the user",
        " * message - Message to be sent",
    ]))
    .unwrap();
    assert_eq!(
        docs.description,
        "Sends message to a certain user.\nReturns `failure` if user does not exist."
    );
    assert_eq!(docs.parameter_docs.len(), 2);
    assert_eq!(docs.parameter_doc("message"), Some(&"Message to be sent".to_string()));
}

#[test]
fn only_one_empty_last_line_is_dropped() {
    let docs = FunctionDocs::extract_docs(&strings(&[" a", "", ""])).unwrap();
    assert_eq!(docs.description, "a\n");
}

#[test]
fn documentation_without_description_yields_nothing() {
    assert_eq!(FunctionDocs::extract_docs(&strings(&[])), None);
    assert_eq!(FunctionDocs::extract_docs(&strings(&["", "  "])), None);
    assert_eq!(FunctionDocs::extract_docs(&strings(&[" * name - the name"])), None);
}

#[test]
fn a_starred_line_without_dash_describes() {
    let docs = FunctionDocs::extract_docs(&strings(&[" * important"])).unwrap();
    assert_eq!(docs.description, "* important");
    assert!(docs.parameter_docs.is_empty());
}

#[test]
fn a_parameter_is_cut_at_its_first_dash() {
    let docs = FunctionDocs::extract_docs(&strings(&[" f", " *  a-b  -  c - d "])).unwrap();
    assert_eq!(docs.parameter_docs, vec![("a".to_string(), "b  -  c - d".to_string())]);
}

#[test]
fn a_parameter_documented_twice_keeps_what_is_said_last() {
    let docs = FunctionDocs::extract_docs(&strings(&[" f", "* a - one", "* a - two"])).unwrap();
    assert_eq!(docs.parameter_doc("a"), Some(&"two".to_string()));
}

#[test]
fn trimming_agrees_with_the_standard_library() {
    for text in ["", " ", "  a b \t\n", "\u{3000}x\u{a0}", "x", "\u{85}\u{2003} y \u{1680}"] {
        let expected: Vec<char> = text.trim().chars().collect();
        assert_eq!(trimmed(&chars(text)), expected);
    }
    for code in 0..=0x3100u32 {
        if let Some(c) = char::from_u32(code) {
            let kept = trimmed(&vec![c]).len() == 1;
            assert_eq!(kept, !c.is_whitespace());
        }
    }
}

#[test]
fn lines_agree_with_the_standard_library() {
    for text in ["", "a", "a\n", "\n", "a\nb", "a\n\nb\n"] {
        let expected: Vec<Vec<char>> = text.split('\n').map(|line| line.chars().collect()).collect();
        assert_eq!(split_lines(&chars(text)), expected);
    }
}

#[test]
fn find_gives_the_first_position_or_the_length() {
    assert_eq!(find(&chars("a-b-c"), '-'), 1);
    assert_eq!(find(&chars("abc"), '-'), 3);
    assert_eq!(find(&chars(""), '-'), 0);
}

#[test]
fn joining_puts_line_feeds_between_lines() {
    let lines = vec![chars("a"), chars(""), chars("b")];
    assert_eq!(join_lines(&lines), chars("a\n\nb"));
    assert_eq!(join_lines(&lines[..2].to_vec()), chars("a\n"));
    assert_eq!(join_lines(&vec![]), chars(""));
}
