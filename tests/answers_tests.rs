use ulb::answers::{
    answer_of_trimmed, drop_empty, parse_answer, parse_list, parse_yes_no, split_at_commas, yes_no_of_lowered,
};

fn strings(xs: &[&str]) -> Vec<String> {
    xs.iter().map(|x| x.to_string()).collect()
}

#[test]
fn commas_split_pieces() {
    assert_eq!(split_at_commas("a,b,,c"), strings(&["a", "b", "", "c"]));
    assert_eq!(split_at_commas(""), strings(&[""]));
    assert_eq!(split_at_commas("x,"), strings(&["x", ""]));
}

#[test]
fn lists_are_trimmed_and_empty_items_dropped() {
    assert_eq!(parse_list(" vim , git ,, "), strings(&["vim", "git"]));
    assert_eq!(parse_list(""), Vec::<String>::new());
    assert_eq!(parse_list("curl"), strings(&["curl"]));
}

#[test]
fn prompt_answers() {
    assert_eq!(parse_answer("  MyDistro \n"), Some("MyDistro".to_string()));
    assert_eq!(parse_answer("back\n"), None);
    assert_eq!(parse_answer("   \n"), None);
    assert_eq!(parse_answer("\u{3000}\t\u{a0}"), None);
    assert_eq!(parse_answer("\u{2003}x\u{85}"), Some("x".to_string()));
}

#[test]
fn yes_no_answers() {
    assert_eq!(parse_yes_no("Y"), Some(true));
    assert_eq!(parse_yes_no("y"), Some(true));
    assert_eq!(parse_yes_no("N"), Some(false));
    assert_eq!(parse_yes_no("yes"), None);
}

#[test]
fn answers_after_trimming() {
    assert_eq!(answer_of_trimmed("fedora".to_string()), Some("fedora".to_string()));
    assert_eq!(answer_of_trimmed("back".to_string()), None);
    assert_eq!(answer_of_trimmed(String::new()), None);
    assert_eq!(answer_of_trimmed(" back".to_string()), Some(" back".to_string()));
}

#[test]
fn lowered_yes_no() {
    assert_eq!(yes_no_of_lowered("y"), Some(true));
    assert_eq!(yes_no_of_lowered("n"), Some(false));
    assert_eq!(yes_no_of_lowered("Y"), None);
    assert_eq!(yes_no_of_lowered(""), None);
}

#[test]
fn empty_items_are_dropped() {
    assert_eq!(drop_empty(strings(&["a", "", "b", ""])), strings(&["a", "b"]));
    assert_eq!(drop_empty(vec![]), Vec::<String>::new());
}
