use ulb::lookup::{is_profile_path, profile_target, select_profile, LookupError};
use ulb::scripts::{is_script, lex_le_exec, order_scripts};
use ulb::text::{ends_with, join, join_path};

fn strings(xs: &[&str]) -> Vec<String> {
    xs.iter().map(|x| x.to_string()).collect()
}

#[test]
fn joins() {
    assert_eq!(join(&strings(&["a", "b", "c"]), ", "), "a, b, c");
    assert_eq!(join(&strings(&["only"]), " "), "only");
    assert_eq!(join(&vec![], " "), "");
    assert_eq!(join_path("build/iso", "x.iso"), "build/iso/x.iso");
}

#[test]
fn suffixes() {
    assert!(ends_with("run.sh", ".sh"));
    assert!(!ends_with("run.shx", ".sh"));
    assert!(!ends_with("sh", ".sh"));
    assert!(is_script(&"a.sh".to_string()));
    assert!(!is_script(&".sh".to_string()));
    assert!(!is_script(&"a.bash".to_string()));
}

#[test]
fn lexicographic_comparison() {
    assert!(lex_le_exec(&"02-b.sh".to_string(), &"10-a.sh".to_string()));
    assert!(!lex_le_exec(&"z.sh".to_string(), &"10-a.sh".to_string()));
    assert!(lex_le_exec(&"a".to_string(), &"ab".to_string()));
    assert!(!lex_le_exec(&"ab".to_string(), &"a".to_string()));
    assert!(lex_le_exec(&"same".to_string(), &"same".to_string()));
    assert!(lex_le_exec(&"Z".to_string(), &"a".to_string()));
}

#[test]
fn script_order_sorts_and_filters() {
    assert_eq!(
        order_scripts(&strings(&["10-a.sh", "02-b.sh", "z.sh"])),
        strings(&["02-b.sh", "10-a.sh", "z.sh"])
    );
    assert_eq!(order_scripts(&strings(&["b.sh", "readme", "a.sh", "c.txt"])), strings(&["a.sh", "b.sh"]));
    assert_eq!(order_scripts(&vec![]), Vec::<String>::new());
}

#[test]
fn profile_paths() {
    assert!(is_profile_path(&"profiles/a.toml".to_string()));
    assert!(!is_profile_path(&"profiles/.toml".to_string()));
    assert!(!is_profile_path(&"profiles/a.yaml".to_string()));
    assert_eq!(profile_target(&"profiles".to_string(), &"x".to_string()), "profiles/x.toml");
    assert_eq!(profile_target(&"profiles".to_string(), &"x.toml".to_string()), "profiles/x.toml");
}

#[test]
fn profile_selection() {
    let dir = "profiles".to_string();
    let one = strings(&["profiles", "profiles/example.toml", "profiles/notes.md"]);
    assert_eq!(select_profile(&one, &dir, None), Ok("profiles/example.toml".to_string()));
    assert_eq!(
        select_profile(&one, &dir, Some(&"example".to_string())),
        Ok("profiles/example.toml".to_string())
    );
    assert_eq!(select_profile(&one, &dir, Some(&"other".to_string())), Err(LookupError::NotFound));
    let two = strings(&["profiles/a.toml", "profiles/b.toml"]);
    assert_eq!(select_profile(&two, &dir, None), Err(LookupError::Ambiguous));
    assert_eq!(select_profile(&two, &dir, Some(&"b.toml".to_string())), Ok("profiles/b.toml".to_string()));
    assert_eq!(select_profile(&strings(&["profiles/x.md"]), &dir, None), Err(LookupError::NoProfiles));
}
