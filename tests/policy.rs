use runbook::policy::{built_in_deny_patterns, matches_any_lowered, matches_any_pattern};

#[test]
fn built_in_list_is_complete() {
    let p = built_in_deny_patterns();
    assert_eq!(p.len(), 9);
    assert_eq!(p[0], "rm -rf");
    assert_eq!(p[1], "rm -r ");
    assert_eq!(p[8], "git reset --hard");
}

#[test]
fn matching_ignores_case() {
    let deny = built_in_deny_patterns();
    assert!(matches_any_pattern("sudo RM -RF /", &deny));
    assert!(matches_any_pattern("git Push --FORCE origin main", &deny));
    assert!(!matches_any_pattern("git status", &deny));
    assert!(!matches_any_pattern("rm file.txt", &deny));
}

#[test]
fn extra_patterns_are_lowered_too() {
    let extra = vec!["DROP TABLE".to_string()];
    assert!(matches_any_pattern("psql -c 'drop table users'", &extra));
    assert!(!matches_any_pattern("psql -c 'select 1'", &extra));
    assert!(!matches_any_pattern("anything", &[]));
}

#[test]
fn lowered_matching_is_a_plain_substring_scan() {
    let pats = vec!["abc".to_string(), "xyz".to_string()];
    assert!(matches_any_lowered("--xyz--", &pats));
    assert!(!matches_any_lowered("--XYZ--", &pats));
    assert!(matches_any_lowered("anything", &["".to_string()]));
}
