use solr_post::filter::{decide, insensitive_expression, pattern_is_usable, search, ContentFilter};
use solr_post::workset::{build_work_set, Candidate, WorkSet};

fn candidate(path: &str, contents: &str) -> Candidate {
    Candidate { path: path.to_string(), contents: contents.to_string() }
}

fn filter(exclude: Option<&str>, inclusion: Option<&str>) -> ContentFilter {
    ContentFilter {
        exclude_pattern: exclude.map(|s| s.to_string()),
        include_pattern: inclusion.map(|s| s.to_string()),
    }
}

fn members(set: &WorkSet) -> Vec<String> {
    let mut v = set.paths.clone();
    v.sort();
    v
}

#[test]
fn decision_table() {
    assert!(!decide(Some(true), None));
    assert!(!decide(Some(true), Some(true)));
    assert!(!decide(Some(true), Some(false)));
    assert!(!decide(Some(false), Some(false)));
    assert!(decide(Some(false), Some(true)));
    assert!(decide(Some(false), None));
    assert!(!decide(None, Some(false)));
    assert!(decide(None, Some(true)));
    assert!(decide(None, None));
}

#[test]
fn exclusion_wins_when_both_match() {
    let f = filter(Some("secret"), Some("index_me"));
    assert_eq!(f.admits("index_me but secret"), Some(false));
    assert_eq!(f.admits("index_me only"), Some(true));
    assert_eq!(f.admits("neither"), Some(false));
    let candidates = vec![
        candidate("both.txt", "index_me but secret"),
        candidate("good.txt", "index_me only"),
    ];
    let set = build_work_set(&candidates, &f).unwrap();
    assert_eq!(members(&set), vec!["good.txt".to_string()]);
}

#[test]
fn excluded_file_is_left_out() {
    let f = filter(Some("solr_noindex"), None);
    let candidates = vec![candidate("a.txt", ""), candidate("b.txt", "solr_noindex")];
    let set = build_work_set(&candidates, &f).unwrap();
    assert_eq!(members(&set), vec!["a.txt".to_string()]);
    assert_eq!(set.len(), 1);
}

#[test]
fn only_files_with_inclusion_pattern_are_taken() {
    let f = filter(None, Some("index_me"));
    let candidates = vec![candidate("a.txt", "index_me please"), candidate("b.txt", "skip")];
    let set = build_work_set(&candidates, &f).unwrap();
    assert_eq!(members(&set), vec!["a.txt".to_string()]);
}

#[test]
fn no_patterns_take_everything() {
    let f = filter(None, None);
    assert!(f.is_usable());
    let candidates = vec![candidate("a.txt", "x"), candidate("b.txt", "y")];
    let set = build_work_set(&candidates, &f).unwrap();
    assert_eq!(members(&set), vec!["a.txt".to_string(), "b.txt".to_string()]);
}

#[test]
fn search_ignores_case() {
    assert_eq!(search("INDEX_me", "please index_ME now"), Some(true));
    assert_eq!(search("index", "nothing here"), Some(false));
    assert_eq!(search("a.c", "xxABCxx"), Some(true));
    assert_eq!(insensitive_expression("abc"), "(?i)abc");
}

#[test]
fn unusable_pattern_is_reported() {
    assert_eq!(search("foo(bar", "foo(bar"), None);
    assert!(!pattern_is_usable(&Some("foo(bar".to_string())));
    assert!(pattern_is_usable(&Some("foo".to_string())));
    assert!(pattern_is_usable(&None));
    let f = filter(None, Some("[a-"));
    assert!(!f.is_usable());
    assert_eq!(f.admits("anything"), None);
    assert!(build_work_set(&vec![], &f).is_none());
    assert!(build_work_set(&vec![candidate("a", "b")], &f).is_none());
}

#[test]
fn same_directory_gives_same_work_set() {
    let f = filter(Some("draft"), Some("report"));
    let first = vec![
        candidate("a.txt", "report one"),
        candidate("b.txt", "draft report"),
        candidate("c.txt", "Report two"),
        candidate("d.txt", "other"),
    ];
    let second = vec![
        candidate("d.txt", "other"),
        candidate("c.txt", "Report two"),
        candidate("a.txt", "report one"),
        candidate("b.txt", "draft report"),
        candidate("a.txt", "report one"),
    ];
    let one = build_work_set(&first, &f).unwrap();
    let again = build_work_set(&first, &f).unwrap();
    let other = build_work_set(&second, &f).unwrap();
    assert_eq!(members(&one), vec!["a.txt".to_string(), "c.txt".to_string()]);
    assert_eq!(members(&one), members(&again));
    assert_eq!(members(&one), members(&other));
    assert_eq!(other.len(), 2);
}

#[test]
fn work_set_holds_each_path_once() {
    let mut set = WorkSet::new();
    assert!(set.is_empty());
    assert_eq!(set.len(), 0);
    assert!(set.insert("a.txt".to_string()));
    assert!(set.insert("b.txt".to_string()));
    assert!(!set.insert("a.txt".to_string()));
    assert_eq!(set.len(), 2);
    assert!(!set.is_empty());
    assert!(set.contains(&"a.txt".to_string()));
    assert!(!set.contains(&"c.txt".to_string()));
    assert_eq!(set.get(0), "a.txt");
    assert_eq!(set.get(1), "b.txt");
}

#[test]
fn empty_scan_gives_empty_work_set() {
    let set = build_work_set(&vec![], &filter(Some("x"), None)).unwrap();
    assert_eq!(set.len(), 0);
    assert!(set.is_empty());
}

#[test]
fn work_sets_merge_to_their_union() {
    let f = filter(Some("draft"), None);
    let first = vec![candidate("a.txt", "one"), candidate("b.txt", "draft")];
    let second = vec![candidate("c.txt", "two"), candidate("a.txt", "one")];
    let mut whole = first.clone();
    whole.extend(second.clone());
    let mut merged = build_work_set(&first, &f).unwrap();
    merged.merge(&build_work_set(&second, &f).unwrap());
    assert_eq!(members(&merged), vec!["a.txt".to_string(), "c.txt".to_string()]);
    assert_eq!(members(&merged), members(&build_work_set(&whole, &f).unwrap()));
    assert_eq!(merged.len(), 2);
    let mut empty = WorkSet::new();
    empty.merge(&WorkSet::new());
    assert!(empty.is_empty());
    empty.merge(&merged);
    assert_eq!(members(&empty), members(&merged));
}
