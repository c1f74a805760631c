use magnet::{compile_pattern, filter_repos, repo_passes, NamePattern, RepoInfo};

fn repo(name: &str, language: Option<&str>, stars: u32, size: u32, is_fork: bool) -> RepoInfo {
    RepoInfo {
        name: name.to_string(),
        html_url: format!("https://github.com/someone/{}", name),
        language: language.map(|l| l.to_string()),
        stars,
        size,
        is_fork,
        default_branch: "main".to_string(),
    }
}

fn sample() -> Vec<RepoInfo> {
    vec![
        repo("alpha", Some("Rust"), 10, 500, false),
        repo("beta-tool", Some("Python"), 0, 4000, true),
        repo("gamma", None, 3, 1024, false),
        repo("delta-tool", Some("rust"), 50, 2048, false),
    ]
}

fn names(v: &[RepoInfo]) -> Vec<String> {
    v.iter().map(|r| r.name.clone()).collect()
}

#[test]
fn empty_criteria_keeps_everything_in_order() {
    let out = filter_repos(sample(), None, 0, None, false, &None);
    assert_eq!(names(&out), vec!["alpha", "beta-tool", "gamma", "delta-tool"]);
}

#[test]
fn only_original_drops_forks() {
    let out = filter_repos(sample(), None, 0, None, true, &None);
    assert_eq!(names(&out), vec!["alpha", "gamma", "delta-tool"]);
}

#[test]
fn min_stars_is_inclusive() {
    let out = filter_repos(sample(), None, 10, None, false, &None);
    assert_eq!(names(&out), vec!["alpha", "delta-tool"]);
}

#[test]
fn max_size_compares_kb_with_mb_times_1024() {
    let one: u32 = 1;
    let out = filter_repos(sample(), None, 0, Some(&one), false, &None);
    assert_eq!(names(&out), vec!["alpha", "gamma"]);
    let two: u32 = 2;
    let out = filter_repos(sample(), None, 0, Some(&two), false, &None);
    assert_eq!(names(&out), vec!["alpha", "gamma", "delta-tool"]);
}

#[test]
fn language_is_case_insensitive_and_absent_fails() {
    let lang = "RUST".to_string();
    let out = filter_repos(sample(), Some(&lang), 0, None, false, &None);
    assert_eq!(names(&out), vec!["alpha", "delta-tool"]);
}

#[test]
fn name_pattern_is_a_search() {
    let p: Option<NamePattern> = Some(compile_pattern("tool").ok().unwrap());
    let out = filter_repos(sample(), None, 0, None, false, &p);
    assert_eq!(names(&out), vec!["beta-tool", "delta-tool"]);
    let anchored: Option<NamePattern> = Some(compile_pattern("^a").ok().unwrap());
    let out = filter_repos(sample(), None, 0, None, false, &anchored);
    assert_eq!(names(&out), vec!["alpha"]);
}

#[test]
fn all_predicates_together() {
    let lang = "rust".to_string();
    let p: Option<NamePattern> = Some(compile_pattern("t").ok().unwrap());
    let two: u32 = 2;
    let out = filter_repos(sample(), Some(&lang), 5, Some(&two), true, &p);
    assert_eq!(names(&out), vec!["delta-tool"]);
}

#[test]
fn kept_records_pass_and_dropped_records_fail() {
    let lang = "python".to_string();
    let all = sample();
    let out = filter_repos(sample(), Some(&lang), 0, None, false, &None);
    for r in &all {
        let kept = out.iter().any(|k| k.name == r.name);
        assert_eq!(kept, repo_passes(r, Some(&lang), 0, None, false, &None));
    }
    assert_eq!(names(&out), vec!["beta-tool"]);
}

#[test]
fn invalid_pattern_is_rejected() {
    let r = compile_pattern("foo(bar");
    match r {
        Ok(_) => panic!("an unclosed group must not compile"),
        Err(e) => assert_eq!(e.pattern, "foo(bar"),
    }
}

#[test]
fn empty_input_gives_empty_output() {
    let out = filter_repos(Vec::new(), None, 100, None, true, &None);
    assert!(out.is_empty());
}
