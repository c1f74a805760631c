use magnet::{archive_url, branch_candidates, strip_top_dir, FetchStep, RepoInfo, Retrieval};

fn repo(default_branch: &str) -> RepoInfo {
    RepoInfo {
        name: "proj".to_string(),
        html_url: "https://github.com/someone/proj".to_string(),
        language: None,
        stars: 0,
        size: 0,
        is_fork: false,
        default_branch: default_branch.to_string(),
    }
}

fn url(branch: &str) -> String {
    format!("https://github.com/someone/proj/archive/refs/heads/{}.zip", branch)
}

fn attempted(step: &FetchStep) -> String {
    match step {
        FetchStep::Attempt(u) => u.clone(),
        other => panic!("expected an attempt, got {:?}", other),
    }
}

#[test]
fn archive_url_shape() {
    assert_eq!(archive_url("https://github.com/someone/proj", "dev"), url("dev"));
}

#[test]
fn candidates_for_unlisted_default() {
    assert_eq!(
        branch_candidates("feature-x"),
        vec!["feature-x", "main", "master", "develop", "trunk"]
    );
}

#[test]
fn candidates_skip_a_listed_default() {
    assert_eq!(branch_candidates("master"), vec!["master", "main", "develop", "trunk"]);
    assert_eq!(branch_candidates("main"), vec!["main", "master", "develop", "trunk"]);
}

#[test]
fn fallback_reaches_master_without_retrying_default() {
    let (mut r, step) = Retrieval::start(&repo("feature-x"), None);
    assert_eq!(attempted(&step), url("feature-x"));
    let step = r.on_result(Err("HTTP 404 Not Found".to_string()));
    assert_eq!(attempted(&step), url("main"));
    let step = r.on_result(Err("HTTP 404 Not Found".to_string()));
    assert_eq!(attempted(&step), url("master"));
    match r.on_result(Ok(4096)) {
        FetchStep::Done(n) => assert_eq!(n, 4096),
        other => panic!("expected success, got {:?}", other),
    }
}

#[test]
fn every_branch_failing_reports_last_reason() {
    let (mut r, step) = Retrieval::start(&repo("main"), None);
    let mut tried = vec![attempted(&step)];
    let mut last = FetchStep::Done(0);
    for i in 0..4 {
        last = r.on_result(Err(format!("reason {}", i)));
        if let FetchStep::Attempt(u) = &last {
            tried.push(u.clone());
        }
    }
    assert_eq!(tried, vec![url("main"), url("master"), url("develop"), url("trunk")]);
    match last {
        FetchStep::Failed(m) => assert_eq!(m, "Failed to download: reason 3"),
        other => panic!("expected failure, got {:?}", other),
    }
}

#[test]
fn existing_destination_skips_network_each_time() {
    for _ in 0..2 {
        let (_, step) = Retrieval::start(&repo("main"), Some(1234));
        match step {
            FetchStep::Done(n) => assert_eq!(n, 1234),
            other => panic!("expected the existing size, got {:?}", other),
        }
    }
}

#[test]
fn top_directory_is_stripped() {
    let file = vec!["repo-main".to_string(), "src".to_string(), "a.txt".to_string()];
    let top = vec!["repo-main".to_string()];
    let entries = vec![(file, false), (top, true)];
    let mut files: Vec<Vec<String>> = Vec::new();
    let mut dirs: Vec<Vec<String>> = Vec::new();
    for (components, is_dir) in &entries {
        if let Some(rest) = strip_top_dir(components) {
            if *is_dir {
                dirs.push(rest);
            } else {
                files.push(rest);
            }
        }
    }
    assert_eq!(files, vec![vec!["src".to_string(), "a.txt".to_string()]]);
    assert!(dirs.is_empty());
    assert!(files.iter().all(|f| !f.contains(&"repo-main".to_string())));
}

#[test]
fn empty_entry_is_skipped() {
    assert_eq!(strip_top_dir(&Vec::new()), None);
}
