use magnet::{ProgressTracker, Stats};

fn run(outcomes: &[(&str, Result<u64, String>)]) -> Stats {
    let mut t = ProgressTracker::new(outcomes.len());
    for (name, r) in outcomes {
        t.report_completion(name.to_string(), r.clone());
    }
    t.get_stats()
}

#[test]
fn counts_and_bytes_are_exact() {
    let s = run(&[
        ("a", Ok(100)),
        ("b", Err("HTTP 404".to_string())),
        ("c", Ok(2048)),
        ("d", Err("boom".to_string())),
        ("e", Ok(1)),
    ]);
    assert_eq!(s, Stats { downloaded: 3, failed: 2, total_size: 2149 });
}

#[test]
fn order_of_reports_does_not_matter() {
    let s1 = run(&[("a", Ok(5)), ("b", Err("x".to_string())), ("c", Ok(7))]);
    let s2 = run(&[("c", Ok(7)), ("a", Ok(5)), ("b", Err("x".to_string()))]);
    let s3 = run(&[("b", Err("x".to_string())), ("c", Ok(7)), ("a", Ok(5))]);
    assert_eq!(s1, s2);
    assert_eq!(s2, s3);
    assert_eq!(s1, Stats { downloaded: 2, failed: 1, total_size: 12 });
}

#[test]
fn nothing_reported_gives_zero() {
    let t = ProgressTracker::new(0);
    assert_eq!(t.get_stats(), Stats { downloaded: 0, failed: 0, total_size: 0 });
}

#[test]
fn lines_carry_index_and_kb_or_message() {
    let mut t = ProgressTracker::new(2);
    let l1 = t.report_completion("big".to_string(), Ok(5000));
    assert_eq!((l1.current, l1.total, l1.name.as_str()), (1, 2, "big"));
    assert_eq!(l1.detail, Ok(4));
    let l2 = t.report_completion("bad".to_string(), Err("HTTP 500".to_string()));
    assert_eq!((l2.current, l2.total), (2, 2));
    assert_eq!(l2.detail, Err("HTTP 500".to_string()));
}
