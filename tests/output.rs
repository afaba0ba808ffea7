use ferris::{
    digest_bytes, failure_line, render, route_from_worker, success_line, ComparisonRun, Elapsed,
    Emission, HashOutcome, Implementation, SequentialPass, WorkerRoute,
};

fn stdout_text(e: &Emission) -> Option<&str> {
    match e {
        Emission::Stdout(s) => Some(s.as_str()),
        Emission::ErrorLog(_) => None,
    }
}

fn hash_outcome(content: Option<&[u8]>) -> HashOutcome {
    match content {
        Some(bytes) => HashOutcome::Digest(digest_bytes(bytes, 8192)),
        None => HashOutcome::Failed("No such file or directory (os error 2)".to_string()),
    }
}

#[test]
fn success_line_has_two_spaces() {
    assert_eq!(success_line("abc", "dir/f.txt"), "abc  dir/f.txt");
}

#[test]
fn failure_line_names_path_and_cause() {
    assert_eq!(
        failure_line("dir/missing", "permission denied"),
        "Error processing dir/missing: permission denied"
    );
}

#[test]
fn render_routes_digest_to_stdout() {
    let e = render("t/a", &HashOutcome::Digest("ff".to_string()));
    match e {
        Emission::Stdout(s) => assert_eq!(s, "ff  t/a"),
        Emission::ErrorLog(_) => panic!("a digest must go to standard output"),
    }
}

#[test]
fn render_routes_failure_to_log() {
    let e = render("t/b", &HashOutcome::Failed("gone".to_string()));
    match e {
        Emission::ErrorLog(s) => assert_eq!(s, "Error processing t/b: gone"),
        Emission::Stdout(_) => panic!("a failure must not reach standard output"),
    }
}

#[test]
fn three_files_and_a_missing_one() {
    let files: Vec<(&str, Option<&[u8]>)> = vec![
        ("d/a", Some(b"a")),
        ("d/bb", Some(b"bb")),
        ("d/ccc", Some(b"ccc")),
        ("d/none", None),
    ];
    let emissions: Vec<Emission> =
        files.iter().map(|(p, c)| render(p, &hash_outcome(*c))).collect();
    let lines: Vec<&str> = emissions.iter().filter_map(stdout_text).collect();
    assert_eq!(
        lines,
        vec![
            "ca978112ca1bbdcafac231b39a23dc4da786eff8147c4e72b9807785afee48bb  d/a",
            "3b64db95cb55c763391c707108489ae18b4112d783300de38e033b4c98c3deaf  d/bb",
            "64daa44ad493ff28a96effab6e77f1732a3d97d83241581b37dbd70a7a4900fe  d/ccc",
        ]
    );
    assert_eq!(emissions.len() - lines.len(), 1);
}

#[test]
fn one_unreadable_among_five_readable() {
    let mut outcomes: Vec<(String, HashOutcome)> = Vec::new();
    for i in 0..4u8 {
        outcomes.push((format!("f{}", i), hash_outcome(Some(&[i]))));
    }
    outcomes.insert(2, ("locked".to_string(), HashOutcome::Failed("Permission denied".to_string())));
    assert_eq!(outcomes.len(), 5);
    let emissions: Vec<Emission> = outcomes.iter().map(|(p, o)| render(p, o)).collect();
    let printed = emissions.iter().filter(|e| matches!(e, Emission::Stdout(_))).count();
    let logged = emissions.iter().filter(|e| matches!(e, Emission::ErrorLog(_))).count();
    assert_eq!(printed, 4);
    assert_eq!(logged, 1);
}

#[test]
fn worker_sends_digests_only() {
    match route_from_worker("p", HashOutcome::Digest("00ff".to_string())) {
        WorkerRoute::Send(d) => assert_eq!(d, "00ff"),
        WorkerRoute::Log(_) => panic!("a digest must travel to the collector"),
    }
    match route_from_worker("p", HashOutcome::Failed("bad".to_string())) {
        WorkerRoute::Log(l) => assert_eq!(l, "Error processing p: bad"),
        WorkerRoute::Send(_) => panic!("a failure never reaches the channel"),
    }
}

#[test]
fn elapsed_carries_nanoseconds() {
    assert_eq!(Elapsed::new(1, 2_500_000_000), Some(Elapsed { secs: 3, nanos: 500_000_000 }));
    assert_eq!(Elapsed::new(0, 15), Some(Elapsed { secs: 0, nanos: 15 }));
    assert_eq!(Elapsed::new(u64::MAX, 1_000_000_000), None);
    assert_eq!(Elapsed::new(u64::MAX, 999_999_999), Some(Elapsed { secs: u64::MAX, nanos: 999_999_999 }));
}

#[test]
fn comparison_runs_four_strategies_in_order() {
    let mut run = ComparisonRun::new();
    let mut seen = Vec::new();
    while let Some(imp) = run.next_strategy() {
        seen.push(imp);
        run.record(Elapsed::new(0, 0).unwrap());
    }
    assert!(run.is_complete());
    assert_eq!(
        seen,
        vec![
            Implementation::Sequential,
            Implementation::Rayon,
            Implementation::ThreadPool,
            Implementation::Async
        ]
    );
}

#[test]
fn report_of_empty_directory_has_four_lines() {
    let mut run = ComparisonRun::new();
    assert_eq!(run.render(), "");
    for nanos in [0u32, 1_500, 2_000_000, 0] {
        run.record(Elapsed::new(0, nanos).unwrap());
    }
    let text = run.render();
    assert_eq!(text, "Sequential: 0ns\nRayon: 1.5µs\nThreadPool: 2ms\nAsync: 0ns\n");
    assert_eq!(text.lines().count(), 4);
}

#[test]
fn report_line_with_seconds() {
    let mut run = ComparisonRun::new();
    run.record(Elapsed::new(2, 250_000_000).unwrap());
    assert_eq!(run.render(), "Sequential: 2.25s\n");
    assert!(!run.is_complete());
    assert_eq!(run.next_strategy(), Some(Implementation::Rayon));
}

#[test]
fn sequential_pass_keeps_input_order() {
    let files: Vec<(&str, Option<&[u8]>)> =
        vec![("z/ccc", Some(b"ccc")), ("a/gone", None), ("m/a", Some(b"a"))];
    let mut pass = SequentialPass::new(files.len());
    let mut order = Vec::new();
    let mut printed = Vec::new();
    let mut logged = Vec::new();
    while let Some(i) = pass.next_file() {
        order.push(i);
        let (path, content) = files[i];
        match pass.report(path, &hash_outcome(content)) {
            Emission::Stdout(line) => printed.push(line),
            Emission::ErrorLog(line) => logged.push(line),
        }
    }
    assert_eq!(order, vec![0, 1, 2]);
    assert_eq!(
        printed,
        vec![
            "64daa44ad493ff28a96effab6e77f1732a3d97d83241581b37dbd70a7a4900fe  z/ccc".to_string(),
            "ca978112ca1bbdcafac231b39a23dc4da786eff8147c4e72b9807785afee48bb  m/a".to_string(),
        ]
    );
    assert_eq!(
        logged,
        vec!["Error processing a/gone: No such file or directory (os error 2)".to_string()]
    );
}

#[test]
fn sequential_pass_over_empty_set() {
    let pass = SequentialPass::new(0);
    assert_eq!(pass.next_file(), None);
}
