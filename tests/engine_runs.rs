use loop_engine::engine::{
    Engine, EngineError, Flow, Halt, NextItem, RunConfig, Start, TIMEOUT_EXIT_CODE,
};
use loop_engine::memory::Channel;
use loop_engine::stop::StopRules;

fn config() -> RunConfig {
    RunConfig {
        num: None,
        rules: StopRules { until_changes: false, until_same: false, until_match: None, until_contains: None },
        until_code: None,
        until_success: false,
        until_fail: false,
        only_last: false,
        error_on_deadline: false,
        summary: false,
    }
}

fn is_spawn(s: &Start) -> bool {
    matches!(s, Start::Spawn { .. })
}

/// Runs one iteration whose child prints `lines` on stdout and exits with `code`;
/// returns what was printed at once and the final flow.
fn run_iteration(e: &mut Engine, lines: &[&str], code: i32) -> (Vec<String>, Flow) {
    let mut printed = Vec::new();
    for l in lines {
        let a = e.on_line(Channel::Stdout, l.to_string());
        if let Some(out) = a.emit {
            printed.push(out.text);
        }
        if a.stop {
            return (printed, Flow::Finish(0));
        }
    }
    assert_eq!(e.on_output_closed(), Flow::Wait);
    let flow = e.on_exit(code == 0, Some(code)).unwrap();
    if flow == Flow::NextIteration {
        e.next_iteration();
    }
    (printed, flow)
}

#[test]
fn echo_three_times() {
    let mut c = config();
    c.num = Some(3);
    let mut e = Engine::new(c);
    let mut printed = Vec::new();
    let mut spawns = 0;
    let code = loop {
        match e.start(NextItem::NoSource) {
            Start::Spawn { raw_counter, item } => {
                assert_eq!(raw_counter, spawns);
                assert_eq!(item, None);
                spawns += 1;
                let (p, flow) = run_iteration(&mut e, &["hi"], 0);
                printed.extend(p);
                assert_eq!(flow, Flow::NextIteration);
            }
            Start::Finish(c) => break c,
        }
    };
    assert_eq!(spawns, 3);
    assert_eq!(printed, vec!["hi", "hi", "hi"]);
    assert_eq!(code, 0);
}

#[test]
fn zero_budget_spawns_nothing() {
    let mut c = config();
    c.num = Some(0);
    let mut e = Engine::new(c);
    assert!(matches!(e.start(NextItem::NoSource), Start::Finish(0)));
}

#[test]
fn budget_counts_down() {
    for n in [1u32, 2, 5] {
        let mut c = config();
        c.num = Some(n);
        let mut e = Engine::new(c);
        let mut spawns = 0u32;
        while is_spawn(&e.start(NextItem::NoSource)) {
            spawns += 1;
            let _ = run_iteration(&mut e, &[], 0);
        }
        assert_eq!(spawns, n);
    }
}

#[test]
fn stop_on_fail_after_first() {
    let mut c = config();
    c.until_fail = true;
    let mut e = Engine::new(c);
    assert!(is_spawn(&e.start(NextItem::NoSource)));
    let (_, flow) = run_iteration(&mut e, &[], 1);
    assert_eq!(flow, Flow::Finish(1));
}

#[test]
fn stop_on_success_and_code() {
    let mut c = config();
    c.until_success = true;
    let mut e = Engine::new(c);
    assert!(is_spawn(&e.start(NextItem::NoSource)));
    assert_eq!(e.on_exit(false, Some(2)), Ok(Flow::Wait));
    assert_eq!(e.on_output_closed(), Flow::NextIteration);
    e.next_iteration();
    assert!(is_spawn(&e.start(NextItem::NoSource)));
    assert_eq!(e.on_exit(true, Some(0)), Ok(Flow::Finish(0)));

    let mut c = config();
    c.until_code = Some(7);
    let mut e = Engine::new(c);
    assert!(is_spawn(&e.start(NextItem::NoSource)));
    let (_, flow) = run_iteration(&mut e, &[], 3);
    assert_eq!(flow, Flow::NextIteration);
    assert!(is_spawn(&e.start(NextItem::NoSource)));
    let (_, flow) = run_iteration(&mut e, &[], 7);
    assert_eq!(flow, Flow::Finish(7));
}

#[test]
fn missing_exit_code_is_an_error() {
    let mut e = Engine::new(config());
    assert!(is_spawn(&e.start(NextItem::NoSource)));
    assert_eq!(e.on_exit(false, None), Err(EngineError::MissingExitCode));
}

#[test]
fn deadline_with_error_gives_timeout_code() {
    let mut c = config();
    c.error_on_deadline = true;
    let mut e = Engine::new(c);
    assert!(is_spawn(&e.start(NextItem::NoSource)));
    let h = e.on_deadline();
    assert_eq!(h, Halt { kill_child: true, code: TIMEOUT_EXIT_CODE });
    assert_eq!(h.code, 124);
}

#[test]
fn deadline_without_error_gives_zero() {
    let mut e = Engine::new(config());
    assert!(is_spawn(&e.start(NextItem::NoSource)));
    assert_eq!(e.on_exit(true, Some(0)), Ok(Flow::Wait));
    assert_eq!(e.on_deadline(), Halt { kill_child: false, code: 0 });
}

#[test]
fn items_bound_the_run() {
    let mut e = Engine::new(config());
    let mut seen = Vec::new();
    let mut items = vec!["a", "b"].into_iter();
    let code = loop {
        let next = match items.next() {
            Some(s) => NextItem::Item(s.to_string()),
            None => NextItem::Exhausted,
        };
        match e.start(next) {
            Start::Spawn { item, .. } => {
                seen.push(item.unwrap());
                let _ = run_iteration(&mut e, &[], 0);
            }
            Start::Finish(c) => break c,
        }
    };
    assert_eq!(seen, vec!["a", "b"]);
    assert_eq!(code, 0);
}

#[test]
fn only_last_keeps_latest_iteration() {
    let mut c = config();
    c.only_last = true;
    c.num = Some(3);
    let mut e = Engine::new(c);
    let outputs = [vec!["one", "uno"], vec!["two"], vec!["three", "tres", "drei"]];
    let mut i = 0;
    while is_spawn(&e.start(NextItem::NoSource)) {
        let (printed, _) = run_iteration(&mut e, &outputs[i], 0);
        assert!(printed.is_empty());
        i += 1;
    }
    let kept: Vec<String> = e.take_kept().into_iter().map(|l| l.text).collect();
    assert_eq!(kept, vec!["three", "tres", "drei"]);
    assert!(e.take_kept().is_empty());
}

#[test]
fn unchanged_output_stops_across_iterations() {
    let mut c = config();
    c.rules.until_same = true;
    let mut e = Engine::new(c);
    assert!(is_spawn(&e.start(NextItem::NoSource)));
    let (_, flow) = run_iteration(&mut e, &["v1"], 0);
    assert_eq!(flow, Flow::NextIteration);
    assert!(is_spawn(&e.start(NextItem::NoSource)));
    let a = e.on_line(Channel::Stderr, "v1".to_string());
    assert!(!a.stop);
    let a = e.on_line(Channel::Stdout, "v1".to_string());
    assert!(a.stop);
    assert_eq!(a.emit.unwrap().text, "v1");
}

#[test]
fn contains_stops_the_run() {
    let mut c = config();
    c.rules.until_contains = Some("ready".to_string());
    let mut e = Engine::new(c);
    assert!(is_spawn(&e.start(NextItem::NoSource)));
    let (printed, flow) = run_iteration(&mut e, &["wait", "is ready", "later"], 0);
    assert_eq!(printed, vec!["wait", "is ready"]);
    assert_eq!(flow, Flow::Finish(0));
}

#[test]
fn counter_and_summary() {
    let mut c = config();
    c.summary = true;
    c.num = Some(2);
    let mut e = Engine::new(c);
    assert!(is_spawn(&e.start(NextItem::NoSource)));
    let _ = run_iteration(&mut e, &[], 0);
    assert!(matches!(e.start(NextItem::NoSource), Start::Spawn { raw_counter: 1, .. }));
    let _ = run_iteration(&mut e, &[], 5);
    assert_eq!(e.iteration, 2);
    let s = e.summary.as_ref().unwrap();
    assert_eq!(s.successes, 1);
    assert_eq!(s.failures, vec![5]);
}
