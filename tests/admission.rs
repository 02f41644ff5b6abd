use headprobe::admission::Pool;
use headprobe::config::Config;
use headprobe::controller::{Action, Controller, Event};

fn line(s: &str) -> Event {
    Event::Line(s.to_string())
}

#[test]
fn third_url_waits_for_a_free_slot() {
    let mut c = Controller::new(&Config::new(2, 10, false));
    assert!(matches!(c.step(line("http://a.test")), Action::Spawn(u) if u == "http://a.test"));
    assert!(matches!(c.step(line("http://b.test")), Action::Spawn(u) if u == "http://b.test"));
    assert_eq!(c.in_flight(), 2);
    assert!(matches!(c.step(line("http://c.test")), Action::AwaitWorker));
    assert_eq!(c.in_flight(), 2);
    assert!(matches!(c.step(Event::WorkerDone), Action::Spawn(u) if u == "http://c.test"));
    assert_eq!(c.in_flight(), 2);
    assert!(matches!(c.step(Event::InputEnd), Action::AwaitWorker));
    assert!(matches!(c.step(Event::WorkerDone), Action::AwaitWorker));
    assert!(matches!(c.step(Event::WorkerDone), Action::Exit));
    assert_eq!(c.in_flight(), 0);
    assert!(c.is_finished());
}

#[test]
fn one_worker_per_non_empty_line() {
    let mut c = Controller::new(&Config::new(3, 10, false));
    let input = ["http://a.test", "", "http://b.test", "", "", "http://c.test", "http://d.test"];
    let mut spawned = Vec::new();
    let mut finished = 0;
    let mut next = 0;
    let mut action = Action::Read;
    loop {
        let event = match action {
            Action::Read => {
                if next < input.len() {
                    next += 1;
                    line(input[next - 1])
                } else {
                    Event::InputEnd
                }
            }
            Action::Spawn(u) => {
                spawned.push(u);
                assert!(c.in_flight() <= c.capacity());
                action = Action::Read;
                continue;
            }
            Action::AwaitWorker => {
                finished += 1;
                Event::WorkerDone
            }
            Action::Exit => break,
            Action::Abort => panic!("no fault was reported"),
        };
        assert!(c.accepts(&event));
        action = c.step(event);
    }
    assert_eq!(spawned, vec!["http://a.test", "http://b.test", "http://c.test", "http://d.test"]);
    assert_eq!(finished, 4);
    assert_eq!(c.in_flight(), 0);
}

#[test]
fn cap_of_one_runs_probes_one_at_a_time() {
    let mut c = Controller::new(&Config::new(1, 10, false));
    assert!(matches!(c.step(line("u1")), Action::Spawn(_)));
    for u in ["u2", "u3", "u4"] {
        assert!(matches!(c.step(line(u)), Action::AwaitWorker));
        assert_eq!(c.in_flight(), 1);
        assert!(matches!(c.step(Event::WorkerDone), Action::Spawn(v) if v == u));
        assert_eq!(c.in_flight(), 1);
    }
    assert!(matches!(c.step(Event::InputEnd), Action::AwaitWorker));
    assert!(matches!(c.step(Event::WorkerDone), Action::Exit));
}

#[test]
fn empty_input_exits_at_once() {
    let mut c = Controller::new(&Config::default());
    assert!(matches!(c.step(Event::InputEnd), Action::Exit));
    assert!(c.is_finished());
}

#[test]
fn empty_lines_are_skipped() {
    let mut c = Controller::new(&Config::new(4, 10, false));
    assert!(matches!(c.step(line("")), Action::Read));
    assert_eq!(c.in_flight(), 0);
    assert!(matches!(c.step(Event::InputEnd), Action::Exit));
}

#[test]
fn input_fault_drains_before_abort() {
    let mut c = Controller::new(&Config::new(4, 10, false));
    assert!(matches!(c.step(line("http://a.test")), Action::Spawn(_)));
    assert!(matches!(c.step(line("http://b.test")), Action::Spawn(_)));
    assert!(matches!(c.step(Event::InputFault), Action::AwaitWorker));
    assert!(!c.accepts(&line("http://c.test")));
    assert!(matches!(c.step(Event::WorkerDone), Action::AwaitWorker));
    assert!(matches!(c.step(Event::WorkerDone), Action::Abort));
    assert!(c.is_finished());
}

#[test]
fn input_fault_with_nothing_in_flight_aborts() {
    let mut c = Controller::new(&Config::new(4, 10, false));
    assert!(matches!(c.step(Event::InputFault), Action::Abort));
}

#[test]
fn accepted_events_follow_the_phase() {
    let mut c = Controller::new(&Config::new(1, 10, false));
    assert!(c.accepts(&line("x")));
    assert!(c.accepts(&Event::InputEnd));
    assert!(!c.accepts(&Event::WorkerDone));
    c.step(line("x"));
    c.step(line("y"));
    assert!(c.accepts(&Event::WorkerDone));
    assert!(!c.accepts(&Event::InputEnd));
    c.step(Event::WorkerDone);
    c.step(Event::InputEnd);
    c.step(Event::WorkerDone);
    assert!(c.is_finished());
    assert!(!c.accepts(&Event::WorkerDone));
    assert!(!c.accepts(&Event::InputEnd));
}

#[test]
fn pool_never_issues_beyond_capacity() {
    let mut p = Pool::new(2);
    assert_eq!(p.capacity(), 2);
    assert!(p.is_drained());
    assert!(p.try_acquire());
    assert!(p.try_acquire());
    assert!(!p.try_acquire());
    assert_eq!(p.issued(), 2);
    p.release();
    assert_eq!(p.issued(), 1);
    assert!(p.try_acquire());
    p.release();
    p.release();
    assert!(p.is_drained());
}
