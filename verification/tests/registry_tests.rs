use std::time::{SystemTime, UNIX_EPOCH};

use outpost::database::{v1, Key, Process};
use outpost::fetch_and_compare::FetchResult;
use outpost::git::CommitId;
use outpost::worker::{ExitReport, PollError, PollEvent, PollPhase, Poller};
use outpost::registry::{Registry, RegistryError};
use outpost::system::is_process_running;

fn fresh_store(name: &str) -> Registry {
    let nanos = SystemTime::now().duration_since(UNIX_EPOCH).unwrap().as_nanos();
    let path = format!("/tmp/outpost_registry_{name}_{nanos}");
    Registry::open(&path).expect("opening a fresh store must succeed")
}

fn record(dir: &str, pid: Option<u32>) -> Process {
    Process::V1(v1::Process {
        directory: dir.to_string(),
        stdout: "/tmp/out".to_string(),
        stderr: "/tmp/err".to_string(),
        process_id: pid,
    })
}

#[test]
fn register_then_get_returns_the_record() {
    let mut reg = fresh_store("get");
    let key = Key::from_text("/home/user/repo");
    let rec = record("/home/user/repo", Some(41));
    reg.register(&key, &rec).unwrap();
    assert_eq!(reg.get(&key).unwrap(), Some(rec));
}

#[test]
fn get_of_absent_key_is_none() {
    let reg = fresh_store("absent");
    assert_eq!(reg.get(&Key::from_text("/nowhere")).unwrap(), None);
}

#[test]
fn second_registration_is_refused_and_first_record_kept() {
    let mut reg = fresh_store("idempotent");
    let key = Key::from_text("/home/user/repo");
    let first = record("/home/user/repo", Some(100));
    let second = record("/home/user/repo", Some(200));
    reg.register(&key, &first).unwrap();
    match reg.register(&key, &second) {
        Err(RegistryError::AlreadyExists(existing)) => assert_eq!(existing, first),
        other => panic!("expected AlreadyExists, got {other:?}"),
    }
    assert_eq!(reg.get(&key).unwrap(), Some(first));
}

#[test]
fn removal_is_refused_while_liveness_says_alive() {
    let mut reg = fresh_store("guard");
    let key = Key::from_text("/watched/dir");
    reg.register(&key, &record("/watched/dir", Some(77))).unwrap();
    match reg.remove_given_liveness(&key, true) {
        Err(RegistryError::StillRunning) => {}
        other => panic!("expected StillRunning, got {other:?}"),
    }
    assert!(reg.get(&key).unwrap().is_some());
    reg.remove_given_liveness(&key, false).unwrap();
    assert_eq!(reg.get(&key).unwrap(), None);
    let listed = reg.lookup_prefix(&Key::from_text("/watched")).unwrap();
    assert!(listed.is_empty());
}

#[test]
fn record_without_process_id_never_blocks_removal() {
    let mut reg = fresh_store("inactive");
    let key = Key::from_text("/watched/dir");
    reg.register(&key, &record("/watched/dir", None)).unwrap();
    reg.remove_given_liveness(&key, true).unwrap();
    assert_eq!(reg.get(&key).unwrap(), None);
}

#[test]
fn removing_an_absent_key_is_not_found() {
    let mut reg = fresh_store("notfound");
    match reg.remove(&Key::from_text("/absent")) {
        Err(RegistryError::NotFound) => {}
        other => panic!("expected NotFound, got {other:?}"),
    }
}

#[test]
fn remove_probes_the_recorded_process() {
    let mut reg = fresh_store("probe");
    // The init process is always alive; its record must be refused.
    let live_key = Key::from_text("/live");
    reg.register(&live_key, &record("/live", Some(1))).unwrap();
    match reg.remove(&live_key) {
        Err(RegistryError::StillRunning) => {}
        other => panic!("expected StillRunning, got {other:?}"),
    }
    // A process id far above the kernel's maximum never identifies a
    // running process, so its record can go.
    let dead_key = Key::from_text("/dead");
    reg.register(&dead_key, &record("/dead", Some(0x7ff0_0000))).unwrap();
    reg.remove(&dead_key).unwrap();
    assert_eq!(reg.get(&dead_key).unwrap(), None);
}

#[test]
fn liveness_probe_answers_for_known_ids() {
    assert!(is_process_running(1));
    assert!(!is_process_running(0x7ff0_0000));
    assert!(!is_process_running(u32::MAX));
}

#[test]
fn prefix_listing_is_exact_and_ordered() {
    let mut reg = fresh_store("prefix");
    for dir in ["/a/y", "/c", "/a/x", "/b"] {
        reg.register(&Key::from_text(dir), &record(dir, None)).unwrap();
    }
    let under_a = reg.lookup_prefix(&Key::from_text("/a")).unwrap();
    let keys: Vec<&str> = under_a.iter().map(|(k, _)| {
        std::str::from_utf8(k.as_bytes()).unwrap()
    }).collect();
    assert_eq!(keys, vec!["/a/x", "/a/y"]);
    for (k, p) in &under_a {
        assert_eq!(p.directory().as_bytes(), k.as_bytes().as_slice());
    }

    let all = reg.lookup_prefix(&Key::from_text("/")).unwrap();
    let keys: Vec<&str> = all.iter().map(|(k, _)| {
        std::str::from_utf8(k.as_bytes()).unwrap()
    }).collect();
    assert_eq!(keys, vec!["/a/x", "/a/y", "/b", "/c"]);

    let none = reg.lookup_prefix(&Key::from_text("/z")).unwrap();
    assert!(none.is_empty());
}

#[test]
fn database_error_is_surfaced() {
    match Registry::open("/dev/null/not-a-directory") {
        Err(RegistryError::Database(_)) => {}
        other => panic!("expected a database error, got {:?}", other.is_ok()),
    }
}

#[test]
fn failed_cycle_leaves_registry_record_untouched() {
    let mut reg = fresh_store("untouched");
    let key = Key::from_text("/repo");
    let rec = record("/repo", Some(4242));
    reg.register(&key, &rec).unwrap();

    let id = |b: u8| CommitId::new(vec![b; 20]).unwrap();
    let p = Poller::new(None, true);
    let p = p.step(PollEvent::CommitRead(Ok(id(1))));
    let p = p.step(PollEvent::FetchCompared(Ok(FetchResult::OutOfDate {
        remote_commit_id: id(2),
    })));
    let p = p.step(PollEvent::Executed(Ok(ExitReport {
        success: false,
        output_path: "/tmp/updates/9".to_string(),
    })));
    assert!(matches!(p.phase, PollPhase::Failed(PollError::NonZeroExit { .. })));

    // The worker's failure does not touch the registry: the record still
    // shows the process id until the control process stops it explicitly.
    let listed = reg.lookup_prefix(&Key::from_text("/repo")).unwrap();
    assert_eq!(listed.len(), 1);
    assert_eq!(listed[0].1.process_id(), Some(4242));
}

#[test]
fn key_round_trip() {
    let k = Key::from_text("/some/dir");
    assert_eq!(k.as_bytes().as_slice(), b"/some/dir");
    let k2 = Key::from_bytes(b"/other".to_vec());
    assert_eq!(k2.as_bytes().as_slice(), b"/other");
}

#[test]
fn process_record_getters() {
    let p = record("/d", Some(9));
    assert_eq!(p.directory(), "/d");
    assert_eq!(p.stdout(), "/tmp/out");
    assert_eq!(p.stderr(), "/tmp/err");
    assert!(p.active());
    assert_eq!(p.process_id(), Some(9));
    let q = record("/d", None);
    assert!(!q.active());
    assert_eq!(q.process_id(), None);
}
