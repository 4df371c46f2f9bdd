use version_info::query::{start, step, Action, Event, Phase};

fn record_at(offset: usize, total: usize, ms: u32, ls: u32) -> Vec<u8> {
    let mut buf = vec![0u8; total];
    buf[offset + 8..offset + 12].copy_from_slice(&ms.to_le_bytes());
    buf[offset + 12..offset + 16].copy_from_slice(&ls.to_le_bytes());
    buf
}

fn run(events: Vec<Event>) -> Action {
    let (mut phase, mut action) = start();
    for e in events {
        let (p, a) = step(phase, e);
        phase = p;
        action = a;
    }
    action
}

fn full_query(ms: u32, ls: u32) -> Action {
    run(vec![
        Event::SizeProbed { size: 120 },
        Event::Fetched { buf: Some(record_at(40, 120, ms, ls)) },
        Event::Located { offset: 40, length: 52 },
    ])
}

#[test]
fn query_starts_by_probing() {
    let (phase, action) = start();
    assert!(matches!(phase, Phase::Probing));
    assert_eq!(action, Action::ProbeSize);
}

#[test]
fn query_walks_the_three_calls() {
    let (phase, _) = start();
    let (phase, action) = step(phase, Event::SizeProbed { size: 64 });
    assert_eq!(action, Action::Fetch { size: 64 });
    let (phase, action) = step(phase, Event::Fetched { buf: Some(vec![0u8; 64]) });
    assert_eq!(action, Action::LocateRoot);
    assert!(matches!(phase, Phase::Locating { .. }));
}

#[test]
fn known_record_gives_one_two_three_four() {
    assert_eq!(full_query(0x0001_0002, 0x0003_0004), Action::Finish { version: Some((1, 2, 3, 4)) });
}

#[test]
fn no_version_resource_is_absent() {
    assert_eq!(run(vec![Event::SizeProbed { size: 0 }]), Action::Finish { version: None });
}

#[test]
fn nonexistent_file_is_absent() {
    // the host reports a zero size for a file that is not there
    let (phase, action) = step(start().0, Event::SizeProbed { size: 0 });
    assert_eq!(action, Action::Finish { version: None });
    assert!(matches!(phase, Phase::Finished { version: None }));
}

#[test]
fn failed_fetch_is_absent() {
    let r = run(vec![Event::SizeProbed { size: 120 }, Event::Fetched { buf: None }]);
    assert_eq!(r, Action::Finish { version: None });
}

#[test]
fn fetched_buffer_of_wrong_size_is_absent() {
    let r = run(vec![Event::SizeProbed { size: 120 }, Event::Fetched { buf: Some(vec![0u8; 100]) }]);
    assert_eq!(r, Action::Finish { version: None });
}

#[test]
fn failed_lookup_is_absent() {
    let r = run(vec![
        Event::SizeProbed { size: 120 },
        Event::Fetched { buf: Some(record_at(40, 120, 0x0001_0002, 0x0003_0004)) },
        Event::NotLocated,
    ]);
    assert_eq!(r, Action::Finish { version: None });
}

#[test]
fn short_located_record_is_absent() {
    let r = run(vec![
        Event::SizeProbed { size: 120 },
        Event::Fetched { buf: Some(record_at(40, 120, 0x0001_0002, 0x0003_0004)) },
        Event::Located { offset: 40, length: 8 },
    ]);
    assert_eq!(r, Action::Finish { version: None });
}

#[test]
fn out_of_order_answer_is_absent() {
    assert_eq!(run(vec![Event::NotLocated]), Action::Finish { version: None });
    assert_eq!(
        run(vec![Event::SizeProbed { size: 8 }, Event::Located { offset: 0, length: 52 }]),
        Action::Finish { version: None }
    );
}

#[test]
fn finished_query_keeps_its_version() {
    let r = run(vec![
        Event::SizeProbed { size: 120 },
        Event::Fetched { buf: Some(record_at(40, 120, 0x0005_0006, 0x0007_0008)) },
        Event::Located { offset: 40, length: 52 },
        Event::NotLocated,
        Event::SizeProbed { size: 0 },
    ]);
    assert_eq!(r, Action::Finish { version: Some((5, 6, 7, 8)) });
}

#[test]
fn same_answers_give_same_version() {
    let a = full_query(0x0102_0304, 0x0506_0708);
    let b = full_query(0x0102_0304, 0x0506_0708);
    assert_eq!(a, b);
    assert_eq!(a, Action::Finish { version: Some((0x0102, 0x0304, 0x0506, 0x0708)) });
}
