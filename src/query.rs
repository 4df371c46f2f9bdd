use vstd::prelude::*;

use crate::record::{read_file_version, version_in};

verus! {

/// Where a version query stands between two calls to the host.
#[derive(Debug)]
pub enum Phase {
    /// Waiting for the size of the version resource.
    Probing,
    /// Waiting for the host to fill a buffer of `size` bytes.
    Fetching { size: u32 },
    /// Waiting for the host to locate the fixed record inside `buf`.
    Locating { buf: Vec<u8> },
    /// The query is over.
    Finished { version: Option<(u32, u32, u32, u32)> },
}

/// What the host is to do next.
#[derive(Clone, Copy, Debug, PartialEq, Eq)]
pub enum Action {
    /// Ask how many bytes the file's version resource takes.
    ProbeSize,
    /// Allocate a zeroed buffer of `size` bytes and have the host fill it.
    Fetch { size: u32 },
    /// Have the host locate the root block (the fixed record) in the buffer.
    LocateRoot,
    /// Report `version`: `None` when the file has no usable version.
    Finish { version: Option<(u32, u32, u32, u32)> },
}

/// What the host answered.
#[derive(Debug)]
pub enum Event {
    /// The size of the version resource; zero when there is none.
    SizeProbed { size: u32 },
    /// The filled buffer, or `None` when the host could not fill it.
    Fetched { buf: Option<Vec<u8>> },
    /// The fixed record was reported at byte `offset` of the buffer, `length` bytes long.
    Located { offset: usize, length: usize },
    /// The host could not locate the fixed record.
    NotLocated,
}

/// The phase and action that a finished query with `version` stands at.
pub open spec fn finish(version: Option<(u32, u32, u32, u32)>) -> (Phase, Action) {
    (Phase::Finished { version }, Action::Finish { version })
}

/// The next phase and action after `event` arrives in `phase`. Every failure,
/// and every answer that does not fit the phase, ends the query with no version.
pub open spec fn next(phase: Phase, event: Event) -> (Phase, Action) {
    match phase {
        Phase::Probing => match event {
            Event::SizeProbed { size } => if size == 0 {
                finish(None)
            } else {
                (Phase::Fetching { size }, Action::Fetch { size })
            },
            _ => finish(None),
        },
        Phase::Fetching { size } => match event {
            Event::Fetched { buf: Some(buf) } => if buf@.len() == size {
                (Phase::Locating { buf }, Action::LocateRoot)
            } else {
                finish(None)
            },
            _ => finish(None),
        },
        Phase::Locating { buf } => match event {
            Event::Located { offset, length } => finish(
                version_in(buf@, offset as int, length as int),
            ),
            _ => finish(None),
        },
        Phase::Finished { version } => finish(version),
    }
}

/// The phase a query reaches from `phase` after the host's answers `events`, in order.
pub open spec fn run(phase: Phase, events: Seq<Event>) -> Phase
    decreases events.len(),
{
    if events.len() == 0 {
        phase
    } else {
        run(next(phase, events[0]).0, events.drop_first())
    }
}

/// The version that a query owes for the host's answers `events`: the record
/// located in the fetched buffer when the size is non-zero, the buffer has
/// that size and the record was located; no version otherwise.
pub open spec fn answered_version(events: Seq<Event>) -> Option<(u32, u32, u32, u32)> {
    match (events[0], events[1], events[2]) {
        (
            Event::SizeProbed { size },
            Event::Fetched { buf: Some(buf) },
            Event::Located { offset, length },
        ) => if size != 0 && buf@.len() == size {
            version_in(buf@, offset as int, length as int)
        } else {
            None
        },
        _ => None,
    }
}

/// A finished query stays finished, with its version, whatever comes after.
pub proof fn lemma_finished_stays(version: Option<(u32, u32, u32, u32)>, events: Seq<Event>)
    ensures
        run(Phase::Finished { version }, events) == (Phase::Finished { version }),
    decreases events.len(),
{
    if events.len() > 0 {
        lemma_finished_stays(version, events.drop_first());
    }
}

/// Three answers of the host settle a query started by `start`: it ends with
/// the version those answers give, and with nothing else. The version
/// reported depends on the host's answers alone, so the same answers always
/// give the same version.
pub proof fn lemma_query_outcome(events: Seq<Event>)
    requires
        events.len() >= 3,
    ensures
        run(Phase::Probing, events) == (Phase::Finished { version: answered_version(events) }),
{
    let e1 = events.drop_first();
    let e2 = e1.drop_first();
    let e3 = e2.drop_first();
    assert(e1[0] == events[1]);
    assert(e2[0] == events[2]);
    let p1 = next(Phase::Probing, events[0]).0;
    let p2 = next(p1, e1[0]).0;
    let p3 = next(p2, e2[0]).0;
    assert(run(Phase::Probing, events) == run(p1, e1));
    assert(run(p1, e1) == run(p2, e2));
    assert(run(p2, e2) == run(p3, e3));
    match p3 {
        Phase::Finished { version } => lemma_finished_stays(version, e3),
        _ => {},
    }
}

/// The phase a query starts in, and its first action.
pub fn start() -> (r: (Phase, Action))
    ensures
        r == (Phase::Probing, Action::ProbeSize),
{
    (Phase::Probing, Action::ProbeSize)
}

/// Moves a query on by one answer of the host.
pub fn step(phase: Phase, event: Event) -> (r: (Phase, Action))
    ensures
        r == next(phase, event),
{
    match phase {
        Phase::Probing => match event {
            Event::SizeProbed { size } => if size == 0 {
                (Phase::Finished { version: None }, Action::Finish { version: None })
            } else {
                (Phase::Fetching { size }, Action::Fetch { size })
            },
            _ => (Phase::Finished { version: None }, Action::Finish { version: None }),
        },
        Phase::Fetching { size } => match event {
            Event::Fetched { buf: Some(buf) } => if buf.len() == size as usize {
                (Phase::Locating { buf }, Action::LocateRoot)
            } else {
                (Phase::Finished { version: None }, Action::Finish { version: None })
            },
            _ => (Phase::Finished { version: None }, Action::Finish { version: None }),
        },
        Phase::Locating { buf } => match event {
            Event::Located { offset, length } => {
                let version = read_file_version(buf.as_slice(), offset, length);
                (Phase::Finished { version }, Action::Finish { version })
            },
            _ => (Phase::Finished { version: None }, Action::Finish { version: None }),
        },
        Phase::Finished { version } => (Phase::Finished { version }, Action::Finish { version }),
    }
}

} // verus!
