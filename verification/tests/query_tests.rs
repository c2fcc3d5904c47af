use sjkwinh::entry::deliver_times;
use sjkwinh::handle::Handle;
use sjkwinh::query::GuardedQuery;
use sjkwinh::query::QueryAction;
use sjkwinh::query::QueryEvent;
use sjkwinh::handle::TargetKind;
use sjkwinh::handle::PROCESS_QUERY_INFORMATION;
use sjkwinh::handle::THREAD_QUERY_INFORMATION;
use sjkwinh::record::ProcessTimeRecord;
use sjkwinh::record::TimestampPair;
use sjkwinh::status::cycle_status;
use sjkwinh::status::QueryError;

/// A stand-in for the system: it grants or denies one handle, answers one
/// reading, and counts the handles that are open.
struct FakeSystem<R> {
    grant: Result<Handle, u32>,
    answer: Result<R, u32>,
    open_handles: usize,
    opens: usize,
    closes: usize,
    reads: usize,
}

fn fake<R>(grant: Result<Handle, u32>, answer: Result<R, u32>) -> FakeSystem<R> {
    FakeSystem { grant, answer, open_handles: 0, opens: 0, closes: 0, reads: 0 }
}

fn drive<R: Copy>(system: &mut FakeSystem<R>, kind: TargetKind, id: u32) -> Result<R, QueryError> {
    let (mut query, mut action) = GuardedQuery::<R>::begin(kind, id);
    loop {
        let event = match action {
            QueryAction::Open { kind: asked_kind, id: asked_id, access } => {
                assert_eq!(asked_kind, kind);
                assert_eq!(asked_id, id);
                assert_eq!(access, kind.access());
                match system.grant {
                    Ok(handle) => {
                        system.opens += 1;
                        system.open_handles += 1;
                        QueryEvent::Opened(handle)
                    }
                    Err(code) => QueryEvent::OpenFailed(code),
                }
            }
            QueryAction::Read { kind: asked_kind, handle } => {
                assert_eq!(asked_kind, kind);
                assert_eq!(Ok(handle), system.grant);
                assert_eq!(system.open_handles, 1);
                system.reads += 1;
                match system.answer {
                    Ok(reading) => QueryEvent::Read(reading),
                    Err(code) => QueryEvent::ReadFailed(code),
                }
            }
            QueryAction::Close(handle) => {
                assert_eq!(Ok(handle), system.grant);
                system.closes += 1;
                system.open_handles -= 1;
                QueryEvent::Closed
            }
            QueryAction::Finish => break,
        };
        let (next, asked) = query.step(event);
        query = next;
        action = asked.unwrap();
    }
    assert!(query.is_over());
    query.finish().unwrap()
}

fn sample_record() -> ProcessTimeRecord {
    ProcessTimeRecord {
        creation: TimestampPair { low: 11, high: 12 },
        exit: TimestampPair { low: 0, high: 0 },
        kernel: TimestampPair { low: 500, high: 0 },
        user: TimestampPair { low: 0xffff_fff0, high: 3 },
    }
}

#[test]
fn access_rights_are_query_only() {
    assert_eq!(PROCESS_QUERY_INFORMATION, 0x0400);
    assert_eq!(THREAD_QUERY_INFORMATION, 0x0040);
    assert_eq!(TargetKind::Process.access(), 0x0400);
    assert_eq!(TargetKind::Thread.access(), 0x0040);
}

#[test]
fn query_asks_open_read_close_in_turn() {
    let handle = Handle { raw: 0x1234 };
    let (query, action) = GuardedQuery::<u64>::begin(TargetKind::Process, 42);
    assert_eq!(action, QueryAction::Open { kind: TargetKind::Process, id: 42, access: 0x0400 });
    assert!(!query.is_over());
    let (query, action) = query.step(QueryEvent::Opened(handle));
    assert_eq!(action, Some(QueryAction::Read { kind: TargetKind::Process, handle }));
    assert!(!query.is_over());
    let (query, action) = query.step(QueryEvent::Read(777));
    assert_eq!(action, Some(QueryAction::Close(handle)));
    assert!(!query.is_over());
    let (query, action) = query.step(QueryEvent::Closed);
    assert_eq!(action, Some(QueryAction::Finish));
    assert!(query.is_over());
    assert_eq!(query.finish(), Some(Ok(777)));
}

#[test]
fn thread_query_opens_a_thread() {
    let (_, action) = GuardedQuery::<u64>::begin(TargetKind::Thread, 9);
    assert_eq!(action, QueryAction::Open { kind: TargetKind::Thread, id: 9, access: 0x0040 });
}

#[test]
fn denied_handle_ends_the_query() {
    let (query, _) = GuardedQuery::<u64>::begin(TargetKind::Process, 42);
    let (query, action) = query.step(QueryEvent::OpenFailed(5));
    assert_eq!(action, Some(QueryAction::Finish));
    assert!(query.is_over());
    assert_eq!(query.finish(), Some(Err(QueryError::HandleAcquisitionFailed(5))));
}

#[test]
fn failed_reading_still_releases_the_handle() {
    let handle = Handle { raw: 8 };
    let (query, _) = GuardedQuery::<u64>::begin(TargetKind::Thread, 42);
    let (query, _) = query.step(QueryEvent::Opened(handle));
    let (query, action) = query.step(QueryEvent::ReadFailed(6));
    assert_eq!(action, Some(QueryAction::Close(handle)));
    assert!(!query.is_over());
    assert_eq!(GuardedQuery::<u64>::begin(TargetKind::Thread, 42).0.finish(), None);
    let (query, action) = query.step(QueryEvent::Closed);
    assert_eq!(action, Some(QueryAction::Finish));
    assert_eq!(query.finish(), Some(Err(QueryError::QueryFailed(6))));
}

#[test]
fn outcome_is_withheld_while_a_request_is_pending() {
    let handle = Handle { raw: 8 };
    let (query, _) = GuardedQuery::<u64>::begin(TargetKind::Process, 1);
    let (query, _) = query.step(QueryEvent::Opened(handle));
    assert_eq!(query.finish(), None);
    let (query, _) = GuardedQuery::<u64>::begin(TargetKind::Process, 1);
    let (query, _) = query.step(QueryEvent::Opened(handle));
    let (query, _) = query.step(QueryEvent::Read(3));
    assert_eq!(query.finish(), None);
}

#[test]
fn unexpected_event_changes_nothing() {
    let handle = Handle { raw: 8 };
    let (query, _) = GuardedQuery::<u64>::begin(TargetKind::Process, 1);
    let (query, action) = query.step(QueryEvent::Closed);
    assert_eq!(action, None);
    let (query, action) = query.step(QueryEvent::Read(5));
    assert_eq!(action, None);
    let (query, action) = query.step(QueryEvent::Opened(handle));
    assert_eq!(action, Some(QueryAction::Read { kind: TargetKind::Process, handle }));
    let (query, action) = query.step(QueryEvent::Opened(Handle { raw: 9 }));
    assert_eq!(action, None);
    let (query, action) = query.step(QueryEvent::Read(5));
    assert_eq!(action, Some(QueryAction::Close(handle)));
    let (query, action) = query.step(QueryEvent::ReadFailed(1));
    assert_eq!(action, None);
    let (query, action) = query.step(QueryEvent::Closed);
    assert_eq!(action, Some(QueryAction::Finish));
    let (query, action) = query.step(QueryEvent::Closed);
    assert_eq!(action, None);
    assert_eq!(query.finish(), Some(Ok(5)));
}

#[test]
fn process_times_of_live_process() {
    let mut system = fake(Ok(Handle { raw: 100 }), Ok(sample_record()));
    let outcome = drive(&mut system, TargetKind::Process, 4321);
    let mut buffer = vec![0i32; 8];
    assert_eq!(deliver_times(&outcome, &mut buffer).status, 0);
    assert_eq!(buffer, vec![11, 12, 0, 0, 500, 0, -16, 3]);
    assert_eq!((system.opens, system.reads, system.closes, system.open_handles), (1, 1, 1, 0));
}

#[test]
fn process_times_of_unknown_process() {
    let mut system = fake::<ProcessTimeRecord>(Err(87), Ok(sample_record()));
    let outcome = drive(&mut system, TargetKind::Process, 4321);
    assert_eq!(outcome, Err(QueryError::HandleAcquisitionFailed(87)));
    let mut buffer = vec![3i32; 8];
    let status = deliver_times(&outcome, &mut buffer).status;
    assert_eq!(status, 87);
    assert!(status > 0);
    assert_eq!(buffer, vec![3i32; 8]);
    assert_eq!((system.opens, system.reads, system.closes, system.open_handles), (0, 0, 0, 0));
}

#[test]
fn thread_times_of_exited_thread() {
    let mut system = fake::<ProcessTimeRecord>(Ok(Handle { raw: 7 }), Err(87));
    let outcome = drive(&mut system, TargetKind::Thread, 99);
    assert_eq!(outcome, Err(QueryError::QueryFailed(87)));
    let mut buffer = vec![-1i32; 8];
    assert_eq!(deliver_times(&outcome, &mut buffer).status, 87);
    assert_eq!(buffer, vec![-1i32; 8]);
    assert_eq!((system.opens, system.reads, system.closes, system.open_handles), (1, 1, 1, 0));

    let mut system = fake::<ProcessTimeRecord>(Err(87), Err(0));
    let outcome = drive(&mut system, TargetKind::Thread, 99);
    assert_eq!(deliver_times(&outcome, &mut buffer).status, 87);
    assert_eq!(buffer, vec![-1i32; 8]);
    assert_eq!(system.open_handles, 0);
}

#[test]
fn cycle_time_of_process_and_thread() {
    let mut system = fake(Ok(Handle { raw: 1 }), Ok(9_000_000_000u64));
    let outcome = drive(&mut system, TargetKind::Process, 10);
    assert_eq!(cycle_status(&outcome), 9_000_000_000);
    assert_eq!(system.open_handles, 0);

    let mut system = fake::<u64>(Ok(Handle { raw: 1 }), Err(6));
    let outcome = drive(&mut system, TargetKind::Thread, 10);
    assert_eq!(cycle_status(&outcome), -6);
    assert_eq!((system.opens, system.closes, system.open_handles), (1, 1, 0));

    let mut system = fake::<u64>(Err(5), Ok(1));
    let outcome = drive(&mut system, TargetKind::Thread, 10);
    assert_eq!(cycle_status(&outcome), -5);
    assert_eq!((system.opens, system.closes, system.open_handles), (0, 0, 0));
}

#[test]
fn repeated_queries_leak_no_handle() {
    let mut system = fake(Ok(Handle { raw: 1 }), Ok(100u64));
    let first = drive(&mut system, TargetKind::Process, 10);
    system.answer = Ok(250);
    let second = drive(&mut system, TargetKind::Process, 10);
    assert!(cycle_status(&first) <= cycle_status(&second));
    assert_eq!((system.opens, system.closes, system.open_handles), (2, 2, 0));
}

#[test]
fn repeated_time_queries_decode_to_growing_times() {
    let mut system = fake(Ok(Handle { raw: 1 }), Ok(sample_record()));
    let mut first = vec![0i32; 8];
    let outcome = drive(&mut system, TargetKind::Process, 10);
    assert_eq!(deliver_times(&outcome, &mut first).status, 0);

    let mut later = sample_record();
    later.kernel = TimestampPair { low: 2, high: 1 };
    later.user = TimestampPair { low: 0, high: 4 };
    system.answer = Ok(later);
    let mut second = vec![0i32; 8];
    let outcome = drive(&mut system, TargetKind::Process, 10);
    assert_eq!(deliver_times(&outcome, &mut second).status, 0);

    let before = ProcessTimeRecord::from_slots(&first).unwrap();
    let after = ProcessTimeRecord::from_slots(&second).unwrap();
    assert_eq!(before, sample_record());
    assert_eq!(after, later);
    assert!(before.kernel.ticks() <= after.kernel.ticks());
    assert!(before.user.ticks() <= after.user.ticks());
    assert_eq!((system.opens, system.closes, system.open_handles), (2, 2, 0));
}
