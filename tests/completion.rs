use r3d_rs::{decode_status_result, CellState, Completion, CompletionTable, PollResult, RedError};

#[derive(Debug, PartialEq)]
struct Job {
    tag: u64,
}

fn take_job(p: PollResult<Job>) -> Result<Job, RedError> {
    match p {
        PollResult::Ready(r) => r,
        PollResult::Pending => panic!("still pending"),
        PollResult::Gone => panic!("slot gone"),
    }
}

#[test]
fn job_resolves_exactly_once() {
    let mut t: CompletionTable<Job, u8> = CompletionTable::new();
    let token = t.submit(Job { tag: 7 }, 0).ok().unwrap();
    assert_eq!(t.settle_submission(token, Ok(())), Ok(token));
    assert!(matches!(t.poll(token), PollResult::Pending));
    assert_eq!(t.complete(token, Ok(())), Completion::Delivered);
    assert_eq!(t.complete(token, Err(RedError::DecodeFailed)), Completion::Duplicate);
    assert_eq!(take_job(t.poll(token)), Ok(Job { tag: 7 }));
    assert!(matches!(t.poll(token), PollResult::Gone));
    assert_eq!(t.complete(token, Ok(())), Completion::UnknownToken);
    assert!(!t.contains(token));
}

#[test]
fn tag_survives_the_round_trip() {
    let mut t: CompletionTable<Job, u8> = CompletionTable::new();
    let token = t.submit(Job { tag: 0xDEAD_BEEF }, 1).ok().unwrap();
    t.complete(token, decode_status_result(0));
    assert_eq!(take_job(t.poll(token)).unwrap().tag, 0xDEAD_BEEF);
}

#[test]
fn failure_status_resolves_to_its_error() {
    let mut t: CompletionTable<Job, u8> = CompletionTable::new();
    let token = t.submit(Job { tag: 1 }, 1).ok().unwrap();
    assert_eq!(t.complete(token, decode_status_result(6)), Completion::Delivered);
    assert_eq!(take_job(t.poll(token)), Err(RedError::DecodeFailed));
}

#[test]
fn out_of_order_completions_do_not_cross() {
    let mut t: CompletionTable<Job, u8> = CompletionTable::new();
    let mut tokens = Vec::new();
    for i in 0..5u64 {
        tokens.push(t.submit(Job { tag: 100 + i }, i as u8).ok().unwrap());
    }
    for &i in &[3usize, 0, 4, 1, 2] {
        assert_eq!(t.complete(tokens[i], Ok(())), Completion::Delivered);
    }
    for &i in &[2usize, 4, 0, 3, 1] {
        assert_eq!(take_job(t.poll(tokens[i])), Ok(Job { tag: 100 + i as u64 }));
    }
}

#[test]
fn notifier_belongs_to_its_slot() {
    let mut t: CompletionTable<Job, u8> = CompletionTable::new();
    let a = t.submit(Job { tag: 1 }, 11).ok().unwrap();
    let b = t.submit(Job { tag: 2 }, 22).ok().unwrap();
    assert_ne!(a, b);
    assert_eq!(t.notifier(a), Some(&11));
    assert_eq!(t.notifier(b), Some(&22));
    assert_eq!(t.notifier(b + 1), None);
}

#[test]
fn rejected_submission_leaves_no_slot() {
    let mut t: CompletionTable<Job, u8> = CompletionTable::new();
    let token = t.submit(Job { tag: 9 }, 0).ok().unwrap();
    let r = t.settle_submission(token, decode_status_result(4));
    assert_eq!(r, Err(RedError::InvalidParameter));
    assert!(!t.contains(token));
    assert_eq!(t.complete(token, Ok(())), Completion::UnknownToken);
}

#[test]
fn dropped_waitable_then_late_completion() {
    let mut t: CompletionTable<Job, u8> = CompletionTable::new();
    let gone = t.submit(Job { tag: 1 }, 0).ok().unwrap();
    let kept = t.submit(Job { tag: 2 }, 0).ok().unwrap();
    t.abandon(gone);
    assert!(t.contains(gone));
    assert_eq!(t.complete(gone, Ok(())), Completion::Discarded);
    assert!(!t.contains(gone));
    assert_eq!(t.complete(kept, Ok(())), Completion::Delivered);
    assert_eq!(take_job(t.poll(kept)), Ok(Job { tag: 2 }));
}

#[test]
fn dropping_after_completion_clears_the_slot() {
    let mut t: CompletionTable<Job, u8> = CompletionTable::new();
    let token = t.submit(Job { tag: 3 }, 0).ok().unwrap();
    t.complete(token, Ok(()));
    t.abandon(token);
    assert!(!t.contains(token));
}

#[test]
fn cell_state_is_visible() {
    let s: CellState<u8> = CellState::Pending(4);
    assert!(matches!(s, CellState::Pending(4)));
}
