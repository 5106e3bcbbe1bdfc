use termsize::error::QueryError;
use termsize::handle::WindowRecord;
use termsize::protocol::{Query, Reply, Request};

fn unavailable() -> Result<(u16, u16), QueryError> {
    Err(QueryError::SizeUnavailable)
}

fn all_replies() -> Vec<Reply> {
    vec![
        Reply::Opened { handle: 11 },
        Reply::OpenFailed,
        Reply::ReadDone { count: 4, record: WindowRecord { row: 24, col: 80 } },
        Reply::ReadDone { count: 3, record: WindowRecord { row: 24, col: 80 } },
        Reply::ReadDone { count: 0, record: WindowRecord { row: 0, col: 0 } },
        Reply::ReadFailed,
        Reply::Closed,
    ]
}

#[test]
fn query_starts_by_opening() {
    assert_eq!(Query::start(), (Query::Opening, Request::Open));
}

#[test]
fn whole_query_on_a_terminal() {
    let (query, request) = Query::start();
    assert_eq!(request, Request::Open);
    let (query, request) = query.step(Reply::Opened { handle: 3 });
    assert_eq!(query, Query::Reading { handle: 3 });
    assert_eq!(request, Request::Read { handle: 3 });
    let read = Reply::ReadDone { count: 4, record: WindowRecord { row: 24, col: 80 } };
    let (query, request) = query.step(read);
    assert_eq!(query, Query::Closing { handle: 3, outcome: Ok((80, 24)) });
    assert_eq!(request, Request::Close { handle: 3 });
    let (query, request) = query.step(Reply::Closed);
    assert_eq!(query, Query::Finished { outcome: Ok((80, 24)) });
    assert_eq!(request, Request::Return { outcome: Ok((80, 24)) });
}

#[test]
fn open_failure_returns_at_once() {
    let (query, _) = Query::start();
    let (query, request) = query.step(Reply::OpenFailed);
    assert_eq!(query, Query::Finished { outcome: unavailable() });
    assert_eq!(request, Request::Return { outcome: unavailable() });
}

#[test]
fn short_read_still_closes_the_handle() {
    let (query, _) = Query::start();
    let (query, _) = query.step(Reply::Opened { handle: 5 });
    let short = Reply::ReadDone { count: 2, record: WindowRecord { row: 24, col: 80 } };
    let (query, request) = query.step(short);
    assert_eq!(request, Request::Close { handle: 5 });
    assert_eq!(query, Query::Closing { handle: 5, outcome: unavailable() });
    let (query, request) = query.step(Reply::Closed);
    assert_eq!(query, Query::Finished { outcome: unavailable() });
    assert_eq!(request, Request::Return { outcome: unavailable() });
}

#[test]
fn failed_read_still_closes_the_handle() {
    let (query, _) = Query::start();
    let (query, _) = query.step(Reply::Opened { handle: usize::MAX });
    let (query, request) = query.step(Reply::ReadFailed);
    assert_eq!(request, Request::Close { handle: usize::MAX });
    let (_, request) = query.step(Reply::Closed);
    assert_eq!(request, Request::Return { outcome: unavailable() });
}

#[test]
fn every_reply_to_a_read_is_followed_by_close() {
    for reply in all_replies() {
        let (query, request) = Query::Reading { handle: 9 }.step(reply);
        assert_eq!(request, Request::Close { handle: 9 });
        assert!(matches!(query, Query::Closing { handle: 9, .. }));
    }
}

#[test]
fn repeated_failing_queries_close_every_handle() {
    for handle in 0..50usize {
        let mut opened: u32 = 0;
        let mut closed: u32 = 0;
        let (mut query, mut request) = Query::start();
        let outcome = loop {
            let reply = match request {
                Request::Open => {
                    opened += 1;
                    Reply::Opened { handle }
                }
                Request::Read { handle: from } => {
                    assert_eq!(from, handle);
                    Reply::ReadDone { count: handle % 4, record: WindowRecord { row: 24, col: 80 } }
                }
                Request::Close { handle: which } => {
                    assert_eq!(which, handle);
                    closed += 1;
                    Reply::Closed
                }
                Request::Return { outcome } => break outcome,
            };
            let next = query.step(reply);
            query = next.0;
            request = next.1;
        };
        assert_eq!(outcome, unavailable());
        assert_eq!(opened, 1);
        assert_eq!(closed, 1);
        assert_eq!(query, Query::Finished { outcome: unavailable() });
    }
}

#[test]
fn reply_that_answers_no_open_counts_as_failure() {
    for reply in all_replies() {
        if matches!(reply, Reply::Opened { .. }) {
            continue;
        }
        let (query, request) = Query::Opening.step(reply);
        assert_eq!(query, Query::Finished { outcome: unavailable() });
        assert_eq!(request, Request::Return { outcome: unavailable() });
    }
}

#[test]
fn reply_that_answers_no_read_counts_as_failure() {
    for reply in [Reply::Opened { handle: 1 }, Reply::OpenFailed, Reply::Closed] {
        let (query, _) = Query::Reading { handle: 2 }.step(reply);
        assert_eq!(query, Query::Closing { handle: 2, outcome: unavailable() });
    }
}

#[test]
fn close_keeps_the_outcome_of_the_read() {
    for reply in all_replies() {
        let closing = Query::Closing { handle: 4, outcome: Ok((132, 50)) };
        let (query, request) = closing.step(reply);
        assert_eq!(query, Query::Finished { outcome: Ok((132, 50)) });
        assert_eq!(request, Request::Return { outcome: Ok((132, 50)) });
    }
}

#[test]
fn finished_query_repeats_its_outcome() {
    for reply in all_replies() {
        let done = Query::Finished { outcome: Ok((80, 24)) };
        let (query, request) = done.step(reply);
        assert_eq!(query, done);
        assert_eq!(request, Request::Return { outcome: Ok((80, 24)) });
    }
}

#[test]
fn same_replies_give_the_same_query() {
    let replies = [
        Reply::Opened { handle: 6 },
        Reply::ReadDone { count: 4, record: WindowRecord { row: 43, col: 90 } },
        Reply::Closed,
    ];
    let mut first = Query::start();
    let mut second = Query::start();
    for reply in replies {
        first = first.0.step(reply);
        second = second.0.step(reply);
        assert_eq!(first, second);
    }
    assert_eq!(first.1, Request::Return { outcome: Ok((90, 43)) });
}
