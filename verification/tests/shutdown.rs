use client_pipeline::shutdown::{
    signal_name, signal_to_str, Poll, Polled, ShutdownReason, ShutdownStream,
    ShutdownStreamState, SignalNumbers,
};

fn numbers() -> SignalNumbers {
    SignalNumbers {
        alrm: 14,
        chld: 17,
        hup: 1,
        int: 2,
        io: 29,
        pipe: 13,
        quit: 3,
        term: 15,
        usr1: 10,
        usr2: 12,
    }
}

#[test]
fn names_of_this_machine() {
    assert_eq!(signal_to_str(libc::SIGALRM), "SIGALRM");
    assert_eq!(signal_to_str(libc::SIGCHLD), "SIGCHLD");
    assert_eq!(signal_to_str(libc::SIGHUP), "SIGHUP");
    assert_eq!(signal_to_str(libc::SIGINT), "SIGINT");
    assert_eq!(signal_to_str(libc::SIGIO), "SIGIO");
    assert_eq!(signal_to_str(libc::SIGPIPE), "SIGPIPE");
    assert_eq!(signal_to_str(libc::SIGQUIT), "SIGQUIT");
    assert_eq!(signal_to_str(libc::SIGTERM), "SIGTERM");
    assert_eq!(signal_to_str(libc::SIGUSR1), "SIGUSR1");
    assert_eq!(signal_to_str(libc::SIGUSR2), "SIGUSR2");
    assert_eq!(signal_to_str(libc::SIGKILL), "SIG???");
    assert_eq!(signal_to_str(-1), "SIG???");
}

#[test]
fn names_by_given_numbers() {
    let n = numbers();
    assert_eq!(signal_name(&n, 14), "SIGALRM");
    assert_eq!(signal_name(&n, 17), "SIGCHLD");
    assert_eq!(signal_name(&n, 1), "SIGHUP");
    assert_eq!(signal_name(&n, 2), "SIGINT");
    assert_eq!(signal_name(&n, 29), "SIGIO");
    assert_eq!(signal_name(&n, 13), "SIGPIPE");
    assert_eq!(signal_name(&n, 3), "SIGQUIT");
    assert_eq!(signal_name(&n, 15), "SIGTERM");
    assert_eq!(signal_name(&n, 10), "SIGUSR1");
    assert_eq!(signal_name(&n, 12), "SIGUSR2");
    assert_eq!(signal_name(&n, 9), "SIG???");
    assert_eq!(signal_name(&n, 0), "SIG???");
    // where two names share a number, the first in the list wins
    let shared = SignalNumbers { usr2: 14, ..numbers() };
    assert_eq!(signal_name(&shared, 14), "SIGALRM");
}

#[test]
fn reasons_in_words() {
    assert_eq!(ShutdownReason::Timeout.to_string(), "timeout");
    assert_eq!(ShutdownReason::Signal(libc::SIGINT).to_string(), "SIGINT");
    assert_eq!(ShutdownReason::Signal(-5).to_string(), "SIG???");
}

#[test]
fn states() {
    assert_eq!(ShutdownStreamState::default(), ShutdownStreamState::Waiting);
    let graceful = ShutdownStreamState::Graceful { timed: false };
    assert!(graceful.is_graceful() && !graceful.is_done() && !graceful.is_timed());
    assert!(ShutdownStreamState::Graceful { timed: true }.is_timed());
    assert!(ShutdownStreamState::Done.is_done());
    assert!(!ShutdownStreamState::Done.is_graceful());
    assert!(!ShutdownStreamState::Waiting.is_graceful());
    assert!(!ShutdownStreamState::Waiting.is_done());
    assert!(!ShutdownStreamState::Waiting.is_timed());
}

#[test]
fn default_stream_waits_for_two_signals_with_a_minute_of_grace() {
    let stream = ShutdownStream::catching(2, 15);
    assert_eq!(stream.state, ShutdownStreamState::Waiting);
    assert_eq!(stream.signals, vec![2, 15]);
    assert_eq!(stream.timeout, Some(60_000));
    assert_eq!(stream.size_hint(), (2, Some(2)));
    let here = ShutdownStream::new();
    assert_eq!(here.state, ShutdownStreamState::Waiting);
    assert_eq!(here.signals, vec![libc::SIGINT, libc::SIGTERM]);
    assert_eq!(here.timeout, Some(60_000));
    let bare = ShutdownStream::default();
    assert!(bare.signals.is_empty());
    assert_eq!(bare.timeout, None);
    let built = ShutdownStream::default().with_signal(1).with_timeout(5).with_signal(3);
    assert_eq!(built.signals, vec![1, 3]);
    assert_eq!(built.timeout, Some(5));
}

#[test]
fn signal_then_timeout() {
    let mut stream = ShutdownStream::catching(2, 15);
    assert_eq!(stream.poll_next(None, false), Poll { polled: Polled::Pending, start_timer: None });
    // no grace period runs yet: an elapsed timer means nothing
    assert_eq!(stream.poll_next(None, true), Poll { polled: Polled::Pending, start_timer: None });
    assert_eq!(
        stream.poll_next(Some(15), false),
        Poll {
            polled: Polled::Ready(Some(ShutdownReason::Signal(15))),
            start_timer: Some(60_000)
        }
    );
    assert_eq!(stream.state, ShutdownStreamState::Graceful { timed: true });
    assert_eq!(stream.size_hint(), (1, Some(1)));
    assert_eq!(stream.poll_next(None, false), Poll { polled: Polled::Pending, start_timer: None });
    assert_eq!(
        stream.poll_next(None, true),
        Poll { polled: Polled::Ready(Some(ShutdownReason::Timeout)), start_timer: None }
    );
    assert_eq!(stream.state, ShutdownStreamState::Done);
    assert_eq!(stream.size_hint(), (0, Some(0)));
    assert_eq!(
        stream.poll_next(Some(2), true),
        Poll { polled: Polled::Ready(None), start_timer: None }
    );
    assert_eq!(stream.poll_next(None, false), Poll { polled: Polled::Ready(None), start_timer: None });
    assert_eq!(stream.signals, vec![2, 15]);
}

#[test]
fn second_signal_goes_before_the_timeout() {
    let mut stream = ShutdownStream::catching(2, 15);
    stream.poll_next(Some(2), false);
    assert_eq!(
        stream.poll_next(Some(2), true),
        Poll { polled: Polled::Ready(Some(ShutdownReason::Signal(2))), start_timer: None }
    );
    assert_eq!(stream.state, ShutdownStreamState::Done);
}

#[test]
fn without_a_timeout_only_a_second_signal_ends_it() {
    let mut stream = ShutdownStream::default().with_signal(2);
    assert_eq!(
        stream.poll_next(Some(2), false),
        Poll { polled: Polled::Ready(Some(ShutdownReason::Signal(2))), start_timer: None }
    );
    assert_eq!(stream.state, ShutdownStreamState::Graceful { timed: false });
    assert_eq!(stream.poll_next(None, true), Poll { polled: Polled::Pending, start_timer: None });
    assert_eq!(
        stream.poll_next(Some(2), false),
        Poll { polled: Polled::Ready(Some(ShutdownReason::Signal(2))), start_timer: None }
    );
    assert_eq!(stream.state, ShutdownStreamState::Done);
}
