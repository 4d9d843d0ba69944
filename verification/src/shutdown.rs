//! The decisions of a graceful shutdown.
//!
//! A shutdown stream gives at most two items: the first signal caught, which
//! starts the graceful phase, and then either a second signal or the end of
//! the grace period. Catching signals and running the timer are left to the
//! driver, which reports what it saw to [`ShutdownStream::poll_next`].

use vstd::prelude::*;

verus! {

/// The numbers that this machine gives to the signals that have a name here.
#[derive(Debug, Clone, Copy)]
pub struct SignalNumbers {
    pub alrm: i32,
    pub chld: i32,
    pub hup: i32,
    pub int: i32,
    pub io: i32,
    pub pipe: i32,
    pub quit: i32,
    pub term: i32,
    pub usr1: i32,
    pub usr2: i32,
}

/// Trusted: the constants `SIGALRM`, `SIGCHLD`, `SIGHUP`, `SIGINT`, `SIGIO`,
/// `SIGPIPE`, `SIGQUIT`, `SIGTERM`, `SIGUSR1` and `SIGUSR2` of the `libc`
/// crate. Their values differ between machines, so nothing is claimed of
/// them.
#[verifier::external_body]
pub(crate) fn signal_numbers() -> (numbers: SignalNumbers) {
    SignalNumbers {
        alrm: libc::SIGALRM,
        chld: libc::SIGCHLD,
        hup: libc::SIGHUP,
        int: libc::SIGINT,
        io: libc::SIGIO,
        pipe: libc::SIGPIPE,
        quit: libc::SIGQUIT,
        term: libc::SIGTERM,
        usr1: libc::SIGUSR1,
        usr2: libc::SIGUSR2,
    }
}

/// Trusted: `tokio::signal::unix::SignalKind::interrupt`, read by
/// `SignalKind::as_raw_value`: the number that this machine gives to the
/// interrupt signal. Nothing is claimed of it.
#[verifier::external_body]
pub(crate) fn interrupt() -> (kind: i32) {
    tokio::signal::unix::SignalKind::interrupt().as_raw_value()
}

/// Trusted: `tokio::signal::unix::SignalKind::terminate`, read by
/// `SignalKind::as_raw_value`: the number that this machine gives to the
/// terminate signal. Nothing is claimed of it.
#[verifier::external_body]
pub(crate) fn terminate() -> (kind: i32) {
    tokio::signal::unix::SignalKind::terminate().as_raw_value()
}

/// The name of a signal on a machine with the given numbers: that of the
/// first of the ten named signals with this number, else `"SIG???"`.
pub open spec fn name_of_signal(numbers: SignalNumbers, kind: i32) -> Seq<char> {
    if kind == numbers.alrm {
        "SIGALRM"@
    } else if kind == numbers.chld {
        "SIGCHLD"@
    } else if kind == numbers.hup {
        "SIGHUP"@
    } else if kind == numbers.int {
        "SIGINT"@
    } else if kind == numbers.io {
        "SIGIO"@
    } else if kind == numbers.pipe {
        "SIGPIPE"@
    } else if kind == numbers.quit {
        "SIGQUIT"@
    } else if kind == numbers.term {
        "SIGTERM"@
    } else if kind == numbers.usr1 {
        "SIGUSR1"@
    } else if kind == numbers.usr2 {
        "SIGUSR2"@
    } else {
        "SIG???"@
    }
}

/// The name of a signal on a machine with the given numbers.
pub fn signal_name(numbers: &SignalNumbers, kind: i32) -> (name: &'static str)
    ensures
        name@ == name_of_signal(*numbers, kind),
{
    if kind == numbers.alrm {
        "SIGALRM"
    } else if kind == numbers.chld {
        "SIGCHLD"
    } else if kind == numbers.hup {
        "SIGHUP"
    } else if kind == numbers.int {
        "SIGINT"
    } else if kind == numbers.io {
        "SIGIO"
    } else if kind == numbers.pipe {
        "SIGPIPE"
    } else if kind == numbers.quit {
        "SIGQUIT"
    } else if kind == numbers.term {
        "SIGTERM"
    } else if kind == numbers.usr1 {
        "SIGUSR1"
    } else if kind == numbers.usr2 {
        "SIGUSR2"
    } else {
        "SIG???"
    }
}

/// The name of a signal on this machine.
pub fn signal_to_str(kind: i32) -> (name: &'static str)
    ensures
        exists|numbers: SignalNumbers| name@ == #[trigger] name_of_signal(numbers, kind),
{
    let numbers = signal_numbers();
    signal_name(&numbers, kind)
}

/// Why the stream gave an item.
#[derive(Debug, Clone, Copy, PartialEq, Eq, Structural)]
pub enum ShutdownReason {
    /// A signal was caught; the number is the one the machine gives it.
    Signal(i32),
    /// The grace period ended.
    Timeout,
}

impl ShutdownReason {
    /// The reason in words: the signal's name, or `timeout`.
    pub fn to_string(&self) -> (words: String)
        ensures
            match *self {
                ShutdownReason::Signal(kind) => exists|numbers: SignalNumbers|
                    words@ == #[trigger] name_of_signal(numbers, kind),
                ShutdownReason::Timeout => words@ == "timeout"@,
            },
    {
        match self {
            ShutdownReason::Signal(kind) => signal_to_str(*kind).to_owned(),
            ShutdownReason::Timeout => "timeout".to_owned(),
        }
    }
}

/// Where a shutdown stands.
#[derive(Debug, Clone, Copy, PartialEq, Eq, Structural)]
pub enum ShutdownStreamState {
    /// No signal was caught yet.
    Waiting,
    /// A first signal was caught. `timed` tells whether a grace period runs.
    Graceful { timed: bool },
    /// The stream has given its last item.
    Done,
}

impl Default for ShutdownStreamState {
    fn default() -> (state: Self)
        ensures
            state == ShutdownStreamState::Waiting,
    {
        ShutdownStreamState::Waiting
    }
}

impl ShutdownStreamState {
    /// Whether a first signal was caught and the stream is not done.
    pub fn is_graceful(&self) -> (graceful: bool)
        ensures
            graceful == (*self is Graceful),
    {
        match self {
            ShutdownStreamState::Graceful { .. } => true,
            _ => false,
        }
    }

    /// Whether the stream has given its last item.
    pub fn is_done(&self) -> (done: bool)
        ensures
            done == (*self is Done),
    {
        match self {
            ShutdownStreamState::Done => true,
            _ => false,
        }
    }

    /// Whether a grace period runs.
    pub fn is_timed(&self) -> (timed: bool)
        ensures
            timed == (*self matches ShutdownStreamState::Graceful { timed } && timed),
    {
        match self {
            ShutdownStreamState::Graceful { timed } => *timed,
            _ => false,
        }
    }
}

/// What a poll of the stream gives.
#[derive(Debug, Clone, Copy, PartialEq, Eq, Structural)]
pub enum Polled {
    /// An item, or the end of the stream.
    Ready(Option<ShutdownReason>),
    /// Nothing yet.
    Pending,
}

/// The answer to a poll: what it gives, and the grace period to start now, in
/// milliseconds, if one starts.
#[derive(Debug, Clone, Copy, PartialEq, Eq, Structural)]
pub struct Poll {
    pub polled: Polled,
    pub start_timer: Option<u64>,
}

/// The state after a poll and the answer to it. `signal` is the first
/// registered signal that was caught, if any; `elapsed` tells whether a
/// running grace period has ended.
pub open spec fn polled(
    state: ShutdownStreamState,
    timeout: Option<u64>,
    signal: Option<i32>,
    elapsed: bool,
) -> (ShutdownStreamState, Poll) {
    match state {
        ShutdownStreamState::Done => (
            ShutdownStreamState::Done,
            Poll { polled: Polled::Ready(None), start_timer: None },
        ),
        ShutdownStreamState::Graceful { timed } => match signal {
            Some(kind) => (
                ShutdownStreamState::Done,
                Poll {
                    polled: Polled::Ready(Some(ShutdownReason::Signal(kind))),
                    start_timer: None,
                },
            ),
            None => if timed && elapsed {
                (
                    ShutdownStreamState::Done,
                    Poll { polled: Polled::Ready(Some(ShutdownReason::Timeout)), start_timer: None },
                )
            } else {
                (state, Poll { polled: Polled::Pending, start_timer: None })
            },
        },
        ShutdownStreamState::Waiting => match signal {
            Some(kind) => (
                ShutdownStreamState::Graceful { timed: timeout is Some },
                Poll {
                    polled: Polled::Ready(Some(ShutdownReason::Signal(kind))),
                    start_timer: timeout,
                },
            ),
            None => (state, Poll { polled: Polled::Pending, start_timer: None }),
        },
    }
}

/// Whether a stream is the default stream for the given two signals: it has
/// not caught anything, catches the two, and has a grace period of 60 s.
pub open spec fn is_default_for(stream: ShutdownStream, interrupt: i32, terminate: i32) -> bool {
    &&& stream.state == ShutdownStreamState::Waiting
    &&& stream.signals@ == seq![interrupt, terminate]
    &&& stream.timeout == Some(60_000u64)
}

/// A stream that drives a graceful shutdown.
#[derive(Debug)]
pub struct ShutdownStream {
    pub state: ShutdownStreamState,
    /// The signals to catch, by the numbers the machine gives them.
    pub signals: Vec<i32>,
    /// The grace period in milliseconds, if there is one.
    pub timeout: Option<u64>,
}

impl Default for ShutdownStream {
    fn default() -> (stream: Self)
        ensures
            stream.state == ShutdownStreamState::Waiting,
            stream.signals@ == Seq::<i32>::empty(),
            stream.timeout is None,
    {
        ShutdownStream { state: ShutdownStreamState::Waiting, signals: Vec::new(), timeout: None }
    }
}

impl ShutdownStream {
    /// The default stream: it catches the machine's interrupt and terminate
    /// signals and has a grace period of 60 s.
    pub fn new() -> (stream: Self)
        ensures
            exists|interrupt: i32, terminate: i32|
                #[trigger] is_default_for(stream, interrupt, terminate),
    {
        Self::catching(interrupt(), terminate())
    }

    /// The default stream on a machine that gives these numbers to its
    /// interrupt and terminate signals.
    pub fn catching(interrupt: i32, terminate: i32) -> (stream: Self)
        ensures
            is_default_for(stream, interrupt, terminate),
    {
        let stream = Self::default().with_timeout(60_000).with_signal(interrupt).with_signal(
            terminate,
        );
        assert(stream.signals@ =~= seq![interrupt, terminate]);
        stream
    }

    /// The stream with one more signal to catch.
    pub fn with_signal(self, kind: i32) -> (stream: Self)
        ensures
            stream.state == self.state,
            stream.signals@ == self.signals@.push(kind),
            stream.timeout == self.timeout,
    {
        let mut stream = self;
        stream.signals.push(kind);
        stream
    }

    /// The stream with a grace period of `timeout` milliseconds.
    #[must_use]
    pub fn with_timeout(self, timeout: u64) -> (stream: Self)
        ensures
            stream.state == self.state,
            stream.signals@ == self.signals@,
            stream.timeout == Some(timeout),
    {
        let mut stream = self;
        stream.timeout = Some(timeout);
        stream
    }

    /// How many items the stream has yet to give, as bounds.
    pub fn size_hint(&self) -> (hint: (usize, Option<usize>))
        ensures
            hint == match self.state {
                ShutdownStreamState::Waiting => (2usize, Some(2usize)),
                ShutdownStreamState::Graceful { .. } => (1usize, Some(1usize)),
                ShutdownStreamState::Done => (0usize, Some(0usize)),
            },
    {
        match self.state {
            ShutdownStreamState::Waiting => (2, Some(2)),
            ShutdownStreamState::Graceful { .. } => (1, Some(1)),
            ShutdownStreamState::Done => (0, Some(0)),
        }
    }

    /// One poll of the stream. `signal` is the first registered signal that
    /// was caught since the last poll, if any; `elapsed` tells whether a
    /// running grace period has ended. A signal goes before the end of the
    /// grace period.
    pub fn poll_next(&mut self, signal: Option<i32>, elapsed: bool) -> (poll: Poll)
        ensures
            (final(self).state, poll) == polled(
                old(self).state,
                old(self).timeout,
                signal,
                elapsed,
            ),
            final(self).signals == old(self).signals,
            final(self).timeout == old(self).timeout,
    {
        if self.state.is_done() {
            return Poll { polled: Polled::Ready(None), start_timer: None };
        }
        if let Some(kind) = signal {
            let mut start_timer: Option<u64> = None;
            if self.state.is_graceful() {
                self.state = ShutdownStreamState::Done;
            } else {
                start_timer = self.timeout;
                self.state = ShutdownStreamState::Graceful { timed: self.timeout.is_some() };
            }
            return Poll { polled: Polled::Ready(Some(ShutdownReason::Signal(kind))), start_timer };
        }
        if self.state.is_timed() && elapsed {
            self.state = ShutdownStreamState::Done;
            Poll { polled: Polled::Ready(Some(ShutdownReason::Timeout)), start_timer: None }
        } else {
            Poll { polled: Polled::Pending, start_timer: None }
        }
    }
}

/// How many items a stream in this state has yet to give.
pub open spec fn remaining(state: ShutdownStreamState) -> nat {
    match state {
        ShutdownStreamState::Waiting => 2,
        ShutdownStreamState::Graceful { .. } => 1,
        ShutdownStreamState::Done => 0,
    }
}

/// A stream gives no more than the items that its size hint allows: every
/// poll that gives an item lowers the upper bound by one, and no other poll
/// changes it.
pub proof fn law_poll_counts_down(
    state: ShutdownStreamState,
    timeout: Option<u64>,
    signal: Option<i32>,
    elapsed: bool,
)
    ensures
        ({
            let (next, poll) = polled(state, timeout, signal, elapsed);
            remaining(next) + (if poll.polled matches Polled::Ready(Some(_)) {
                1nat
            } else {
                0nat
            }) == remaining(state)
        }),
{
}

} // verus!
