//! Accepting connections on several listeners at once: which accept errors
//! are passed over, and how every listener keeps one accept under way.
use vstd::prelude::*;

verus! {

/// The kind of an I/O error, as far as accepting connections tells kinds apart.
#[derive(Clone, Copy, Debug, PartialEq, Eq, Structural)]
pub enum IoErrorKind {
    ConnectionRefused,
    ConnectionAborted,
    ConnectionReset,
    /// Any other kind.
    Other,
}

/// An error that concerns one connection only, not the listener.
pub open spec fn spec_is_connection_error(kind: IoErrorKind) -> bool {
    ||| kind == IoErrorKind::ConnectionRefused
    ||| kind == IoErrorKind::ConnectionAborted
    ||| kind == IoErrorKind::ConnectionReset
}

pub fn is_connection_error(kind: IoErrorKind) -> (b: bool)
    ensures
        b == spec_is_connection_error(kind),
{
    match kind {
        IoErrorKind::ConnectionRefused => true,
        IoErrorKind::ConnectionAborted => true,
        IoErrorKind::ConnectionReset => true,
        IoErrorKind::Other => false,
    }
}

/// What to do after an accept failed.
#[derive(Clone, Copy, Debug, PartialEq, Eq, Structural)]
pub enum AcceptErrorAction {
    /// Go on at once.
    Ignore,
    /// Log the error and wait this many seconds before going on.
    LogAndPause(u64),
}

/// Connection errors are passed over; any other error is logged and
/// followed by a pause of one second.
pub fn handle_accept_error(kind: IoErrorKind) -> (action: AcceptErrorAction)
    ensures
        spec_is_connection_error(kind) ==> action == AcceptErrorAction::Ignore,
        !spec_is_connection_error(kind) ==> action == AcceptErrorAction::LogAndPause(1),
{
    if is_connection_error(kind) {
        AcceptErrorAction::Ignore
    } else {
        AcceptErrorAction::LogAndPause(1)
    }
}

/// What became of one accept.
#[derive(Clone, Copy, Debug, PartialEq, Eq, Structural)]
pub enum AcceptOutcome {
    Accepted,
    Failed(IoErrorKind),
}

/// What the accepting side does next.
#[derive(Clone, Copy, Debug, PartialEq, Eq, Structural)]
pub enum AcceptStep {
    /// Start a new accept on this listener and hand out the connection it gave.
    Deliver(usize),
    /// Start a new accept on this listener after handling its error.
    Retry(usize, AcceptErrorAction),
    /// No listener at all: wait forever.
    Wait,
}

/// Which listeners have an accept under way.
pub struct AcceptLoop {
    pending: Vec<bool>,
}

impl View for AcceptLoop {
    type V = Seq<bool>;

    closed spec fn view(&self) -> Seq<bool> {
        self.pending@
    }
}

/// Every one of the listeners has an accept under way.
pub open spec fn all_pending(pending: Seq<bool>) -> bool {
    forall|i: int| 0 <= i < pending.len() ==> #[trigger] pending[i]
}

impl AcceptLoop {
    /// Starts one accept on each of `listeners` listeners.
    pub fn new(listeners: usize) -> (l: Self)
        ensures
            l@.len() == listeners,
            all_pending(l@),
    {
        let mut pending: Vec<bool> = Vec::new();
        let mut i: usize = 0;
        while i < listeners
            invariant
                i <= listeners,
                pending@.len() == i,
                all_pending(pending@),
            decreases listeners - i,
        {
            pending.push(true);
            i = i + 1;
        }
        AcceptLoop { pending }
    }

    /// The number of listeners.
    pub fn listeners(&self) -> (n: usize)
        ensures
            n == self@.len(),
    {
        self.pending.len()
    }

    /// The accept of listener `index` finished with `outcome` (`None` when no
    /// accept is under way at all). A new accept is started on the same
    /// listener whatever the outcome, so each listener keeps one accept
    /// under way.
    pub fn on_completion(&mut self, completed: Option<(usize, AcceptOutcome)>) -> (step: AcceptStep)
        requires
            match completed {
                Some((index, _)) => index < old(self)@.len() && old(self)@[index as int],
                None => true,
            },
        ensures
            final(self)@ == old(self)@,
            match completed {
                Some((index, AcceptOutcome::Accepted)) => step == AcceptStep::Deliver(index),
                Some((index, AcceptOutcome::Failed(kind))) => step == AcceptStep::Retry(
                    index,
                    if spec_is_connection_error(kind) {
                        AcceptErrorAction::Ignore
                    } else {
                        AcceptErrorAction::LogAndPause(1)
                    },
                ),
                None => step == AcceptStep::Wait,
            },
    {
        match completed {
            Some((index, outcome)) => {
                self.pending.set(index, false);
                let step = match outcome {
                    AcceptOutcome::Accepted => AcceptStep::Deliver(index),
                    AcceptOutcome::Failed(kind) => AcceptStep::Retry(index, handle_accept_error(kind)),
                };
                self.pending.set(index, true);
                proof {
                    assert(self.pending@ =~= old(self).pending@);
                }
                step
            },
            None => AcceptStep::Wait,
        }
    }
}

} // verus!
