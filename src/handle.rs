//! The caller's side of a tunnel: the cached outcome and the teardown protocol.
use vstd::prelude::*;

use crate::error::Error;
use crate::supervisor::ExitOutcome;

verus! {

/// What the handle knows of its supervisor.
#[derive(Debug)]
pub struct HandleState {
    outcome: Option<ExitOutcome>,
    stop_requested: bool,
}

pub struct HandleView {
    /// The outcome delivered by the supervisor, once it has been received.
    pub outcome: Option<ExitOutcome>,
    /// Whether a stop request has been sent.
    pub stop_requested: bool,
}

impl View for HandleState {
    type V = HandleView;

    closed spec fn view(&self) -> HandleView {
        HandleView { outcome: self.outcome, stop_requested: self.stop_requested }
    }
}

/// What teardown has to do.
#[derive(Debug, PartialEq, Eq)]
pub enum Teardown {
    /// The outcome is already known: the process is gone and nothing is left to do.
    Done,
    /// Send the stop request, then block until the outcome arrives.
    SignalAndAwait,
    /// A stop request was already sent: block until the outcome arrives, without
    /// signalling again.
    Await,
}

/// The status that an outcome stands for.
pub open spec fn status_of(o: ExitOutcome) -> Result<(), Error> {
    match o {
        ExitOutcome::Clean => Ok(()),
        ExitOutcome::Failed(d) => Err(Error::TunnelProcessExited(d)),
    }
}

/// A status check: the first outcome received is kept, and from then on it alone
/// decides the status; before any outcome the tunnel is up.
pub open spec fn observe(h: HandleView, delivered: Option<ExitOutcome>) -> (HandleView, Result<(), Error>) {
    match h.outcome {
        Some(o) => (h, status_of(o)),
        None => match delivered {
            Some(o) => (HandleView { outcome: Some(o), stop_requested: h.stop_requested }, status_of(o)),
            None => (h, Ok(())),
        },
    }
}

/// The first half of teardown.
pub open spec fn begin(h: HandleView) -> (HandleView, Teardown) {
    if h.outcome is Some {
        (h, Teardown::Done)
    } else if h.stop_requested {
        (h, Teardown::Await)
    } else {
        (HandleView { outcome: None, stop_requested: true }, Teardown::SignalAndAwait)
    }
}

/// The second half of teardown: the outcome that was awaited is kept, unless one
/// was already known.
pub open spec fn finish(h: HandleView, delivered: ExitOutcome) -> HandleView {
    match h.outcome {
        Some(_) => h,
        None => HandleView { outcome: Some(delivered), stop_requested: h.stop_requested },
    }
}

impl HandleState {
    /// A handle whose supervisor has delivered nothing and was asked for nothing.
    pub fn new() -> (r: Self)
        ensures
            r@ == (HandleView { outcome: None, stop_requested: false }),
    {
        HandleState { outcome: None, stop_requested: false }
    }

    /// Whether an outcome has been received.
    pub fn is_finished(&self) -> (r: bool)
        ensures
            r == self@.outcome is Some,
    {
        self.outcome.is_some()
    }

    /// The tunnel's status, given what the supervisor has delivered since the last
    /// check (`None` if nothing). Never blocks.
    pub fn status(&mut self, delivered: Option<ExitOutcome>) -> (r: Result<(), Error>)
        ensures
            (final(self)@, r) == observe(old(self)@, delivered),
    {
        match &self.outcome {
            Some(o) => Self::status_from(o),
            None => match delivered {
                Some(o) => {
                    let r = Self::status_from(&o);
                    self.outcome = Some(o);
                    r
                },
                None => Ok(()),
            },
        }
    }

    fn status_from(o: &ExitOutcome) -> (r: Result<(), Error>)
        ensures
            r == status_of(*o),
    {
        match o {
            ExitOutcome::Clean => Ok(()),
            ExitOutcome::Failed(d) => Err(Error::TunnelProcessExited(d.clone())),
        }
    }

    /// Starts teardown and says what the caller has to do.
    pub fn begin_teardown(&mut self) -> (r: Teardown)
        ensures
            (final(self)@, r) == begin(old(self)@),
    {
        if self.outcome.is_some() {
            Teardown::Done
        } else if self.stop_requested {
            Teardown::Await
        } else {
            self.stop_requested = true;
            Teardown::SignalAndAwait
        }
    }

    /// Ends teardown with the outcome that arrived.
    pub fn finish_teardown(&mut self, delivered: ExitOutcome)
        ensures
            final(self)@ == finish(old(self)@, delivered),
    {
        if self.outcome.is_none() {
            self.outcome = Some(delivered);
        }
    }
}

/// Until the supervisor delivers an outcome, every status check reports the tunnel
/// as up and changes nothing.
pub proof fn lemma_up_until_exit(h: HandleView)
    requires
        h.outcome is None,
    ensures
        observe(h, None) == (h, Ok::<(), Error>(())),
{
}

/// Once a check has reported an error, every later check reports the same error,
/// whatever is delivered afterwards, and the state no longer changes.
pub proof fn lemma_status_sticks(h: HandleView, first: Option<ExitOutcome>, later: Option<ExitOutcome>)
    requires
        observe(h, first).1 is Err,
    ensures
        observe(observe(h, first).0, later) == observe(h, first),
{
}

/// Teardown is idempotent: after it has begun, a second teardown never signals the
/// supervisor again; after it has finished, a second one has nothing to wait for.
pub proof fn lemma_teardown_idempotent(h: HandleView, delivered: ExitOutcome)
    ensures
        begin(begin(h).0).1 != Teardown::SignalAndAwait,
        begin(begin(h).0).0 == begin(h).0,
        begin(finish(begin(h).0, delivered)) == (finish(begin(h).0, delivered), Teardown::Done),
{
}

/// A teardown that has run to its end leaves the handle finished: the outcome that
/// the supervisor delivered after killing the process is kept.
pub proof fn lemma_teardown_finishes(h: HandleView, delivered: ExitOutcome)
    ensures
        finish(begin(h).0, delivered).outcome is Some,
        h.outcome is None ==> finish(begin(h).0, delivered).outcome == Some(delivered),
{
}

} // verus!
