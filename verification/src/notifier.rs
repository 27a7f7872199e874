use vstd::prelude::*;
use vstd::string::StringExecFns;

verus! {

/// A fatal server-lifecycle event. The caller must stop using the stream;
/// no reconnection is attempted.
pub enum FatalStreamError {
    /// The server shut down or dropped the client; the payload combines
    /// the server's reported status and reason.
    AudioServerDisconnected(String),
}

impl FatalStreamError {
    /// A short human-readable description of the error.
    pub fn message(&self) -> (r: String)
        ensures
            r@ == match self {
                FatalStreamError::AudioServerDisconnected(msg) => "audio server disconnected: "@
                    + msg@,
            },
    {
        match self {
            FatalStreamError::AudioServerDisconnected(msg) => {
                let mut m = String::from_str("audio server disconnected: ");
                m.append(msg.as_str());
                m
            },
        }
    }
}

/// The application's fatal-error behaviour: consumed on delivery, so it
/// can run at most once. It may be invoked from an arbitrary server
/// thread and must not block.
pub trait FatalErrorHandler: Sized {
    fn fatal_stream_error(self, error: FatalStreamError);
}

/// The one-shot holder of the fatal-error handler: armed while the
/// handler is still held, disarmed forever once a shutdown consumed it.
pub struct FatalErrorNotifier<E: FatalErrorHandler> {
    handler: Option<E>,
}

impl<E: FatalErrorHandler> FatalErrorNotifier<E> {
    /// The handler has not been consumed yet.
    pub closed spec fn armed(self) -> bool {
        self.handler is Some
    }

    /// A notifier holding the application's handler.
    pub fn new(handler: E) -> (r: FatalErrorNotifier<E>)
        ensures
            r.armed(),
    {
        FatalErrorNotifier { handler: Some(handler) }
    }

    /// Delivers one shutdown notification: the handler is invoked exactly
    /// when the notifier was still armed, with the given description, and
    /// the notifier is disarmed either way, so later notifications are
    /// no-ops.
    pub fn on_shutdown(&mut self, description: String) -> (fired: bool)
        ensures
            shutdown_step(*old(self), *final(self), fired),
    {
        let mut taken: Option<E> = None;
        core::mem::swap(&mut self.handler, &mut taken);
        match taken {
            Some(handler) => {
                handler.fatal_stream_error(
                    FatalStreamError::AudioServerDisconnected(description),
                );
                true
            },
            None => false,
        }
    }
}

/// One delivery of a shutdown notification: it fires exactly when the
/// notifier was still armed, and always leaves it disarmed.
pub open spec fn shutdown_step<E: FatalErrorHandler>(
    pre: FatalErrorNotifier<E>,
    post: FatalErrorNotifier<E>,
    fired: bool,
) -> bool {
    &&& fired == pre.armed()
    &&& !post.armed()
}

/// The fatal-error callback fires at most once over a stream's lifetime:
/// of any two successive shutdown deliveries, the second never fires —
/// however many more the server reports, only the first delivery after
/// arming can fire.
pub proof fn lemma_fatal_error_fires_at_most_once<E: FatalErrorHandler>(
    s0: FatalErrorNotifier<E>,
    s1: FatalErrorNotifier<E>,
    s2: FatalErrorNotifier<E>,
    fired1: bool,
    fired2: bool,
)
    requires
        shutdown_step(s0, s1, fired1),
        shutdown_step(s1, s2, fired2),
    ensures
        !fired2,
        !(fired1 && fired2),
{
}

} // verus!
