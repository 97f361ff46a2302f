use vstd::prelude::*;

verus! {

/// Why binding an outbound socket failed.
#[derive(Debug, Clone, Copy, PartialEq, Eq, Structural)]
pub enum BindFailure {
    /// The non-local-bind option could not be set.
    SocketOption,
    /// The socket could not be bound to the source address.
    Bind,
    /// The bound local address could not be read back as an IPv6 address.
    Socket,
}

/// Where the preparation of one outbound socket stands.
#[derive(Debug, Clone, Copy, PartialEq, Eq, Structural)]
pub enum BindStage {
    /// Nothing done yet.
    Fresh,
    /// Waiting for the outcome of enabling non-local bind.
    AwaitFreebind,
    /// Waiting for the outcome of the bind.
    AwaitBind,
    /// Waiting for the local address to be read back.
    AwaitLocalAddr,
    /// Bound to the source address; the socket may connect.
    Ready,
    /// The attempt failed; the socket must not connect.
    Failed(BindFailure),
}

/// What the socket layer reports back.
#[derive(Debug, Clone, Copy, PartialEq, Eq, Structural)]
pub enum BindEvent {
    /// The hook was invoked on a fresh socket.
    Start,
    /// Outcome of enabling non-local bind.
    FreebindSet(bool),
    /// Outcome of binding to the source address with port 0.
    BindDone(bool),
    /// The local address read back: `Some` of its bits when it is IPv6.
    LocalAddrRead(Option<u128>),
}

/// What the socket layer is asked to do next.
#[derive(Debug, Clone, Copy, PartialEq, Eq, Structural)]
pub enum BindAction {
    /// Enable non-local bind on the socket.
    EnableFreebind,
    /// Bind the socket to this address with port 0.
    BindTo(u128),
    /// Read back the socket's local address.
    ReadLocalAddr,
    /// Record the resolved local address; the hook then succeeds.
    Report(u128),
    /// Fail the attempt with this error; the socket must not connect.
    Abort(BindFailure),
}

/// The transition table of the socket hook for source address `source`.
pub open spec fn bind_next(source: u128, stage: BindStage, event: BindEvent) -> (BindStage, BindAction) {
    match (stage, event) {
        (BindStage::Failed(e), _) => (BindStage::Failed(e), BindAction::Abort(e)),
        (BindStage::Fresh, BindEvent::Start) => (BindStage::AwaitFreebind, BindAction::EnableFreebind),
        (BindStage::AwaitFreebind, BindEvent::FreebindSet(true)) => (
            BindStage::AwaitBind,
            BindAction::BindTo(source),
        ),
        (BindStage::AwaitFreebind, BindEvent::FreebindSet(false)) => (
            BindStage::Failed(BindFailure::SocketOption),
            BindAction::Abort(BindFailure::SocketOption),
        ),
        (BindStage::AwaitBind, BindEvent::BindDone(true)) => (
            BindStage::AwaitLocalAddr,
            BindAction::ReadLocalAddr,
        ),
        (BindStage::AwaitBind, BindEvent::BindDone(false)) => (
            BindStage::Failed(BindFailure::Bind),
            BindAction::Abort(BindFailure::Bind),
        ),
        (BindStage::AwaitLocalAddr, BindEvent::LocalAddrRead(Some(local))) => (
            BindStage::Ready,
            BindAction::Report(local),
        ),
        _ => (BindStage::Failed(BindFailure::Socket), BindAction::Abort(BindFailure::Socket)),
    }
}

/// The preparation of one outbound socket: binds it to `source` before it
/// connects. It holds no state shared with any other socket.
#[derive(Debug, Clone, Copy, PartialEq, Eq, Structural)]
pub struct SocketBinder {
    pub source: u128,
    pub stage: BindStage,
}

impl SocketBinder {
    /// A binder for `source` that has done nothing yet.
    pub fn new(source: u128) -> (r: SocketBinder)
        ensures
            r.source == source,
            r.stage == BindStage::Fresh,
    {
        SocketBinder { source, stage: BindStage::Fresh }
    }

    /// Takes in what the socket layer reported and says what it must do next.
    pub fn on_event(&mut self, event: BindEvent) -> (r: BindAction)
        ensures
            final(self).source == old(self).source,
            (final(self).stage, r) == bind_next(old(self).source, old(self).stage, event),
    {
        let (stage, action) = match (self.stage, event) {
            (BindStage::Failed(e), _) => (BindStage::Failed(e), BindAction::Abort(e)),
            (BindStage::Fresh, BindEvent::Start) => (BindStage::AwaitFreebind, BindAction::EnableFreebind),
            (BindStage::AwaitFreebind, BindEvent::FreebindSet(ok)) => {
                if ok {
                    (BindStage::AwaitBind, BindAction::BindTo(self.source))
                } else {
                    (
                        BindStage::Failed(BindFailure::SocketOption),
                        BindAction::Abort(BindFailure::SocketOption),
                    )
                }
            },
            (BindStage::AwaitBind, BindEvent::BindDone(ok)) => {
                if ok {
                    (BindStage::AwaitLocalAddr, BindAction::ReadLocalAddr)
                } else {
                    (BindStage::Failed(BindFailure::Bind), BindAction::Abort(BindFailure::Bind))
                }
            },
            (BindStage::AwaitLocalAddr, BindEvent::LocalAddrRead(Some(local))) => (
                BindStage::Ready,
                BindAction::Report(local),
            ),
            _ => (BindStage::Failed(BindFailure::Socket), BindAction::Abort(BindFailure::Socket)),
        };
        self.stage = stage;
        action
    }
}

/// A failed bind fails the attempt with a bind error, and a failed attempt
/// stays failed: every later event only repeats the abort, so the socket is
/// never let through to connect.
pub proof fn lemma_bind_failure_aborts(source: u128)
    ensures
        bind_next(source, BindStage::AwaitBind, BindEvent::BindDone(false)) == (
            BindStage::Failed(BindFailure::Bind),
            BindAction::Abort(BindFailure::Bind),
        ),
        forall|e: BindFailure, ev: BindEvent| #[trigger]
            bind_next(source, BindStage::Failed(e), ev) == (
                BindStage::Failed(e),
                BindAction::Abort(e),
            ),
{
}

/// The hook lets a socket through only after a successful bind, and the only
/// address it ever binds to is the source address it was made for.
pub proof fn lemma_ready_only_after_bind(source: u128)
    ensures
        forall|stage: BindStage, ev: BindEvent| #[trigger]
            bind_next(source, stage, ev).0 == BindStage::AwaitLocalAddr ==> stage
                == BindStage::AwaitBind && ev == BindEvent::BindDone(true),
        forall|stage: BindStage, ev: BindEvent| #[trigger]
            bind_next(source, stage, ev).0 == BindStage::Ready ==> stage
                == BindStage::AwaitLocalAddr,
        forall|stage: BindStage, ev: BindEvent|
            #[trigger] bind_next(source, stage, ev).1 matches BindAction::BindTo(a) ==> a == source,
{
}

} // verus!
