use crate::message::{ConnectionInfo, InfoView};
use std::collections::VecDeque;
use vstd::prelude::*;

verus! {

/// The listeners of the proxy, in the order in which they get their next
/// accept attempt.
pub struct Bindings<L> {
    bindings: VecDeque<L>,
}

/// How an accept attempt on one listener ended.
pub enum Attempt<C> {
    /// A connection has come in.
    Accepted(C),
    /// Accepting has failed.
    Failed(std::string::String),
    /// Nothing has come in yet.
    Pending,
}

/// What follows an accept attempt.
pub enum Polled<C> {
    /// This connection is handed out.
    Connection(C),
    /// Accepting has failed with this error.
    Failed(std::string::String),
    /// The next listener gets its attempt.
    Continue,
}

/// The listeners after `k` of them had their attempt without a result: the
/// first `k` stand behind the others.
pub open spec fn rotated<L>(listeners: Seq<L>, k: int) -> Seq<L> {
    listeners.subrange(k, listeners.len() as int) + listeners.subrange(0, k)
}

impl<L> Bindings<L> {
    /// The listeners, the one that gets the next attempt first.
    pub closed spec fn view(&self) -> Seq<L> {
        self.bindings@
    }

    /// No listeners.
    pub fn new() -> (bindings: Self)
        ensures
            bindings@ == Seq::<L>::empty(),
    {
        Bindings { bindings: VecDeque::new() }
    }

    /// Adds a listener behind the others.
    pub fn add(&mut self, listener: L)
        ensures
            final(self)@ == old(self)@.push(listener),
    {
        self.bindings.push_back(listener);
    }

    /// The number of listeners, which is the number of attempts of one
    /// cycle.
    pub fn len(&self) -> (n: usize)
        ensures
            n == self@.len(),
    {
        self.bindings.len()
    }

    /// Takes the listener that gets the next attempt.
    pub fn take_next(&mut self) -> (listener: Option<L>)
        ensures
            match listener {
                Some(l) => old(self)@.len() > 0 && l == old(self)@[0] && final(self)@ == old(
                    self,
                )@.subrange(1, old(self)@.len() as int),
                None => old(self)@.len() == 0 && final(self)@ == old(self)@,
            },
    {
        self.bindings.pop_front()
    }

    /// Settles the attempt of `listener`: after a connection or without a
    /// result the listener goes behind the others; a listener that failed
    /// is not kept.
    pub fn settle<C>(&mut self, listener: L, attempt: Attempt<C>) -> (polled: Polled<C>)
        ensures
            match attempt {
                Attempt::Accepted(c) => polled == Polled::Connection(c) && final(self)@ == old(
                    self,
                )@.push(listener),
                Attempt::Failed(e) => polled == Polled::<C>::Failed(e) && final(self)@ == old(
                    self,
                )@,
                Attempt::Pending => polled is Continue && final(self)@ == old(self)@.push(listener),
            },
    {
        match attempt {
            Attempt::Accepted(c) => {
                self.bindings.push_back(listener);
                Polled::Connection(c)
            },
            Attempt::Failed(e) => Polled::Failed(e),
            Attempt::Pending => {
                self.bindings.push_back(listener);
                Polled::Continue
            },
        }
    }
}

/// One attempt without a result moves the first listener behind the others.
pub proof fn law_attempt_rotates<L>(listeners: Seq<L>, k: int)
    requires
        0 <= k < listeners.len(),
    ensures
        rotated(listeners, k)[0] == listeners[k],
        rotated(listeners, k).subrange(1, listeners.len() as int).push(listeners[k]) == rotated(
            listeners,
            k + 1,
        ),
{
    assert(rotated(listeners, k).subrange(1, listeners.len() as int).push(listeners[k]) =~= rotated(
        listeners,
        k + 1,
    ));
}

/// In a cycle without a result every listener gets exactly one attempt, in
/// order, and afterwards the listeners stand as before: none is starved by
/// another.
pub proof fn law_cycle_is_fair<L>(listeners: Seq<L>)
    ensures
        rotated(listeners, 0) == listeners,
        rotated(listeners, listeners.len() as int) == listeners,
        forall|k: int| 0 <= k < listeners.len() ==> (#[trigger] rotated(listeners, k))[0]
            == listeners[k],
{
    assert(rotated(listeners, 0) =~= listeners);
    assert(rotated(listeners, listeners.len() as int) =~= listeners);
}

/// After a connection from the listener at place `k` of a cycle, the next
/// cycle begins with the listener behind it.
pub proof fn law_next_cycle_starts_behind<L>(listeners: Seq<L>, k: int)
    requires
        0 <= k < listeners.len(),
    ensures
        rotated(listeners, k + 1).len() == listeners.len(),
        k + 1 < listeners.len() ==> rotated(listeners, k + 1)[0] == listeners[k + 1],
        rotated(listeners, k + 1).last() == listeners[k],
{
}

/// The description of a connection that a listener has accepted.
pub fn accepted_info(local_addr: &str, remote_addr: &str, has_acceptor: bool) -> (info:
    ConnectionInfo)
    ensures
        info@ == (InfoView {
            local_addr: local_addr@,
            remote_addr: remote_addr@,
            is_https: has_acceptor,
        }),
{
    ConnectionInfo::new(local_addr, remote_addr, has_acceptor)
}

/// The states of an accepted connection.
#[derive(Clone, Copy, PartialEq, Eq, Structural, Debug)]
pub enum ConnectionState {
    /// A plain TCP connection.
    Tcp,
    /// A TLS connection whose handshake has succeeded.
    Tls,
    /// A TLS connection whose handshake has not ended yet.
    PendingTls,
    /// A connection whose handshake has failed: it stays unusable.
    Error,
}

/// How a TLS handshake ended.
#[derive(Clone, Copy, PartialEq, Eq, Structural, Debug)]
pub enum Handshake {
    Completed,
    Failed,
    TimedOut,
}

/// The operations on a connection.
#[derive(Clone, Copy, PartialEq, Eq, Structural, Debug)]
pub enum IoOp {
    Read,
    Write,
    Flush,
    Shutdown,
}

/// What an operation on a connection does.
#[derive(Clone, Copy, PartialEq, Eq, Structural, Debug)]
pub enum IoDecision {
    /// It is passed on to the stream of the connection.
    Delegate,
    /// It holds until the handshake has ended.
    AwaitHandshake,
    /// It fails with a broken pipe.
    BrokenPipe,
}

/// The state of a connection that has just been accepted.
pub open spec fn accepted_state(has_acceptor: bool) -> ConnectionState {
    if has_acceptor {
        ConnectionState::PendingTls
    } else {
        ConnectionState::Tcp
    }
}

/// The state of a connection after its handshake has ended: a pending
/// connection becomes a TLS connection or an unusable one; any other stays
/// what it is.
pub open spec fn after_handshake(state: ConnectionState, handshake: Handshake) -> ConnectionState {
    match state {
        ConnectionState::PendingTls => match handshake {
            Handshake::Completed => ConnectionState::Tls,
            _ => ConnectionState::Error,
        },
        _ => state,
    }
}

/// What an operation does on a connection in a given state.
pub open spec fn decision_of(state: ConnectionState, op: IoOp) -> IoDecision {
    match state {
        ConnectionState::Tcp | ConnectionState::Tls => IoDecision::Delegate,
        ConnectionState::PendingTls => IoDecision::AwaitHandshake,
        ConnectionState::Error => IoDecision::BrokenPipe,
    }
}

/// The state of a connection that has just been accepted: a listener with
/// a TLS acceptor hands out connections whose handshake is pending.
pub fn accept_state(has_acceptor: bool) -> (state: ConnectionState)
    ensures
        state == accepted_state(has_acceptor),
{
    if has_acceptor {
        ConnectionState::PendingTls
    } else {
        ConnectionState::Tcp
    }
}

/// The state of a connection after its handshake has ended.
pub fn settle_handshake(state: ConnectionState, handshake: Handshake) -> (next: ConnectionState)
    ensures
        next == after_handshake(state, handshake),
{
    match state {
        ConnectionState::PendingTls => match handshake {
            Handshake::Completed => ConnectionState::Tls,
            _ => ConnectionState::Error,
        },
        _ => state,
    }
}

/// What an operation does on a connection in a given state.
pub fn io_decision(state: ConnectionState, op: IoOp) -> (decision: IoDecision)
    ensures
        decision == decision_of(state, op),
{
    match state {
        ConnectionState::Tcp | ConnectionState::Tls => IoDecision::Delegate,
        ConnectionState::PendingTls => IoDecision::AwaitHandshake,
        ConnectionState::Error => IoDecision::BrokenPipe,
    }
}

/// A connection whose handshake has failed or timed out stays unusable:
/// whatever ends later, it remains in the error state, and every operation
/// on it fails.
pub proof fn law_failed_handshake_is_terminal(handshake: Handshake, later: Handshake, op: IoOp)
    requires
        handshake != Handshake::Completed,
    ensures
        after_handshake(ConnectionState::PendingTls, handshake) == ConnectionState::Error,
        after_handshake(after_handshake(ConnectionState::PendingTls, handshake), later)
            == ConnectionState::Error,
        decision_of(ConnectionState::Error, op) == IoDecision::BrokenPipe,
        decision_of(ConnectionState::Error, IoOp::Read) == IoDecision::BrokenPipe,
        decision_of(ConnectionState::Error, IoOp::Write) == IoDecision::BrokenPipe,
        decision_of(ConnectionState::Error, IoOp::Flush) == IoDecision::BrokenPipe,
        decision_of(ConnectionState::Error, IoOp::Shutdown) == IoDecision::BrokenPipe,
{
}

} // verus!
