//! Session wrappers: a negotiated stream paired with the address the
//! proxy reported. The wrappers hold no further state; byte traffic on
//! the inner stream is the caller's, untouched.

use vstd::prelude::*;

use crate::addr::TargetAddr;

verus! {

/// A stream wrapper that adapts a foreign transport to the engine's
/// calling conventions. It adds nothing: the inner value is carried
/// through unchanged.
pub struct Compat<S> {
    inner: S,
}

impl<S> Compat<S> {
    /// The wrapped value.
    pub closed spec fn spec_inner(self) -> S {
        self.inner
    }

    /// Wraps a stream.
    pub fn new(inner: S) -> (r: Compat<S>)
        ensures
            r.spec_inner() == inner,
    {
        Compat { inner }
    }

    /// Unwraps, returning the inner value.
    pub fn into_inner(self) -> (r: S)
        ensures
            r == self.spec_inner(),
    {
        self.inner
    }

    /// A shared borrow of the inner value.
    pub fn get_ref(&self) -> (r: &S)
        ensures
            *r == self.spec_inner(),
    {
        &self.inner
    }

    /// An exclusive borrow of the inner value.
    pub fn get_mut(&mut self) -> (r: &mut S)
        ensures
            *r == old(self).spec_inner(),
            final(self).spec_inner() == *final(r),
    {
        &mut self.inner
    }
}

/// A SOCKS5 client stream: the transport after a completed handshake,
/// with the target address the proxy reported.
pub struct Socks5Stream<S> {
    socket: S,
    target: TargetAddr,
}

impl<S> Socks5Stream<S> {
    /// The inner transport.
    pub closed spec fn spec_socket(self) -> S {
        self.socket
    }

    /// The reported target.
    pub closed spec fn spec_target(self) -> TargetAddr {
        self.target
    }

    /// Pairs a stream with the address reported in the reply.
    pub fn new(socket: S, target: TargetAddr) -> (r: Socks5Stream<S>)
        ensures
            r.spec_socket() == socket,
            r.spec_target() == target,
    {
        Socks5Stream { socket, target }
    }

    /// Consumes the wrapper, returning the inner stream.
    pub fn into_inner(self) -> (r: S)
        ensures
            r == self.spec_socket(),
    {
        self.socket
    }

    /// The target address that the proxy reported for this session.
    pub fn target_addr(&self) -> (r: &TargetAddr)
        ensures
            *r == self.spec_target(),
    {
        &self.target
    }

    /// A shared borrow of the inner stream.
    pub fn get_ref(&self) -> (r: &S)
        ensures
            *r == self.spec_socket(),
    {
        &self.socket
    }

    /// An exclusive borrow of the inner stream, for the caller's reads
    /// and writes; the stored target is untouched.
    pub fn get_mut(&mut self) -> (r: &mut S)
        ensures
            *r == old(self).spec_socket(),
            final(self).spec_socket() == *final(r),
            final(self).spec_target() == old(self).spec_target(),
    {
        &mut self.socket
    }
}

/// A half-open SOCKS5 BIND listener: the first reply has announced the
/// rendezvous address; the second reply, read through the engine again,
/// turns it into a stream.
pub struct Socks5Listener<S> {
    inner: Socks5Stream<S>,
}

impl<S> Socks5Listener<S> {
    /// The wrapped session.
    pub closed spec fn spec_inner(self) -> Socks5Stream<S> {
        self.inner
    }

    /// Wraps the session produced by a BIND handshake.
    pub fn new(inner: Socks5Stream<S>) -> (r: Socks5Listener<S>)
        ensures
            r.spec_inner() == inner,
    {
        Socks5Listener { inner }
    }

    /// The proxy-side rendezvous address, to be forwarded to the peer
    /// that should connect to it.
    pub fn bind_addr(&self) -> (r: &TargetAddr)
        ensures
            *r == self.spec_inner().spec_target(),
    {
        self.inner.target_addr()
    }

    /// Consumes the listener, returning the underlying session so that
    /// the caller can read the second reply.
    pub fn into_inner(self) -> (r: Socks5Stream<S>)
        ensures
            r == self.spec_inner(),
    {
        self.inner
    }
}

/// A SOCKS4 client stream, the SOCKS4 counterpart of [`Socks5Stream`].
pub struct Socks4Stream<S> {
    socket: S,
    target: TargetAddr,
}

impl<S> Socks4Stream<S> {
    /// The inner transport.
    pub closed spec fn spec_socket(self) -> S {
        self.socket
    }

    /// The reported target.
    pub closed spec fn spec_target(self) -> TargetAddr {
        self.target
    }

    /// Pairs a stream with the address reported in the reply.
    pub fn new(socket: S, target: TargetAddr) -> (r: Socks4Stream<S>)
        ensures
            r.spec_socket() == socket,
            r.spec_target() == target,
    {
        Socks4Stream { socket, target }
    }

    /// Consumes the wrapper, returning the inner stream.
    pub fn into_inner(self) -> (r: S)
        ensures
            r == self.spec_socket(),
    {
        self.socket
    }

    /// The target address that the proxy reported for this session.
    pub fn target_addr(&self) -> (r: &TargetAddr)
        ensures
            *r == self.spec_target(),
    {
        &self.target
    }

    /// An exclusive borrow of the inner stream.
    pub fn get_mut(&mut self) -> (r: &mut S)
        ensures
            *r == old(self).spec_socket(),
            final(self).spec_socket() == *final(r),
            final(self).spec_target() == old(self).spec_target(),
    {
        &mut self.socket
    }
}

/// A half-open SOCKS4 BIND listener.
pub struct Socks4Listener<S> {
    inner: Socks4Stream<S>,
}

impl<S> Socks4Listener<S> {
    /// The wrapped session.
    pub closed spec fn spec_inner(self) -> Socks4Stream<S> {
        self.inner
    }

    /// Wraps the session produced by a BIND handshake.
    pub fn new(inner: Socks4Stream<S>) -> (r: Socks4Listener<S>)
        ensures
            r.spec_inner() == inner,
    {
        Socks4Listener { inner }
    }

    /// The proxy-side rendezvous address.
    pub fn bind_addr(&self) -> (r: &TargetAddr)
        ensures
            *r == self.spec_inner().spec_target(),
    {
        self.inner.target_addr()
    }

    /// Consumes the listener, returning the underlying session.
    pub fn into_inner(self) -> (r: Socks4Stream<S>)
        ensures
            r == self.spec_inner(),
    {
        self.inner
    }
}

} // verus!
