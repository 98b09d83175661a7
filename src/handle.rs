//! Addresses handed out by the native library, given back at most once.
use vstd::prelude::*;

verus! {

/// An address of a native resource, with whether it is still held.
#[derive(Debug)]
pub struct NativeHandle {
    addr: usize,
    live: bool,
}

/// `after` is `before` once released, and `r` is what the release handed back.
pub open spec fn released(before: NativeHandle, after: NativeHandle, r: Option<usize>) -> bool {
    &&& r == (if before.spec_live() { Some(before.spec_addr()) } else { None::<usize> })
    &&& after.spec_addr() == before.spec_addr()
    &&& !after.spec_live()
}

impl NativeHandle {
    pub closed spec fn spec_addr(&self) -> usize {
        self.addr
    }

    pub closed spec fn spec_live(&self) -> bool {
        self.live
    }

    /// A handle that holds `addr`.
    pub fn new(addr: usize) -> (r: NativeHandle)
        ensures
            r.spec_addr() == addr,
            r.spec_live(),
    {
        NativeHandle { addr, live: true }
    }

    /// The address, whether or not it is still held.
    pub fn addr(&self) -> (r: usize)
        ensures
            r == self.spec_addr(),
    {
        self.addr
    }

    /// Whether the resource has not been released yet.
    pub fn is_live(&self) -> (r: bool)
        ensures
            r == self.spec_live(),
    {
        self.live
    }

    /// Gives the address up for release: `Some` the first time, `None` ever after.
    pub fn release(&mut self) -> (r: Option<usize>)
        ensures
            released(*old(self), *final(self), r),
    {
        if self.live {
            self.live = false;
            Some(self.addr)
        } else {
            None
        }
    }
}

/// A held resource is handed out for release exactly once: the first release gives its
/// address, every later one gives nothing.
pub proof fn lemma_released_once(
    h0: NativeHandle,
    h1: NativeHandle,
    h2: NativeHandle,
    r1: Option<usize>,
    r2: Option<usize>,
)
    requires
        h0.spec_live(),
        released(h0, h1, r1),
        released(h1, h2, r2),
    ensures
        r1 == Some(h0.spec_addr()),
        r2.is_none(),
        released(h2, h2, None),
{
}

} // verus!
