//! The session that every device operation runs in, shared by counted
//! references.

use crate::error::{from_libgphoto2, Error, GP_ERROR_NO_MEMORY};
use crate::native::NativeCall;
use vstd::prelude::*;

verus! {

/// A session: the native handle and the number of counted references that
/// are held on it through this library.
#[derive(Debug)]
pub struct Context {
    context: usize,
    holders: usize,
}

/// The mathematical value of a session.
pub struct ContextView {
    pub handle: usize,
    pub holders: nat,
}

impl ContextView {
    /// Whether the native object still exists: some holder has not released.
    pub open spec fn is_live(self) -> bool {
        self.holders > 0
    }

    /// The session after one more holder took a reference.
    pub open spec fn share(self) -> ContextView {
        ContextView { handle: self.handle, holders: self.holders + 1 }
    }

    /// The session after one holder released; releasing a session without
    /// holders changes nothing.
    pub open spec fn release(self) -> ContextView {
        if self.holders > 0 {
            ContextView { handle: self.handle, holders: (self.holders - 1) as nat }
        } else {
            self
        }
    }

    /// The native call that one release orders: an unref while a reference
    /// is held, nothing afterwards.
    pub open spec fn release_call(self) -> Option<NativeCall> {
        if self.holders > 0 {
            Some(NativeCall::ContextUnref { context: self.handle })
        } else {
            None
        }
    }

    /// The session after `n` releases in a row.
    pub open spec fn release_n(self, n: nat) -> ContextView
        decreases n,
    {
        if n == 0 {
            self
        } else {
            self.release().release_n((n - 1) as nat)
        }
    }
}

impl View for Context {
    type V = ContextView;

    closed spec fn view(&self) -> ContextView {
        ContextView { handle: self.context, holders: self.holders as nat }
    }
}

impl Context {
    /// Creates a session from what the native allocator returned: a null
    /// handle means that it had no memory left. The creator is the first
    /// holder.
    pub fn new(ptr: usize) -> (r: Result<Context, Error>)
        ensures
            ptr != 0 ==> (r matches Ok(c) && c@ == (ContextView { handle: ptr, holders: 1 })),
            ptr == 0 ==> (r matches Err(e) && e.err == GP_ERROR_NO_MEMORY),
    {
        if ptr != 0 {
            Ok(Context { context: ptr, holders: 1 })
        } else {
            Err(from_libgphoto2(GP_ERROR_NO_MEMORY))
        }
    }

    /// The native handle.
    pub fn handle(&self) -> (h: usize)
        ensures
            h == self@.handle,
    {
        self.context
    }

    /// The number of references held.
    pub fn holders(&self) -> (n: usize)
        ensures
            n == self@.holders,
    {
        self.holders
    }

    /// Whether the native object still exists.
    pub fn is_live(&self) -> (live: bool)
        ensures
            live == self@.is_live(),
    {
        self.holders > 0
    }

    /// Takes one more reference for a new holder. A released session cannot
    /// be shared, and the count cannot pass `usize::MAX`: then nothing
    /// changes and no native call is ordered.
    pub fn share(&mut self) -> (call: Option<NativeCall>)
        ensures
            old(self)@.is_live() && old(self)@.holders < usize::MAX ==> final(self)@ == old(self)@.share() && call == Some(NativeCall::ContextRef { context: old(self)@.handle }),
            !(old(self)@.is_live() && old(self)@.holders < usize::MAX) ==> final(self)@ == old(self)@ && call.is_none(),
    {
        if self.holders > 0 && self.holders < usize::MAX {
            self.holders = self.holders + 1;
            Some(NativeCall::ContextRef { context: self.context })
        } else {
            None
        }
    }

    /// Gives one reference back. While a reference is held this orders one
    /// native unref; the native object is gone once the last holder has
    /// released. Releasing again after that orders nothing.
    pub fn release(&mut self) -> (call: Option<NativeCall>)
        ensures
            final(self)@ == old(self)@.release(),
            call == old(self)@.release_call(),
    {
        if self.holders > 0 {
            self.holders = self.holders - 1;
            Some(NativeCall::ContextUnref { context: self.context })
        } else {
            None
        }
    }
}

/// A session with `n` holders survives every release but the last: after
/// `k <= n` releases `n - k` references are left, each of those releases
/// ordered exactly one native unref, and the native object is gone after the
/// `n`th release and not before.
pub proof fn release_frees_after_last_holder(c: ContextView, n: nat, k: nat)
    requires
        c.holders == n,
        k <= n,
    ensures
        c.release_n(k).handle == c.handle,
        c.release_n(k).holders == n - k,
        k < n ==> c.release_n(k).is_live(),
        k < n ==> c.release_n(k).release_call() == Some(
            NativeCall::ContextUnref { context: c.handle },
        ),
        k == n ==> !c.release_n(k).is_live() && c.release_n(k).release_call().is_none(),
    decreases k,
{
    if k > 0 {
        release_frees_after_last_holder(c.release(), (n - 1) as nat, (k - 1) as nat);
    }
}

} // verus!
