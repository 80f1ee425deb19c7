//! Opaque identifiers of native windows.

use vstd::prelude::*;

verus! {

/// Identifies a native window or surface.
///
/// The window belongs to the operating system or to the host engine. A handle
/// only addresses it and is never responsible for destroying it. The null
/// handle addresses nothing.
#[derive(Clone, Copy, Debug, PartialEq, Eq, Structural)]
pub struct NativeHandle {
    pub addr: usize,
}

impl NativeHandle {
    /// Whether this handle addresses no window.
    pub open spec fn spec_is_null(&self) -> bool {
        self.addr == 0
    }

    /// The handle that addresses nothing.
    pub fn null() -> (h: NativeHandle)
        ensures
            h.spec_is_null(),
            h.addr == 0,
    {
        NativeHandle { addr: 0 }
    }

    /// The handle with the given native address.
    pub fn from_addr(addr: usize) -> (h: NativeHandle)
        ensures
            h.addr == addr,
    {
        NativeHandle { addr }
    }

    /// The native address of the window; zero for the null handle.
    pub fn addr(&self) -> (a: usize)
        ensures
            a == self.addr,
    {
        self.addr
    }

    #[verifier::when_used_as_spec(spec_is_null)]
    pub fn is_null(&self) -> (b: bool)
        ensures
            b == self.spec_is_null(),
    {
        self.addr == 0
    }
}

} // verus!
