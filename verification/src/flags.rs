//! The bit set that says what role a window plays and what chrome it has.

use vstd::prelude::*;

verus! {

/// The window has a title bar.
pub const SW_TITLEBAR: u32 = 0x0002;

/// The window is the main window of the application. Creating it sets the
/// application up, once per process.
pub const SW_MAIN: u32 = 0x0080;

/// No native surface is wanted: the host engine alone presents the content.
pub const SW_WINDOWLESS: u32 = 0x8000_0000;

/// Role and chrome of a window, as a set of bits.
///
/// This layer reads three of the bits. The others pass through to the native
/// side untouched.
#[derive(Clone, Copy, Debug, PartialEq, Eq, Structural)]
pub struct CreationFlags {
    pub bits: u32,
}

impl CreationFlags {
    pub open spec fn spec_is_main(&self) -> bool {
        self.bits & SW_MAIN != 0
    }

    pub open spec fn spec_has_titlebar(&self) -> bool {
        self.bits & SW_TITLEBAR != 0
    }

    pub open spec fn spec_is_windowless(&self) -> bool {
        self.bits & SW_WINDOWLESS != 0
    }

    /// The flags with exactly the given bits.
    pub fn new(bits: u32) -> (flags: CreationFlags)
        ensures
            flags.bits == bits,
    {
        CreationFlags { bits }
    }

    /// The flags of a window of which nothing has been said yet: no bit set.
    pub fn empty() -> (flags: CreationFlags)
        ensures
            flags.bits == 0,
            !flags.spec_is_main(),
            !flags.spec_has_titlebar(),
            !flags.spec_is_windowless(),
    {
        assert(0u32 & SW_MAIN == 0) by (bit_vector);
        assert(0u32 & SW_TITLEBAR == 0) by (bit_vector);
        assert(0u32 & SW_WINDOWLESS == 0) by (bit_vector);
        CreationFlags { bits: 0 }
    }

    pub fn bits(&self) -> (bits: u32)
        ensures
            bits == self.bits,
    {
        self.bits
    }

    /// Whether this is the main window of the application.
    #[verifier::when_used_as_spec(spec_is_main)]
    pub fn is_main(&self) -> (b: bool)
        ensures
            b == self.spec_is_main(),
    {
        self.bits & SW_MAIN != 0
    }

    /// Whether the window has a title bar.
    #[verifier::when_used_as_spec(spec_has_titlebar)]
    pub fn has_titlebar(&self) -> (b: bool)
        ensures
            b == self.spec_has_titlebar(),
    {
        self.bits & SW_TITLEBAR != 0
    }

    /// Whether the window does without a native surface.
    #[verifier::when_used_as_spec(spec_is_windowless)]
    pub fn is_windowless(&self) -> (b: bool)
        ensures
            b == self.spec_is_windowless(),
    {
        self.bits & SW_WINDOWLESS != 0
    }
}

} // verus!
