//! RGBA colors, one byte per channel.

use vstd::prelude::*;

verus! {

/// A color as four channels: red, green, blue and alpha.
#[derive(Debug, Clone, Copy, Eq)]
pub struct Rgba(pub [u8; 4]);

impl PartialEq for Rgba {
    fn eq(&self, o: &Rgba) -> (r: bool)
        ensures
            r == (self@ == o@),
    {
        let r = self.0[0] == o.0[0] && self.0[1] == o.0[1] && self.0[2] == o.0[2] && self.0[3]
            == o.0[3];
        if r {
            assert(self@ =~= o@);
        }
        r
    }
}

impl vstd::std_specs::cmp::PartialEqSpecImpl for Rgba {
    open spec fn obeys_eq_spec() -> bool {
        true
    }

    open spec fn eq_spec(&self, o: &Rgba) -> bool {
        self@ == o@
    }
}

impl View for Rgba {
    type V = Seq<u8>;

    open spec fn view(&self) -> Seq<u8> {
        self.0@
    }
}

impl Rgba {
    /// Builds a color from its four channels.
    pub fn new(r: u8, g: u8, b: u8, a: u8) -> (c: Self)
        ensures
            c@ == seq![r, g, b, a],
    {
        let c = Rgba([r, g, b, a]);
        assert(c@ =~= seq![r, g, b, a]);
        c
    }

    /// Builds a fully opaque color from its red, green and blue channels.
    pub fn from_rgb(r: u8, g: u8, b: u8) -> (c: Self)
        ensures
            c@ == seq![r, g, b, 0xFFu8],
    {
        Self::new(r, g, b, 0xFF)
    }

    /// Opaque black.
    pub fn black() -> (c: Self)
        ensures
            c@ == seq![0u8, 0u8, 0u8, 0xFFu8],
    {
        Self::from_rgb(0x0, 0x0, 0x0)
    }

    /// Opaque white.
    pub fn white() -> (c: Self)
        ensures
            c@ == seq![0xFFu8, 0xFFu8, 0xFFu8, 0xFFu8],
    {
        Self::from_rgb(0xFF, 0xFF, 0xFF)
    }

    /// The four channels, in order.
    pub fn as_slice(&self) -> (s: &[u8])
        ensures
            s@ == self@,
    {
        self.0.as_slice()
    }

    /// The four channels, in order.
    pub fn to_array(self) -> (a: [u8; 4])
        ensures
            a@ == self@,
    {
        self.0
    }
}

} // verus!
