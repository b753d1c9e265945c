//! The colour cycle from which every new series takes its default colour.
use egui::Color32;
use vstd::prelude::*;

verus! {

/// `egui::Color32`, a 32-bit colour. Its bytes are hidden from the verifier: colours are
/// stored and handed on, never inspected.
#[verifier::external_type_specification]
#[verifier::external_body]
pub struct ExColor32(egui::Color32);

/// The colour that `egui::Color32::from_rgba_premultiplied` builds from four channel bytes.
pub uninterp spec fn color_rgba(r: u8, g: u8, b: u8, a: u8) -> Color32;

/// Calls `egui::Color32::from_rgba_premultiplied`, which stores the four bytes as given.
/// The contract only gives the result its name.
#[verifier::external_body]
pub(crate) fn color_from_rgba(r: u8, g: u8, b: u8, a: u8) -> (c: Color32)
    ensures
        c == color_rgba(r, g, b, a),
{
    Color32::from_rgba_premultiplied(r, g, b, a)
}

/// Number of colours in the cycle.
pub const PALETTE_LEN: usize = 10;

/// Red, green and blue of the palette entry in `slot`.
pub open spec fn palette_rgb(slot: int) -> (u8, u8, u8) {
    if slot == 0 {
        (31u8, 119u8, 180u8)
    } else if slot == 1 {
        (255u8, 127u8, 14u8)
    } else if slot == 2 {
        (44u8, 160u8, 44u8)
    } else if slot == 3 {
        (214u8, 39u8, 40u8)
    } else if slot == 4 {
        (148u8, 103u8, 189u8)
    } else if slot == 5 {
        (140u8, 86u8, 75u8)
    } else if slot == 6 {
        (227u8, 119u8, 194u8)
    } else if slot == 7 {
        (127u8, 127u8, 127u8)
    } else if slot == 8 {
        (188u8, 189u8, 34u8)
    } else {
        (23u8, 190u8, 207u8)
    }
}

/// The colour assigned to the `index`-th request: the palette entry at `index` modulo
/// the palette length, fully opaque.
pub open spec fn palette_color(index: nat) -> Color32 {
    let rgb = palette_rgb((index % (PALETTE_LEN as nat)) as int);
    color_rgba(rgb.0, rgb.1, rgb.2, 255u8)
}

/// Channels of the palette entry in `slot`.
fn palette_entry(slot: usize) -> (rgb: (u8, u8, u8))
    requires
        slot < PALETTE_LEN,
    ensures
        rgb == palette_rgb(slot as int),
{
    if slot == 0 {
        (31, 119, 180)
    } else if slot == 1 {
        (255, 127, 14)
    } else if slot == 2 {
        (44, 160, 44)
    } else if slot == 3 {
        (214, 39, 40)
    } else if slot == 4 {
        (148, 103, 189)
    } else if slot == 5 {
        (140, 86, 75)
    } else if slot == 6 {
        (227, 119, 194)
    } else if slot == 7 {
        (127, 127, 127)
    } else if slot == 8 {
        (188, 189, 34)
    } else {
        (23, 190, 207)
    }
}

/// The colour for the `index`-th request. Requests are counted from one; the function is
/// nevertheless defined for every index.
pub fn get_color(index: usize) -> (c: Color32)
    ensures
        c == palette_color(index as nat),
{
    let rgb = palette_entry(index % PALETTE_LEN);
    color_from_rgba(rgb.0, rgb.1, rgb.2, 255)
}

/// Hands out the colours of the cycle one after another.
///
/// Only the position within the cycle is stored, so the count of colours handed out can
/// grow without bound; the count itself exists for the verifier alone.
pub struct ColorAllocator {
    slot: usize,
    issued: Ghost<nat>,
}

impl View for ColorAllocator {
    type V = nat;

    /// How many colours have been handed out.
    closed spec fn view(&self) -> nat {
        self.issued@
    }
}

impl ColorAllocator {
    #[verifier::type_invariant]
    spec fn in_step(self) -> bool {
        self.slot == self.issued@ % (PALETTE_LEN as nat)
    }

    /// An allocator that has handed out nothing yet.
    pub fn new() -> (a: ColorAllocator)
        ensures
            a@ == 0,
    {
        ColorAllocator { slot: 0, issued: Ghost(0) }
    }

    /// Hands out the next colour: the `k`-th call returns `palette_color(k)`, counting
    /// from one.
    pub fn next_color(&mut self) -> (c: Color32)
        ensures
            final(self)@ == old(self)@ + 1,
            c == palette_color(old(self)@ + 1),
    {
        proof {
            use_type_invariant(&*self);
        }
        let slot = (self.slot + 1) % PALETTE_LEN;
        let ghost issued = self.issued@ + 1;
        *self = ColorAllocator { slot, issued: Ghost(issued) };
        get_color(slot)
    }
}

/// The colour cycle has at least eight entries and repeats with period `PALETTE_LEN`.
pub proof fn lemma_palette_periodic(index: nat)
    ensures
        PALETTE_LEN >= 8,
        palette_color(index + PALETTE_LEN as nat) == palette_color(index),
{
}

/// Indices that agree modulo `PALETTE_LEN` get the same colour.
pub proof fn lemma_palette_congruent(i: nat, j: nat)
    requires
        i % (PALETTE_LEN as nat) == j % (PALETTE_LEN as nat),
    ensures
        palette_color(i) == palette_color(j),
{
}

} // verus!
