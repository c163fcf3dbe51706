//! The presentable viewport: size, surface format choice, present mode.
//!
//! The surface itself lives with the embedding; this type carries the state
//! the orchestration logic reads, and the resize guard the surface
//! reconfiguration follows.

use vstd::prelude::*;

verus! {

/// How presentation waits on the display.
#[derive(Clone, Copy, Debug, PartialEq, Eq, Structural)]
pub enum PresentMode {
    AutoVsync,
    AutoNoVsync,
}

/// The state of the presentable surface that frame composition reads.
#[derive(Clone, Copy, Debug, PartialEq, Eq, Structural)]
pub struct Viewport {
    /// Pixel width of the surface.
    pub width: u32,
    /// Pixel height of the surface.
    pub height: u32,
    /// Whether the configured surface format is an sRGB format.
    pub srgb: bool,
    /// Present mode currently configured.
    pub present_mode: PresentMode,
}

impl Viewport {
    /// A freshly configured viewport presents without vsync.
    pub fn new(width: u32, height: u32, srgb: bool) -> (vp: Viewport)
        ensures
            vp == (Viewport { width, height, srgb, present_mode: PresentMode::AutoNoVsync }),
    {
        Viewport { width, height, srgb, present_mode: PresentMode::AutoNoVsync }
    }

    pub fn get_size(&self) -> (r: (u32, u32))
        ensures
            r == (self.width, self.height),
    {
        (self.width, self.height)
    }

    pub fn get_surface_srgb(&self) -> (r: bool)
        ensures
            r == self.srgb,
    {
        self.srgb
    }

    /// Apply a resize event. Zero-sized events are ignored; the result says
    /// whether the surface must be reconfigured at the new size.
    pub fn resize(&mut self, new_width: u32, new_height: u32) -> (reconfigure: bool)
        ensures
            reconfigure == (new_width > 0 && new_height > 0),
            reconfigure ==> *final(self) == (Viewport {
                width: new_width,
                height: new_height,
                ..*old(self)
            }),
            !reconfigure ==> *final(self) == *old(self),
    {
        if new_width > 0 && new_height > 0 {
            self.width = new_width;
            self.height = new_height;
            true
        } else {
            false
        }
    }

    /// Choose the present mode; takes effect at the next reconfiguration.
    pub fn set_vsync(&mut self, enable: bool)
        ensures
            *final(self) == (Viewport {
                present_mode: if enable { PresentMode::AutoVsync } else { PresentMode::AutoNoVsync },
                ..*old(self)
            }),
    {
        self.present_mode = if enable { PresentMode::AutoVsync } else { PresentMode::AutoNoVsync };
    }
}

/// Pick the surface format: the first sRGB-capable format offered, if any.
/// The caller falls back to a fixed non-sRGB format when none is offered.
/// `srgb_flags[i]` says whether the i-th offered format is sRGB.
pub fn choose_format_index(srgb_flags: &Vec<bool>) -> (r: Option<usize>)
    ensures
        match r {
            Some(i) => i < srgb_flags@.len() && srgb_flags@[i as int]
                && forall|j: int| 0 <= j < i ==> !srgb_flags@[j],
            None => forall|j: int| 0 <= j < srgb_flags@.len() ==> !srgb_flags@[j],
        },
{
    let mut i: usize = 0;
    while i < srgb_flags.len()
        invariant
            i <= srgb_flags@.len(),
            forall|j: int| 0 <= j < i ==> !srgb_flags@[j],
        decreases srgb_flags@.len() - i,
    {
        if srgb_flags[i] {
            return Some(i);
        }
        i = i + 1;
    }
    None
}

} // verus!
