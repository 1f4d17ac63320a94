use vstd::prelude::*;

verus! {

/// A window size in physical pixels.
#[derive(Clone, Copy, Debug, PartialEq, Eq, Structural)]
pub struct Extent {
    pub width: u32,
    pub height: u32,
}

impl Extent {
    /// A size the surface can be configured with: both dimensions positive.
    pub open spec fn is_positive(self) -> bool {
        self.width > 0 && self.height > 0
    }
}

/// The policy that decides when a finished frame becomes visible.
#[derive(Clone, Copy, Debug, PartialEq, Eq, Structural)]
pub enum PresentMode {
    /// Presentation is locked to the display's refresh (vertical sync).
    Fifo,
    /// Frames are shown immediately, tearing allowed.
    Immediate,
    /// Triple-buffered presentation without tearing.
    Mailbox,
}

/// What the negotiation reads of a surface format offered by the backend:
/// an identifier for the concrete format, and whether it is sRGB-capable.
#[derive(Clone, Copy, Debug, PartialEq, Eq, Structural)]
pub struct SurfaceFormat {
    pub id: u32,
    pub srgb: bool,
}

/// The configuration applied to the window's surface: the negotiated
/// format, the dimensions in physical pixels, and the presentation policy.
#[derive(Clone, Copy, Debug, PartialEq, Eq, Structural)]
pub struct SurfaceConfig {
    pub format: SurfaceFormat,
    pub width: u32,
    pub height: u32,
    pub present_mode: PresentMode,
}

/// Whether some offered format is sRGB-capable.
pub open spec fn has_srgb(formats: Seq<SurfaceFormat>) -> bool {
    exists|i: int| 0 <= i < formats.len() && formats[i].srgb
}

/// Whether `i` is the index of the first sRGB-capable format on offer.
pub open spec fn is_first_srgb(formats: Seq<SurfaceFormat>, i: int) -> bool {
    &&& 0 <= i < formats.len()
    &&& formats[i].srgb
    &&& forall|j: int| 0 <= j < i ==> !formats[j].srgb
}

/// Picks the surface format: the first sRGB-capable format on offer, the
/// first offered format when none is sRGB-capable, and nothing when the
/// backend offers no format at all.
pub fn select_format(formats: &Vec<SurfaceFormat>) -> (chosen: Option<SurfaceFormat>)
    ensures
        chosen is Some <==> formats@.len() > 0,
        has_srgb(formats@) ==> (exists|i: int|
            is_first_srgb(formats@, i) && chosen == Some(formats@[i])),
        formats@.len() > 0 && !has_srgb(formats@) ==> chosen == Some(formats@[0]),
{
    let n: usize = formats.len();
    let mut k: usize = 0;
    while k < n
        invariant
            n == formats@.len(),
            k <= n,
            forall|j: int| 0 <= j < k ==> !formats@[j].srgb,
        decreases n - k,
    {
        if formats[k].srgb {
            proof {
                assert(is_first_srgb(formats@, k as int));
            }
            return Some(formats[k]);
        }
        k += 1;
    }
    if n > 0 {
        Some(formats[0])
    } else {
        None
    }
}

} // verus!
