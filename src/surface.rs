//! Choosing the presentation surface's configuration from what the surface offers.
use vstd::prelude::*;
use crate::frame::Size;

verus! {

/// Frame-pacing policies a presentation surface can offer.
#[derive(Clone, Copy, Debug, PartialEq, Eq, Structural)]
pub enum PresentMode {
    AutoVsync,
    AutoNoVsync,
    Fifo,
    FifoRelaxed,
    Immediate,
    Mailbox,
}

/// The vsync-locked mode asked for first.
pub const PREFERRED_PRESENT_MODE: PresentMode = PresentMode::Fifo;

/// The mode every platform supports, used when the preferred one is not offered.
pub const DEFAULT_PRESENT_MODE: PresentMode = PresentMode::Fifo;

/// Frames that may be queued ahead of presentation: double buffering.
pub const MAX_FRAME_LATENCY: u32 = 2;

/// Why the surface cannot be configured.
#[derive(Clone, Copy, Debug, PartialEq, Eq, Structural)]
pub enum SurfaceConfigError {
    /// The surface offers no sRGB pixel format.
    NoSrgbFormat,
}

/// The configuration of the presentation surface.
#[derive(Clone, Copy, Debug, PartialEq, Eq, Structural)]
pub struct SurfaceConfig {
    pub size: Size,
    /// Index of the pixel format among those the surface offers.
    pub format_index: usize,
    pub present_mode: PresentMode,
    pub max_frame_latency: u32,
}

/// `i` is the first position of `true` in `flags`.
pub open spec fn is_first_true(flags: Seq<bool>, i: int) -> bool {
    &&& 0 <= i < flags.len()
    &&& flags[i]
    &&& forall|j: int| 0 <= j < i ==> !flags[j]
}

/// The position of the first offered format that is sRGB, given for each
/// offered format whether it is sRGB.
pub fn first_srgb_format(srgb: &Vec<bool>) -> (r: Option<usize>)
    ensures
        r is None <==> forall|j: int| 0 <= j < srgb@.len() ==> !srgb@[j],
        r is Some ==> is_first_true(srgb@, r->Some_0 as int),
{
    let mut i: usize = 0;
    while i < srgb.len()
        invariant
            i <= srgb@.len(),
            forall|j: int| 0 <= j < i ==> !srgb@[j],
        decreases srgb@.len() - i,
    {
        if srgb[i] {
            return Some(i);
        }
        i = i + 1;
    }
    None
}

/// `preferred` where the surface offers it, else `fallback`.
pub fn select_present_mode(offered: &Vec<PresentMode>, preferred: PresentMode, fallback: PresentMode) -> (r: PresentMode)
    ensures
        r == if offered@.contains(preferred) { preferred } else { fallback },
{
    let mut i: usize = 0;
    while i < offered.len()
        invariant
            i <= offered@.len(),
            forall|j: int| 0 <= j < i ==> offered@[j] != preferred,
        decreases offered@.len() - i,
    {
        if offered[i] == preferred {
            assert(offered@.contains(preferred)) by {
                assert(offered@[i as int] == preferred);
            }
            return preferred;
        }
        i = i + 1;
    }
    fallback
}

/// The configuration for a surface of `size`: the first sRGB format offered, the
/// preferred present mode where offered, double-buffered latency. Fails when no
/// sRGB format is offered.
pub fn surface_config(size: Size, srgb: &Vec<bool>, modes: &Vec<PresentMode>) -> (r: Result<SurfaceConfig, SurfaceConfigError>)
    ensures
        r is Err <==> forall|j: int| 0 <= j < srgb@.len() ==> !srgb@[j],
        r is Err ==> r->Err_0 == SurfaceConfigError::NoSrgbFormat,
        r is Ok ==> {
            &&& r->Ok_0.size == size
            &&& is_first_true(srgb@, r->Ok_0.format_index as int)
            &&& r->Ok_0.present_mode == if modes@.contains(PREFERRED_PRESENT_MODE) {
                PREFERRED_PRESENT_MODE
            } else {
                DEFAULT_PRESENT_MODE
            }
            &&& r->Ok_0.max_frame_latency == MAX_FRAME_LATENCY
        },
{
    match first_srgb_format(srgb) {
        None => Err(SurfaceConfigError::NoSrgbFormat),
        Some(format_index) => Ok(SurfaceConfig {
            size,
            format_index,
            present_mode: select_present_mode(modes, PREFERRED_PRESENT_MODE, DEFAULT_PRESENT_MODE),
            max_frame_latency: MAX_FRAME_LATENCY,
        }),
    }
}

} // verus!
