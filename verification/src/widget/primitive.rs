//! What is sent to the GPU on a frame.
//!
//! The renderer keeps one texture for each canvas and remembers what it last
//! put there. Each frame it is shown what there is to draw and decides whether
//! the texture has to be made anew and whether the pixels have to be sent
//! whatever the surface says of itself.

use vstd::prelude::*;

verus! {

/// What a texture was last made and filled for.
#[derive(Debug, Clone, Copy, PartialEq, Eq, Structural)]
pub struct Watermark {
    /// The width of the surface in pixels.
    pub width: u32,
    /// The height of the surface in pixels.
    pub height: u32,
    /// The tag of the canvas that drew.
    pub generation: u64,
    /// Which surface it was: a number that no two live surfaces share.
    pub surface: usize,
}

/// What a frame asks of the GPU before the draw.
#[derive(Debug, Clone, Copy, PartialEq, Eq, Structural)]
pub struct Plan {
    /// Make the texture, and all that hangs on it, for the surface's size.
    pub create: bool,
    /// Send every pixel, whether or not the surface counts as modified.
    pub force_upload: bool,
}

impl Watermark {
    /// Whether a texture made for `self` fits a surface of the size of `frame`.
    pub open spec fn same_size(self, frame: Watermark) -> bool {
        self.width == frame.width && self.height == frame.height
    }
}

/// What `frame` asks for, given what the texture was last filled for.
pub open spec fn plan_for(cache: Option<Watermark>, frame: Watermark) -> Plan {
    Plan {
        create: match cache {
            Some(last) => !last.same_size(frame),
            None => true,
        },
        force_upload: cache != Some(frame),
    }
}

/// Decides what a frame asks of the GPU and takes note of what the texture
/// will hold after it.
///
/// `frame` is what there is to draw, or `None` where the surface is gone: then
/// nothing is asked for and the note stays as it was. Otherwise the texture is
/// made anew where there is none yet or where the surface has another size,
/// and every pixel is sent where the texture was made anew, where another
/// canvas drew last, or where another surface is shown. Where none of this
/// holds the pixels are sent only if the surface counts as modified, which is
/// for the surface to say.
pub fn prepare(cache: &mut Option<Watermark>, frame: Option<Watermark>) -> (plan: Option<Plan>)
    ensures
        match frame {
            Some(shown) => plan == Some(plan_for(*old(cache), shown)) && *final(cache) == Some(
                shown,
            ),
            None => plan is None && *final(cache) == *old(cache),
        },
{
    let shown = match frame {
        Some(shown) => shown,
        None => {
            return None;
        },
    };
    let mut create = false;
    let mut force_upload = false;
    let mut last = match *cache {
        Some(last) => last,
        None => {
            create = true;
            force_upload = true;
            shown
        },
    };
    if shown.width != last.width || shown.height != last.height {
        create = true;
        force_upload = true;
        last = shown;
    }
    if last.generation != shown.generation {
        force_upload = true;
        last.generation = shown.generation;
    }
    if last.surface != shown.surface {
        force_upload = true;
        last.surface = shown.surface;
    }
    *cache = Some(last);
    Some(Plan { create, force_upload })
}

/// After a frame has been prepared, the same frame asks for nothing more: the
/// texture is kept and the pixels are sent only if the surface was modified.
pub proof fn lemma_same_frame_asks_nothing(frame: Watermark)
    ensures
        plan_for(Some(frame), frame) == (Plan { create: false, force_upload: false }),
{
}

/// Every pixel is sent exactly when the size, the generation or the surface is
/// not what the texture was last filled for, or when there is no texture yet;
/// and a texture that is made anew is always filled.
pub proof fn lemma_force_on_any_change(cache: Option<Watermark>, frame: Watermark)
    ensures
        plan_for(cache, frame).force_upload <==> (match cache {
            Some(last) => !last.same_size(frame) || last.generation != frame.generation
                || last.surface != frame.surface,
            None => true,
        }),
        plan_for(cache, frame).create ==> plan_for(cache, frame).force_upload,
{
}

} // verus!
