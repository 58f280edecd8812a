//! Choices about the render surface that rest on its texture format, and the
//! handling of the outcome of acquiring the next frame.
use vstd::prelude::*;

verus! {

/// The texture formats of the GPU crate.
#[verifier::external_type_specification]
#[verifier::external_body]
pub struct ExTextureFormat(wgpu::TextureFormat);

/// Whether a format stores colors in the sRGB encoding, as the GPU crate's
/// `TextureFormat::is_srgb` answers.
pub uninterp spec fn format_is_srgb(format: wgpu::TextureFormat) -> bool;

/// The alignment, in bytes, of one component of a format when it is a render
/// target, or `None` when it cannot be one, as the GPU crate's
/// `TextureFormat::target_component_alignment` answers.
pub uninterp spec fn format_component_alignment(format: wgpu::TextureFormat) -> Option<u32>;

/// `wgpu::TextureFormat::is_srgb`. The crate answers from a fixed table of its
/// variants; the contract says only that the answer is a function of the
/// format.
#[verifier::external_body]
fn texture_format_is_srgb(format: &wgpu::TextureFormat) -> (r: bool)
    ensures
        r == format_is_srgb(*format),
{
    format.is_srgb()
}

/// `wgpu::TextureFormat::target_component_alignment`. The crate answers from a
/// fixed table of its variants; the contract says only that the answer is a
/// function of the format.
#[verifier::external_body]
fn texture_format_component_alignment(format: &wgpu::TextureFormat) -> (r: Option<u32>)
    ensures
        r == format_component_alignment(*format),
{
    format.target_component_alignment()
}

/// What the choice of a surface format looks at in a format.
#[derive(Copy, Clone, Debug, PartialEq, Eq, Hash, Structural)]
pub struct FormatTraits {
    /// The format stores colors in the sRGB encoding.
    pub srgb: bool,
    /// The alignment of one component when rendering to the format.
    pub component_alignment: Option<u32>,
}

/// A format is preferred when it stores linear colors, so that colors look the
/// same wherever the surface is shown, and has byte-aligned components.
pub open spec fn is_preferred(traits: FormatTraits) -> bool {
    !traits.srgb && traits.component_alignment == Some(1u32)
}

/// The index of the surface format to use among the supported ones: the first
/// preferred format, or the first format when none is preferred.
pub fn preferred_format_index(formats: &Vec<FormatTraits>) -> (index: usize)
    requires
        formats@.len() > 0,
    ensures
        index < formats@.len(),
        (exists|j: int| 0 <= j < formats@.len() && is_preferred(#[trigger] formats@[j])) ==> {
            &&& is_preferred(formats@[index as int])
            &&& forall|j: int| 0 <= j < index ==> !is_preferred(#[trigger] formats@[j])
        },
        !(exists|j: int| 0 <= j < formats@.len() && is_preferred(#[trigger] formats@[j])) ==> index
            == 0,
{
    let mut i: usize = 0;
    while i < formats.len()
        invariant
            0 <= i <= formats@.len(),
            forall|j: int| 0 <= j < i ==> !is_preferred(#[trigger] formats@[j]),
        decreases formats@.len() - i,
    {
        let traits = formats[i];
        if !traits.srgb && traits.component_alignment == Some(1u32) {
            return i;
        }
        i = i + 1;
    }
    0
}

/// What the choice of a surface format looks at in `format`.
pub open spec fn format_traits(format: wgpu::TextureFormat) -> FormatTraits {
    FormatTraits {
        srgb: format_is_srgb(format),
        component_alignment: format_component_alignment(format),
    }
}

/// `format` stores linear colors and has byte-aligned components.
pub open spec fn is_preferred_format(format: wgpu::TextureFormat) -> bool {
    is_preferred(format_traits(format))
}

/// The surface format to use among the supported ones: the first whose colors
/// are linear and whose components are byte-aligned, or else the first one.
pub fn select_surface_format(formats: &Vec<wgpu::TextureFormat>) -> (format: wgpu::TextureFormat)
    requires
        formats@.len() > 0,
    ensures
        (exists|j: int| 0 <= j < formats@.len() && is_preferred_format(#[trigger] formats@[j]))
            ==> exists|i: int|
            0 <= i < formats@.len() && format == formats@[i] && is_preferred_format(formats@[i])
                && forall|j: int| 0 <= j < i ==> !is_preferred_format(#[trigger] formats@[j]),
        !(exists|j: int| 0 <= j < formats@.len() && is_preferred_format(#[trigger] formats@[j]))
            ==> format == formats@[0],
{
    let mut traits: Vec<FormatTraits> = Vec::new();
    let mut i: usize = 0;
    while i < formats.len()
        invariant
            0 <= i <= formats@.len(),
            traits@.len() == i,
            forall|j: int| 0 <= j < i ==> #[trigger] traits@[j] == format_traits(formats@[j]),
        decreases formats@.len() - i,
    {
        let f = &formats[i];
        traits.push(
            FormatTraits {
                srgb: texture_format_is_srgb(f),
                component_alignment: texture_format_component_alignment(f),
            },
        );
        i = i + 1;
    }
    let index = preferred_format_index(&traits);
    proof {
        if exists|j: int| 0 <= j < formats@.len() && is_preferred_format(#[trigger] formats@[j]) {
            let j = choose|j: int| 0 <= j < formats@.len() && is_preferred_format(#[trigger] formats@[j]);
            assert(is_preferred(traits@[j]));
            assert forall|k: int| 0 <= k < index implies !is_preferred_format(
                #[trigger] formats@[k],
            ) by {
                assert(!is_preferred(traits@[k]));
            }
            assert(is_preferred_format(formats@[index as int]));
        } else {
            assert(forall|j: int| 0 <= j < traits@.len() ==> !is_preferred(#[trigger] traits@[j]));
        }
    }
    formats[index]
}

/// Traits are preferred exactly when the colors are linear and each component
/// is aligned to a single byte: an sRGB format, a format whose components need
/// a wider alignment, and one that cannot be a render target are never
/// preferred.
pub proof fn lemma_preferred_traits(t: FormatTraits)
    ensures
        is_preferred(t) <==> !t.srgb && t.component_alignment == Some(1u32),
        t.srgb ==> !is_preferred(t),
        t.component_alignment != Some(1u32) ==> !is_preferred(t),
{
}

/// A surface format is preferred exactly when the GPU crate says that it is
/// not sRGB and that its components are aligned to a single byte.
pub proof fn lemma_preferred_format(format: wgpu::TextureFormat)
    ensures
        is_preferred_format(format) <==> !format_is_srgb(format) && format_component_alignment(
            format,
        ) == Some(1u32),
{
}

/// The outcome of asking the surface for the texture of the next frame.
#[derive(Copy, Clone, Debug, PartialEq, Eq, Hash, Structural)]
pub enum AcquireOutcome {
    /// A texture was acquired.
    Success,
    /// A texture was acquired, but the surface should be configured again.
    Suboptimal,
    /// Acquiring timed out.
    Timeout,
    /// The window is hidden.
    Occluded,
    /// The surface configuration no longer fits the surface.
    Outdated,
    /// The surface was lost.
    Lost,
    /// A validation error was raised.
    Validation,
}

/// What to do after an attempt to acquire the texture of the next frame.
#[derive(Copy, Clone, Debug, PartialEq, Eq, Hash, Structural)]
pub enum AcquireStep {
    /// Render into the acquired texture.
    Use,
    /// Configure the surface again and make one more attempt.
    Reconfigure,
    /// Skip this frame.
    Skip,
}

/// What to do after an attempt to acquire the next frame's texture: use any
/// acquired texture; after an outdated or lost surface, configure the
/// surface again and retry once; give up on the frame otherwise. A retry is
/// never followed by another one, so a frame costs at most two attempts.
pub fn acquire_step(outcome: AcquireOutcome, retried: bool) -> (step: AcquireStep)
    ensures
        (outcome == AcquireOutcome::Success || outcome == AcquireOutcome::Suboptimal) ==> step
            == AcquireStep::Use,
        (outcome == AcquireOutcome::Outdated || outcome == AcquireOutcome::Lost) ==> step == (if retried {
            AcquireStep::Skip
        } else {
            AcquireStep::Reconfigure
        }),
        (outcome == AcquireOutcome::Timeout || outcome == AcquireOutcome::Occluded || outcome
            == AcquireOutcome::Validation) ==> step == AcquireStep::Skip,
        retried ==> step != AcquireStep::Reconfigure,
{
    match outcome {
        AcquireOutcome::Success | AcquireOutcome::Suboptimal => AcquireStep::Use,
        AcquireOutcome::Outdated | AcquireOutcome::Lost => {
            if retried {
                AcquireStep::Skip
            } else {
                AcquireStep::Reconfigure
            }
        },
        _ => AcquireStep::Skip,
    }
}

} // verus!
