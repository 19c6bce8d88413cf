//! The frame sync stage: once per render tick, after the resource table has
//! resolved the texture and before any draw pass samples it, the current
//! frame of the source is copied into the texture.
//!
//! The stage never fails and never waits. A tick on which the texture has no
//! identity yet, or on which the identity resolves to no live texture, issues
//! nothing. Whether the source has decoded a frame is not asked: the copy is
//! issued all the same and transfers whatever the host holds as the current
//! frame, so a tick without a new frame repeats the command of the tick before.

use vstd::prelude::*;
use crate::binding::{BindingModel, VideoTextureBinding};
use crate::geometry::{origin3_zero, Extent, Origin2, Origin3};
use crate::source::{whole_frame, FrameSourceDescriptor, FrameSourceModel, SourceModel};
use crate::texture::TextureIdentity;

verus! {

/// Which part of a texture a copy writes.
#[derive(Clone, Copy, Debug, PartialEq, Eq, Structural)]
pub enum TextureAspect {
    /// Depth, stencil and color.
    All,
    StencilOnly,
    DepthOnly,
    Plane0,
    Plane1,
    Plane2,
}

/// Color space in which the copied pixels are written.
#[derive(Clone, Copy, Debug, PartialEq, Eq, Structural)]
pub enum ColorSpace {
    Srgb,
    DisplayP3,
}

/// What the resource table resolved an identity to on this tick, as far as
/// the stage reads it.
#[derive(Clone, Copy, Debug, PartialEq, Eq, Structural)]
pub struct LiveTexture {
    /// Full size of the live texture.
    pub size: Extent,
}

/// Where a copy writes.
#[derive(Clone, Copy, Debug, PartialEq, Eq, Structural)]
pub struct CopyDestination {
    pub texture: TextureIdentity,
    pub mip_level: u32,
    pub origin: Origin3,
    pub aspect: TextureAspect,
    pub color_space: ColorSpace,
    pub premultiplied_alpha: bool,
}

/// Instruction for the GPU queue to transfer the pixels of an external visual
/// source into a region of a texture. Completion is not awaited.
#[derive(Clone, Copy, Debug, PartialEq, Eq)]
pub struct CopyCommand<'a> {
    pub source: FrameSourceDescriptor<'a>,
    pub destination: CopyDestination,
    pub extent: Extent,
}

/// Mathematical model of a copy command.
pub struct CopyCommandModel {
    pub source: FrameSourceModel,
    pub destination: CopyDestination,
    pub extent: Extent,
}

impl<'a> View for CopyCommand<'a> {
    type V = CopyCommandModel;

    open spec fn view(&self) -> CopyCommandModel {
        CopyCommandModel {
            source: self.source@,
            destination: self.destination,
            extent: self.extent,
        }
    }
}

/// The copy that fills the whole of a live texture from the current frame of
/// a source: mip level 0, from the first texel, all aspects, sRGB,
/// premultiplied alpha.
pub open spec fn full_copy(
    source: SourceModel,
    target: TextureIdentity,
    live: LiveTexture,
) -> CopyCommandModel {
    CopyCommandModel {
        source: whole_frame(source),
        destination: CopyDestination {
            texture: target,
            mip_level: 0,
            origin: Origin3::zero(),
            aspect: TextureAspect::All,
            color_space: ColorSpace::Srgb,
            premultiplied_alpha: true,
        },
        extent: live.size,
    }
}

/// What the stage issues on a tick: the full copy from the binding's source
/// where the binding has a target and the target resolved, nothing otherwise.
pub open spec fn sync_command(binding: BindingModel, resolved: Option<LiveTexture>) -> Option<
    CopyCommandModel,
> {
    match (binding.target, resolved) {
        (Some(identity), Some(live)) => Some(full_copy(binding.source, identity, live)),
        _ => None,
    }
}

/// The model of what the stage decided.
pub open spec fn decided(command: Option<CopyCommand<'_>>) -> Option<CopyCommandModel> {
    match command {
        Some(command) => Some(command@),
        None => None,
    }
}

/// Decides the copy of one tick. `resolved` is what the resource table gave
/// for the binding's target on this tick, `None` where it gave nothing.
pub fn sync_frame<'a>(binding: &'a VideoTextureBinding, resolved: Option<LiveTexture>) -> (command:
    Option<CopyCommand<'a>>)
    ensures
        decided(command) == sync_command(binding@, resolved),
        binding@.target is None ==> command is None,
        resolved is None ==> command is None,
{
    let identity = match binding.target() {
        Some(identity) => identity,
        None => {
            return None;
        },
    };
    let live = match resolved {
        Some(live) => live,
        None => {
            return None;
        },
    };
    Some(
        CopyCommand {
            source: binding.source().current_frame(),
            destination: CopyDestination {
                texture: identity,
                mip_level: 0,
                origin: origin3_zero(),
                aspect: TextureAspect::All,
                color_space: ColorSpace::Srgb,
                premultiplied_alpha: true,
            },
            extent: live.size,
        },
    )
}

/// Every command of the stage reads the bound source and writes the bound
/// texture in full, from the top-left corner of the frame to the first texel
/// of the texture.
pub proof fn lemma_copy_covers_target(binding: BindingModel, resolved: Option<LiveTexture>)
    requires
        sync_command(binding, resolved) is Some,
    ensures
        binding.target is Some,
        resolved is Some,
        sync_command(binding, resolved)->0.source.source == binding.source,
        sync_command(binding, resolved)->0.destination.texture == binding.target->0,
        sync_command(binding, resolved)->0.extent == resolved->0.size,
        sync_command(binding, resolved)->0.source.origin == Origin2::zero(),
        sync_command(binding, resolved)->0.destination.origin == Origin3::zero(),
{
}

} // verus!
