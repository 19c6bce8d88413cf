//! The one binding between the frame source and the texture it streams into,
//! and the registry that owns it.

use vstd::prelude::*;
use crate::source::{ExternalFrameHandle, SourceModel};
use crate::texture::TextureIdentity;

verus! {

/// Mathematical model of a binding.
pub struct BindingModel {
    pub source: SourceModel,
    pub target: Option<TextureIdentity>,
}

/// The pair of a frame source and the identity of the texture that receives
/// its frames. The target is absent only until the texture has been allocated.
#[derive(Debug, PartialEq, Eq)]
pub struct VideoTextureBinding {
    source: ExternalFrameHandle,
    target: Option<TextureIdentity>,
}

impl View for VideoTextureBinding {
    type V = BindingModel;

    closed spec fn view(&self) -> BindingModel {
        BindingModel { source: self.source@, target: self.target }
    }
}

/// Why the registry refused a write.
#[derive(Clone, Copy, Debug, PartialEq, Eq, Structural)]
pub enum BindingError {
    /// The target has been set before; it never changes afterwards.
    TargetAlreadySet,
}

/// Owner of the binding. A registry holds exactly one binding from the moment
/// it is made, and is handed to the per-tick stage by reference.
#[derive(Debug, PartialEq, Eq)]
pub struct BindingRegistry {
    binding: VideoTextureBinding,
}

impl View for BindingRegistry {
    type V = BindingModel;

    closed spec fn view(&self) -> BindingModel {
        self.binding@
    }
}

/// The binding after a request to set its target: the first request is
/// carried out, every later one leaves the binding as it is.
pub open spec fn after_set_target(binding: BindingModel, identity: TextureIdentity) -> BindingModel {
    match binding.target {
        None => BindingModel { source: binding.source, target: Some(identity) },
        Some(_) => binding,
    }
}

impl VideoTextureBinding {
    /// The frame source.
    pub fn source(&self) -> (source: &ExternalFrameHandle)
        ensures
            source@ == self@.source,
    {
        &self.source
    }

    /// The identity of the texture, once it has been allocated.
    pub fn target(&self) -> (target: Option<TextureIdentity>)
        ensures
            target == self@.target,
    {
        self.target
    }
}

impl BindingRegistry {
    /// Makes the binding for a frame source. The texture is not allocated yet.
    pub fn new(source: ExternalFrameHandle) -> (registry: BindingRegistry)
        ensures
            registry@.source == source@,
            registry@.target is None,
    {
        BindingRegistry { binding: VideoTextureBinding { source, target: None } }
    }

    /// The binding.
    pub fn get(&self) -> (binding: &VideoTextureBinding)
        ensures
            binding@ == self@,
    {
        &self.binding
    }

    /// Whether startup is complete: the texture has been allocated and bound.
    pub fn is_ready(&self) -> (ready: bool)
        ensures
            ready <==> self@.target is Some,
    {
        self.binding.target.is_some()
    }

    /// Records the identity of the allocated texture. This is the single write
    /// in the life of a binding: it succeeds while no target is set, and is
    /// refused without effect afterwards.
    pub fn set_target(&mut self, identity: TextureIdentity) -> (result: Result<(), BindingError>)
        ensures
            final(self)@ == after_set_target(old(self)@, identity),
            result is Ok <==> old(self)@.target is None,
            result is Err ==> result == Err::<(), BindingError>(BindingError::TargetAlreadySet),
            final(self)@.target is Some,
    {
        match self.binding.target {
            None => {
                self.binding.target = Some(identity);
                Ok(())
            },
            Some(_) => Err(BindingError::TargetAlreadySet),
        }
    }
}

/// Once the first identity has been recorded the binding has a target, and no
/// later request changes the binding.
pub proof fn lemma_target_is_write_once(
    binding: BindingModel,
    first: TextureIdentity,
    later: TextureIdentity,
)
    ensures
        after_set_target(binding, first).target is Some,
        after_set_target(after_set_target(binding, first), later) == after_set_target(
            binding,
            first,
        ),
        binding.target is None ==> after_set_target(binding, first).target == Some(first),
        after_set_target(binding, first).source == binding.source,
{
}

} // verus!
