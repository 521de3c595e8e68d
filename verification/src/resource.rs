use vstd::prelude::*;
use crate::barrier::{spec_register, Barriers};

verus! {

/// The native format code standing for "undefined": the format of the
/// null-resource sentinel.
pub const FORMAT_UNDEFINED: u32 = 0;

/// An input or output texture as the engine hands it over: native image
/// and view handles, extent, and the native pixel format already resolved
/// for the active backend. The handles are borrowed for the duration of
/// one dispatch and never stored.
#[derive(Clone, Copy, Debug, PartialEq, Eq, Structural)]
pub struct Fsr2Texture {
    pub image: u64,
    pub view: u64,
    pub width: u32,
    pub height: u32,
    pub format: u32,
}

/// The access state a translated resource is declared in. The upscaler
/// dispatch expects every input and output in the compute-shader read
/// state and does its own bookkeeping from there, so this layer only ever
/// requests that one state.
#[derive(Clone, Copy, Debug, PartialEq, Eq, Structural)]
pub enum ResourceState {
    ComputeRead,
}

/// The SDK-facing view of a texture: native handles, extent, native
/// format and declared access state.
#[derive(Clone, Copy, Debug, PartialEq, Eq, Structural)]
pub struct ResourceDescriptor {
    pub image: u64,
    pub view: u64,
    pub width: u32,
    pub height: u32,
    pub format: u32,
    pub state: ResourceState,
}

/// The descriptor of a present texture: its fields, declared for
/// compute-shader read access.
pub open spec fn spec_descriptor_of(t: Fsr2Texture) -> ResourceDescriptor {
    ResourceDescriptor {
        image: t.image,
        view: t.view,
        width: t.width,
        height: t.height,
        format: t.format,
        state: ResourceState::ComputeRead,
    }
}

/// The null-resource sentinel used for absent optional inputs: null
/// handles, a 1x1 extent and the undefined format.
pub open spec fn spec_null_descriptor() -> ResourceDescriptor {
    ResourceDescriptor {
        image: 0,
        view: 0,
        width: 1,
        height: 1,
        format: FORMAT_UNDEFINED,
        state: ResourceState::ComputeRead,
    }
}

/// Translate an optional input texture into the descriptor the upscaler
/// dispatch consumes. A present texture is registered with the barrier
/// tracker; an absent one yields the null-resource sentinel and leaves
/// the tracker untouched.
pub fn translate_texture(texture: Option<Fsr2Texture>, barriers: &mut Barriers) -> (r:
    ResourceDescriptor)
    requires
        old(barriers).wf(),
        !old(barriers).started(),
    ensures
        final(barriers).wf(),
        final(barriers).started() == old(barriers).started(),
        final(barriers).ended() == old(barriers).ended(),
        match texture {
            Some(t) => r == spec_descriptor_of(t) && final(barriers).handles() == spec_register(
                old(barriers).handles(),
                t.image,
            ),
            None => r == spec_null_descriptor() && final(barriers).handles() == old(
                barriers,
            ).handles(),
        },
{
    match texture {
        Some(t) => {
            barriers.add(t.image);
            ResourceDescriptor {
                image: t.image,
                view: t.view,
                width: t.width,
                height: t.height,
                format: t.format,
                state: ResourceState::ComputeRead,
            }
        },
        None => ResourceDescriptor {
            image: 0,
            view: 0,
            width: 1,
            height: 1,
            format: FORMAT_UNDEFINED,
            state: ResourceState::ComputeRead,
        },
    }
}

} // verus!
