//! The uniform blocks every shading model shares: the camera and the light.

use vstd::prelude::*;
use crate::pod::{image_of, is_image, MINUS_THREE, ONE, THREE, ZERO};
use crate::renderer::plan::{ShaderStages, UniformPlan, UniformRole};

verus! {

/// Bytes of the camera block: two 4x4 matrices.
pub const CAMERA_UNIFORM_SIZE: u64 = 128;

/// Bytes of the light block: two padded three-vectors.
pub const LIGHT_UNIFORM_SIZE: u64 = 32;

/// The camera block: projection, then view, each a 4x4 matrix of binary32
/// encodings in column-major order.
#[derive(Clone, Copy, PartialEq, Eq, Debug)]
pub struct CameraUniform {
    pub proj: [u32; 16],
    pub view: [u32; 16],
}

impl CameraUniform {
    /// The block as it lies in its buffer.
    pub open spec fn words(self) -> Seq<u32> {
        self.proj@ + self.view@
    }

    /// The buffer and bind group of the camera block.
    pub open spec fn uniform() -> UniformPlan {
        UniformPlan {
            role: UniformRole::Camera,
            visibility: ShaderStages { vertex: true, fragment: true },
            min_binding_size: Some(CAMERA_UNIFORM_SIZE),
            size: CAMERA_UNIFORM_SIZE,
        }
    }

    /// The block of a camera with these two matrices.
    pub fn new(proj: [u32; 16], view: [u32; 16]) -> (c: CameraUniform)
        ensures
            c.proj == proj,
            c.view == view,
    {
        CameraUniform { proj, view }
    }

    /// The contents of the camera buffer.
    pub fn to_bytes(&self) -> (bytes: Vec<u8>)
        ensures
            is_image(bytes@, self.words()),
            bytes@.len() == CAMERA_UNIFORM_SIZE,
    {
        let mut words: Vec<u32> = Vec::new();
        words.extend_from_slice(self.proj.as_slice());
        words.extend_from_slice(self.view.as_slice());
        assert(words@ =~= self.words());
        image_of(&words)
    }

    /// Describes the buffer and bind group of the camera block.
    pub fn create_uniform() -> (plan: UniformPlan)
        ensures
            plan == Self::uniform(),
    {
        UniformPlan {
            role: UniformRole::Camera,
            visibility: ShaderStages { vertex: true, fragment: true },
            min_binding_size: Some(CAMERA_UNIFORM_SIZE),
            size: CAMERA_UNIFORM_SIZE,
        }
    }
}

/// The light block: a position and a colour, each padded to four words.
#[derive(Clone, Copy, PartialEq, Eq, Debug)]
pub struct LightUniform {
    pub position: [u32; 3],
    pub color: [u32; 3],
}

impl LightUniform {
    /// The block as it lies in its buffer; the padding words are zero.
    pub open spec fn words(self) -> Seq<u32> {
        self.position@ + seq![0u32] + self.color@ + seq![0u32]
    }

    /// The buffer and bind group of the light block.
    pub open spec fn uniform() -> UniformPlan {
        UniformPlan {
            role: UniformRole::Light,
            visibility: ShaderStages { vertex: true, fragment: true },
            min_binding_size: None,
            size: LIGHT_UNIFORM_SIZE,
        }
    }

    /// A white light above and behind the origin.
    pub fn new() -> (l: LightUniform)
        ensures
            l.position@ == seq![ZERO, THREE, MINUS_THREE],
            l.color@ == seq![ONE, ONE, ONE],
    {
        let l = LightUniform { position: [ZERO, THREE, MINUS_THREE], color: [ONE, ONE, ONE] };
        assert(l.position@ =~= seq![ZERO, THREE, MINUS_THREE]);
        assert(l.color@ =~= seq![ONE, ONE, ONE]);
        l
    }

    /// The contents of the light buffer.
    pub fn to_bytes(&self) -> (bytes: Vec<u8>)
        ensures
            is_image(bytes@, self.words()),
            bytes@.len() == LIGHT_UNIFORM_SIZE,
    {
        let mut words: Vec<u32> = Vec::new();
        words.extend_from_slice(self.position.as_slice());
        words.push(0);
        words.extend_from_slice(self.color.as_slice());
        words.push(0);
        assert(words@ =~= self.words());
        image_of(&words)
    }

    /// Describes the buffer and bind group of the light block.
    pub fn create_uniform() -> (plan: UniformPlan)
        ensures
            plan == Self::uniform(),
    {
        UniformPlan {
            role: UniformRole::Light,
            visibility: ShaderStages { vertex: true, fragment: true },
            min_binding_size: None,
            size: LIGHT_UNIFORM_SIZE,
        }
    }
}

} // verus!
