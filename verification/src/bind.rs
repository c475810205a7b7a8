//! The resource-binding contract shared by every pipeline.
//!
//! All pipelines are built against one layout, so that a bind group set
//! for one of them fits the others: the rotation uniform at slot 0, the
//! camera uniform at slot 1, the sky cube at slot 2 and, where a pipeline
//! samples it, an auxiliary 2-D texture at slot 3.

use vstd::prelude::*;

verus! {

/// The shader stage that reads a binding.
#[derive(Debug, Clone, Copy, PartialEq, Eq, Structural)]
pub enum ShaderStage {
    Vertex,
    Fragment,
}

/// How a texture binding is addressed.
#[derive(Debug, Clone, Copy, PartialEq, Eq, Structural)]
pub enum TextureViewDimension {
    D2,
    Cube,
}

/// What is bound at one binding of a group.
#[derive(Debug, Clone, Copy, PartialEq, Eq, Structural)]
pub enum BindingType {
    /// A uniform buffer, bound whole and without a dynamic offset.
    UniformBuffer,
    /// A filterable, single-sampled float texture.
    Texture { dimension: TextureViewDimension },
    /// A filtering sampler.
    Sampler,
}

/// One entry of a bind group layout.
#[derive(Debug, Clone, Copy, PartialEq, Eq, Structural)]
pub struct BindGroupLayoutEntry {
    pub binding: u32,
    pub visibility: ShaderStage,
    pub ty: BindingType,
}

/// The bind groups of the contract, in slot order.
#[derive(Debug, Clone, Copy, PartialEq, Eq, Structural)]
pub enum BindSlot {
    Rotation,
    Camera,
    Skybox,
    Texture,
}

/// The number of slots that every pipeline layout declares.
pub const REQUIRED_SLOTS: usize = 3;

/// The number of slots of a layout that also declares the auxiliary texture.
pub const ALL_SLOTS: usize = 4;

impl BindSlot {
    /// The slot's position in every pipeline layout.
    pub open spec fn spec_position(self) -> u32 {
        match self {
            BindSlot::Rotation => 0,
            BindSlot::Camera => 1,
            BindSlot::Skybox => 2,
            BindSlot::Texture => 3,
        }
    }

    /// The slot's position in every pipeline layout.
    #[verifier::when_used_as_spec(spec_position)]
    pub fn position(self) -> (index: u32)
        ensures
            index == self.spec_position(),
    {
        match self {
            BindSlot::Rotation => 0,
            BindSlot::Camera => 1,
            BindSlot::Skybox => 2,
            BindSlot::Texture => 3,
        }
    }

    /// The slot at a position, if the contract has one there.
    pub fn at(index: u32) -> (slot: Option<BindSlot>)
        ensures
            index < 4 <==> slot.is_some(),
            slot matches Some(s) ==> s.spec_position() == index,
    {
        if index == 0 {
            Some(BindSlot::Rotation)
        } else if index == 1 {
            Some(BindSlot::Camera)
        } else if index == 2 {
            Some(BindSlot::Skybox)
        } else if index == 3 {
            Some(BindSlot::Texture)
        } else {
            None
        }
    }

    /// The stage that reads the slot: the two uniforms feed the vertex
    /// stage, the two textures the fragment stage.
    pub open spec fn spec_stage(self) -> ShaderStage {
        match self {
            BindSlot::Rotation => ShaderStage::Vertex,
            BindSlot::Camera => ShaderStage::Vertex,
            BindSlot::Skybox => ShaderStage::Fragment,
            BindSlot::Texture => ShaderStage::Fragment,
        }
    }

    /// The stage that reads the slot.
    #[verifier::when_used_as_spec(spec_stage)]
    pub fn stage(self) -> (stage: ShaderStage)
        ensures
            stage == self.spec_stage(),
    {
        match self {
            BindSlot::Rotation => ShaderStage::Vertex,
            BindSlot::Camera => ShaderStage::Vertex,
            BindSlot::Skybox => ShaderStage::Fragment,
            BindSlot::Texture => ShaderStage::Fragment,
        }
    }

    /// The entries of the slot's bind group layout: one uniform buffer for
    /// a uniform slot, a texture followed by its sampler for a texture slot.
    pub open spec fn spec_entries(self) -> Seq<BindGroupLayoutEntry> {
        match self {
            BindSlot::Rotation | BindSlot::Camera => seq![
                BindGroupLayoutEntry {
                    binding: 0,
                    visibility: ShaderStage::Vertex,
                    ty: BindingType::UniformBuffer,
                },
            ],
            BindSlot::Skybox => seq![
                BindGroupLayoutEntry {
                    binding: 0,
                    visibility: ShaderStage::Fragment,
                    ty: BindingType::Texture { dimension: TextureViewDimension::Cube },
                },
                BindGroupLayoutEntry {
                    binding: 1,
                    visibility: ShaderStage::Fragment,
                    ty: BindingType::Sampler,
                },
            ],
            BindSlot::Texture => seq![
                BindGroupLayoutEntry {
                    binding: 0,
                    visibility: ShaderStage::Fragment,
                    ty: BindingType::Texture { dimension: TextureViewDimension::D2 },
                },
                BindGroupLayoutEntry {
                    binding: 1,
                    visibility: ShaderStage::Fragment,
                    ty: BindingType::Sampler,
                },
            ],
        }
    }

    /// Builds the entries of the slot's bind group layout.
    pub fn entries(self) -> (entries: Vec<BindGroupLayoutEntry>)
        ensures
            entries@ == self.spec_entries(),
    {
        let stage = self.stage();
        let mut entries: Vec<BindGroupLayoutEntry> = Vec::new();
        match self {
            BindSlot::Rotation | BindSlot::Camera => {
                entries.push(
                    BindGroupLayoutEntry {
                        binding: 0,
                        visibility: stage,
                        ty: BindingType::UniformBuffer,
                    },
                );
            },
            BindSlot::Skybox => {
                entries.push(
                    BindGroupLayoutEntry {
                        binding: 0,
                        visibility: stage,
                        ty: BindingType::Texture { dimension: TextureViewDimension::Cube },
                    },
                );
                entries.push(
                    BindGroupLayoutEntry {
                        binding: 1,
                        visibility: stage,
                        ty: BindingType::Sampler,
                    },
                );
            },
            BindSlot::Texture => {
                entries.push(
                    BindGroupLayoutEntry {
                        binding: 0,
                        visibility: stage,
                        ty: BindingType::Texture { dimension: TextureViewDimension::D2 },
                    },
                );
                entries.push(
                    BindGroupLayoutEntry {
                        binding: 1,
                        visibility: stage,
                        ty: BindingType::Sampler,
                    },
                );
            },
        }
        entries
    }
}

/// The layout that the contract prescribes: the three required slots in
/// order, followed by the auxiliary texture if it is declared.
pub open spec fn contract_layout(auxiliary: bool) -> Seq<BindSlot> {
    if auxiliary {
        seq![BindSlot::Rotation, BindSlot::Camera, BindSlot::Skybox, BindSlot::Texture]
    } else {
        seq![BindSlot::Rotation, BindSlot::Camera, BindSlot::Skybox]
    }
}

/// A layout honours the contract when it declares the required slots, at
/// most the auxiliary one besides, and each slot at its own position.
pub open spec fn honours_contract(layout: Seq<BindSlot>) -> bool {
    &&& REQUIRED_SLOTS <= layout.len() <= ALL_SLOTS
    &&& forall|i: int| 0 <= i < layout.len() ==> (#[trigger] layout[i]).spec_position() == i
}

/// Builds the bind group layout list of a pipeline layout.
pub fn pipeline_layout(auxiliary: bool) -> (layout: Vec<BindSlot>)
    ensures
        layout@ == contract_layout(auxiliary),
        honours_contract(layout@),
{
    let mut layout: Vec<BindSlot> = Vec::new();
    layout.push(BindSlot::Rotation);
    layout.push(BindSlot::Camera);
    layout.push(BindSlot::Skybox);
    if auxiliary {
        layout.push(BindSlot::Texture);
    }
    layout
}

/// Checks a pipeline's layout list against the contract.
pub fn check_layout(layout: &[BindSlot]) -> (ok: bool)
    ensures
        ok == honours_contract(layout@),
{
    let n: usize = layout.len();
    if n < REQUIRED_SLOTS || n > ALL_SLOTS {
        return false;
    }
    let mut i: usize = 0;
    while i < n
        invariant
            n == layout@.len(),
            REQUIRED_SLOTS <= n <= ALL_SLOTS,
            i <= n,
            forall|j: int| 0 <= j < i ==> (#[trigger] layout@[j]).spec_position() == j,
        decreases n - i,
    {
        if layout[i].position() != i as u32 {
            return false;
        }
        i = i + 1;
    }
    true
}

/// The contract leaves no choice: a layout that honours it is the
/// prescribed layout, with or without the auxiliary texture.
pub proof fn lemma_contract_is_unique(layout: Seq<BindSlot>)
    requires
        honours_contract(layout),
    ensures
        layout == contract_layout(layout.len() == ALL_SLOTS),
{
    let expected = contract_layout(layout.len() == ALL_SLOTS);
    assert forall|i: int| 0 <= i < layout.len() implies layout[i] == expected[i] by {
        assert(layout[i].spec_position() == i);
    }
    assert(layout =~= expected);
}

} // verus!
