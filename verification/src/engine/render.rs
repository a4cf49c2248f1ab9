//! Render queues and material states.
use vstd::prelude::*;

verus! {

/// The queue a material is drawn in; queues are drawn in the order of their
/// values.
#[derive(Debug, Clone, Copy, PartialEq, Eq, Structural)]
pub enum RenderQueue {
    Opaque,
    Skybox,
    Transparent,
    UI,
}

impl RenderQueue {
    /// The order of the queue.
    pub open spec fn order(self) -> u32 {
        match self {
            RenderQueue::Opaque => 1000,
            RenderQueue::Skybox => 2000,
            RenderQueue::Transparent => 3000,
            RenderQueue::UI => 5000,
        }
    }

    /// The order of the queue: opaque 1000, skybox 2000, transparent 3000,
    /// UI 5000.
    pub fn value(self) -> (r: u32)
        ensures
            r == self.order(),
    {
        match self {
            RenderQueue::Opaque => 1000,
            RenderQueue::Skybox => 2000,
            RenderQueue::Transparent => 3000,
            RenderQueue::UI => 5000,
        }
    }
}

/// The faces that are culled.
#[derive(Debug, Clone, Copy, PartialEq, Eq, Structural)]
pub enum CullMode {
    Off,
    Back,
    Front,
    FrontAndBack,
}

/// The depth comparison.
#[derive(Debug, Clone, Copy, PartialEq, Eq, Structural)]
pub enum DepthTest {
    Never,
    Less,
    Equal,
    LessEqual,
    Greater,
    NotEqual,
    GreaterEqual,
    Always,
}

impl Default for DepthTest {
    /// The default depth test is `Less`.
    fn default() -> (r: DepthTest)
        ensures
            r == DepthTest::Less,
    {
        DepthTest::Less
    }
}

/// The render states a material sets; `None` leaves the current state.
#[derive(Debug, Clone, Copy, PartialEq, Eq, Structural)]
pub struct MaterialState {
    pub cull: Option<CullMode>,
    pub alpha_blending: Option<bool>,
    pub depth_write: Option<bool>,
    pub depth_test: Option<DepthTest>,
}

impl Default for MaterialState {
    /// A material state that sets nothing.
    fn default() -> (r: MaterialState)
        ensures
            r.cull is None,
            r.alpha_blending is None,
            r.depth_write is None,
            r.depth_test is None,
    {
        MaterialState { cull: None, alpha_blending: None, depth_write: None, depth_test: None }
    }
}

/// How a texture is sampled.
#[derive(Debug, Clone, Copy, PartialEq, Eq, Structural)]
pub enum TextureFiltering {
    Nearest,
    Linear,
}

/// The attribute slots of the engine's shaders.
#[derive(Debug, Clone, Copy, PartialEq, Eq, Structural)]
pub enum ShaderAttrib {
    Position,
    UV0,
    Normal,
    Tangent,
    Bitangent,
}

impl ShaderAttrib {
    /// The attribute location of the slot.
    pub open spec fn location(self) -> u32 {
        match self {
            ShaderAttrib::Position => 0,
            ShaderAttrib::UV0 => 1,
            ShaderAttrib::Normal => 2,
            ShaderAttrib::Tangent => 3,
            ShaderAttrib::Bitangent => 4,
        }
    }

    /// The attribute location of the slot: position 0, first texture
    /// coordinates 1, normal 2, tangent 3, bitangent 4.
    pub fn value(self) -> (r: u32)
        ensures
            r == self.location(),
    {
        match self {
            ShaderAttrib::Position => 0,
            ShaderAttrib::UV0 => 1,
            ShaderAttrib::Normal => 2,
            ShaderAttrib::Tangent => 3,
            ShaderAttrib::Bitangent => 4,
        }
    }
}

/// Queues are drawn opaque first, then the skybox, then transparent
/// materials, then the UI: their orders increase in that sequence.
pub proof fn law_queue_draw_order()
    ensures
        RenderQueue::Opaque.order() < RenderQueue::Skybox.order(),
        RenderQueue::Skybox.order() < RenderQueue::Transparent.order(),
        RenderQueue::Transparent.order() < RenderQueue::UI.order(),
{
}

/// Each attribute slot has a location of its own, below the number of slots.
pub proof fn law_attribute_locations_distinct(a: ShaderAttrib, b: ShaderAttrib)
    ensures
        a != b ==> a.location() != b.location(),
        a.location() < 5,
{
}

} // verus!
