use vstd::prelude::*;

verus! {

/// The format of one vertex attribute.
#[derive(Clone, Copy, Debug, PartialEq, Eq, Structural)]
pub enum VertexFormat {
    Float2,
    Float3,
}

/// The kind of resource held by one binding slot.
#[derive(Clone, Copy, Debug, PartialEq, Eq, Structural)]
pub enum BindingType {
    UniformBuffer,
    SampledTexture,
    Sampler,
}

/// The shader stage that can see a binding slot.
#[derive(Clone, Copy, Debug, PartialEq, Eq, Structural)]
pub enum ShaderStage {
    Vertex,
    Fragment,
}

/// One binding slot of a binding set.
#[derive(Clone, Copy, Debug, PartialEq, Eq, Structural)]
pub struct Binding {
    pub binding: BindingType,
    pub stage: ShaderStage,
}

/// The shape of the cursor pipeline: vertex attributes in order, and the
/// binding slots of each binding set, indexed by set number.
pub struct Description {
    pub vertex_layout: Vec<VertexFormat>,
    pub sets: Vec<Vec<Binding>>,
}

/// Set number of the orthographic projection uniform.
pub const ORTHO_SET: usize = 0;

/// Set number of the cursor texture and its sampler.
pub const CURSOR_SET: usize = 1;

/// Set number of the screen framebuffer texture.
pub const FRAMEBUFFER_SET: usize = 2;

/// Vertex attributes: a position of three floats, then a texture coordinate
/// of two.
pub open spec fn vertex_layout_spec() -> Seq<VertexFormat> {
    seq![VertexFormat::Float3, VertexFormat::Float2]
}

/// The binding slots of each set: the projection uniform for the vertex
/// stage; the cursor texture and sampler for the fragment stage; the
/// framebuffer texture for the fragment stage.
pub open spec fn sets_spec() -> Seq<Seq<Binding>> {
    seq![
        seq![Binding { binding: BindingType::UniformBuffer, stage: ShaderStage::Vertex }],
        seq![
            Binding { binding: BindingType::SampledTexture, stage: ShaderStage::Fragment },
            Binding { binding: BindingType::Sampler, stage: ShaderStage::Fragment },
        ],
        seq![Binding { binding: BindingType::SampledTexture, stage: ShaderStage::Fragment }],
    ]
}

impl Description {
    /// The binding slots of each set, as sequences.
    pub open spec fn sets_view(&self) -> Seq<Seq<Binding>> {
        self.sets@.map_values(|s: Vec<Binding>| s@)
    }
}

/// The fixed description of the cursor pipeline.
pub fn description() -> (r: Description)
    ensures
        r.vertex_layout@ == vertex_layout_spec(),
        r.sets_view() == sets_spec(),
{
    let vertex_stage_uniform = Binding { binding: BindingType::UniformBuffer, stage: ShaderStage::Vertex };
    let fragment_texture = Binding { binding: BindingType::SampledTexture, stage: ShaderStage::Fragment };
    let fragment_sampler = Binding { binding: BindingType::Sampler, stage: ShaderStage::Fragment };

    let ortho = vec![vertex_stage_uniform];
    let cursor = vec![fragment_texture, fragment_sampler];
    let framebuffer = vec![fragment_texture];
    assert(ortho@ =~= sets_spec()[0]);
    assert(cursor@ =~= sets_spec()[1]);
    assert(framebuffer@ =~= sets_spec()[2]);
    let sets = vec![ortho, cursor, framebuffer];
    let r = Description { vertex_layout: vec![VertexFormat::Float3, VertexFormat::Float2], sets };
    assert(r.vertex_layout@ =~= vertex_layout_spec());
    assert(r.sets_view() =~= sets_spec()) by {
        assert(r.sets@.len() == 3);
        assert(r.sets_view()[0] == sets_spec()[0]);
        assert(r.sets_view()[1] == sets_spec()[1]);
        assert(r.sets_view()[2] == sets_spec()[2]);
    }
    r
}

} // verus!
