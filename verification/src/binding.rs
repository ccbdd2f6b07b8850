//! Binding layouts and layout-validated resource binding sets.
//!
//! A [`BindingLayout`] is a typed schema: for each slot index, the resource
//! kind that may sit there and the shader stage that may read it. Slot
//! indices are distinct — a layout is a map from slot to kind, and the GPU
//! refuses duplicates — so building one validates them. A
//! [`ResourceBindingSet`] is an immutable group of concrete resources
//! validated against such a layout at construction — count and kinds must
//! match, slot for slot — and bound atomically at one group index per draw.

use vstd::prelude::*;
use crate::errors::WvtError;
use crate::gpu::{pass_set_bind_group, BufferUse, GpuBuffer, GpuCommand, RecordingPass};

verus! {

/// What kind of resource a layout slot declares.
#[derive(Clone, Copy, Debug, PartialEq, Eq, Structural)]
pub enum BindingKind {
    /// A uniform buffer.
    UniformBuffer,
    /// A filterable two-dimensional texture view.
    Texture,
    /// A filtering sampler.
    Sampler,
}

/// Which pipeline stage may read a slot.
#[derive(Clone, Copy, Debug, PartialEq, Eq, Structural)]
pub enum ShaderStage {
    Vertex,
    Fragment,
}

/// One declared slot of a binding layout.
#[derive(Clone, Copy, Debug, PartialEq, Eq, Structural)]
pub struct BindingLayoutEntry {
    /// The binding index inside the group.
    pub slot: u32,
    /// The resource kind the slot holds.
    pub kind: BindingKind,
    /// The stage that may read the slot.
    pub stage: ShaderStage,
}

/// Whether every declared slot index occurs once.
pub open spec fn distinct_slots(entries: Seq<BindingLayoutEntry>) -> bool {
    forall|i: int, j: int|
        0 <= i < j < entries.len() ==> entries[i].slot != entries[j].slot
}

/// A typed schema for one binding group; its slot indices are distinct.
#[derive(Debug)]
pub struct BindingLayout {
    pub entries: Vec<BindingLayoutEntry>,
}

impl BindingLayout {
    /// A well-formed layout: each slot index declared once.
    pub open spec fn wf(&self) -> bool {
        distinct_slots(self.entries@)
    }

    /// A layout declaring exactly the given slots. Fails exactly when a slot
    /// index is declared twice, naming such a slot.
    pub fn new(entries: Vec<BindingLayoutEntry>) -> (r: Result<Self, WvtError>)
        ensures
            r is Ok <==> distinct_slots(entries@),
            r matches Ok(l) ==> l.entries@ == entries@ && l.wf(),
            r matches Err(e) ==> {
                &&& e matches WvtError::DuplicateBindingSlot { slot }
                &&& exists|i: int, j: int|
                    0 <= i < j < entries@.len() && entries@[i].slot == slot && entries@[j].slot
                        == slot
            },
    {
        let n = entries.len();
        let mut i: usize = 0;
        while i < n
            invariant
                n == entries@.len(),
                i <= n,
                forall|p: int, q: int| 0 <= p < q < entries@.len() && p < i ==> entries@[p].slot != entries@[q].slot,
            decreases n - i,
        {
            let mut j: usize = i + 1;
            while j < n
                invariant
                    n == entries@.len(),
                    i < j <= n,
                    forall|q: int| i < q < j ==> entries@[i as int].slot != entries@[q].slot,
                decreases n - j,
            {
                if entries[i].slot == entries[j].slot {
                    return Err(WvtError::DuplicateBindingSlot { slot: entries[i].slot });
                }
                j = j + 1;
            }
            i = i + 1;
        }
        Ok(BindingLayout { entries })
    }

    /// Realizes this schema as the GPU layout object pipelines are built
    /// against.
    pub fn gpu_layout(&self, device: &wgpu::Device) -> wgpu::BindGroupLayout
        requires
            self.wf(),
    {
        create_gpu_layout(device, &self.entries)
    }
}

/// A reference to one concrete resource offered to a binding set.
pub enum ResourceRef<'r> {
    /// A whole uniform buffer.
    Uniform(&'r GpuBuffer),
    /// A texture view.
    Texture(&'r wgpu::TextureView),
    /// A sampler.
    Sampler(&'r wgpu::Sampler),
}

impl<'r> ResourceRef<'r> {
    /// The kind of resource this reference carries.
    pub open spec fn kind(&self) -> BindingKind {
        match self {
            ResourceRef::Uniform(_) => BindingKind::UniformBuffer,
            ResourceRef::Texture(_) => BindingKind::Texture,
            ResourceRef::Sampler(_) => BindingKind::Sampler,
        }
    }

    /// The kind of resource this reference carries.
    pub fn kind_of(&self) -> (r: BindingKind)
        ensures
            r == self.kind(),
    {
        match self {
            ResourceRef::Uniform(_) => BindingKind::UniformBuffer,
            ResourceRef::Texture(_) => BindingKind::Texture,
            ResourceRef::Sampler(_) => BindingKind::Sampler,
        }
    }
}

/// A single uniform-buffer slot at binding 0, read by the given stage.
pub open spec fn single_uniform_entries(stage: ShaderStage) -> Seq<BindingLayoutEntry> {
    seq![(BindingLayoutEntry { slot: 0, kind: BindingKind::UniformBuffer, stage })]
}

/// The texture-and-sampler group shape: a texture at binding 0 and its
/// sampler at binding 1, both read by the fragment stage.
pub open spec fn texture_sampler_entries() -> Seq<BindingLayoutEntry> {
    seq![
        (BindingLayoutEntry { slot: 0, kind: BindingKind::Texture, stage: ShaderStage::Fragment }),
        (BindingLayoutEntry { slot: 1, kind: BindingKind::Sampler, stage: ShaderStage::Fragment }),
    ]
}

/// The kinds of a sequence of offered resources, in order.
pub open spec fn kinds_of(rs: Seq<ResourceRef>) -> Seq<BindingKind> {
    rs.map_values(|r: ResourceRef| r.kind())
}

/// Every buffer offered as a uniform was created as a non-empty uniform
/// buffer; the GPU refuses binding any other buffer as one.
pub open spec fn uniforms_ok(rs: Seq<ResourceRef>) -> bool {
    forall|i: int|
        0 <= i < rs.len() ==> match #[trigger] rs[i] {
            ResourceRef::Uniform(b) => b.usage() == BufferUse::Uniform && b.size_words() > 0,
            ResourceRef::Texture(_) => true,
            ResourceRef::Sampler(_) => true,
        }
}

/// Whether the offered kinds satisfy the declared slots: same count, and
/// slot for slot the declared kind.
pub open spec fn resources_match(entries: Seq<BindingLayoutEntry>, kinds: Seq<BindingKind>) -> bool {
    &&& kinds.len() == entries.len()
    &&& forall|i: int| 0 <= i < entries.len() ==> kinds[i] == entries[i].kind
}

/// Validates offered resource kinds against a layout: `Ok` exactly when they
/// match; a count mismatch and a kind mismatch are told apart, and a kind
/// mismatch names a slot whose resource is of the wrong kind.
pub fn check_resources(layout: &BindingLayout, kinds: &Vec<BindingKind>) -> (r: Result<(), WvtError>)
    ensures
        r is Ok <==> resources_match(layout.entries@, kinds@),
        r == Err::<(), WvtError>(WvtError::BindingCountMismatch) <==> kinds@.len()
            != layout.entries@.len(),
        forall|slot: u32|
            r == Err::<(), WvtError>(WvtError::BindingKindMismatch { slot }) ==> exists|i: int|
                0 <= i < layout.entries@.len() && layout.entries@[i].slot == slot && kinds@[i]
                    != layout.entries@[i].kind,
{
    if kinds.len() != layout.entries.len() {
        return Err(WvtError::BindingCountMismatch);
    }
    let mut i: usize = 0;
    while i < kinds.len()
        invariant
            kinds@.len() == layout.entries@.len(),
            i <= kinds@.len(),
            forall|j: int| 0 <= j < i ==> kinds@[j] == layout.entries@[j].kind,
        decreases kinds@.len() - i,
    {
        if kinds[i] != layout.entries[i].kind {
            return Err(WvtError::BindingKindMismatch { slot: layout.entries[i].slot });
        }
        i = i + 1;
    }
    Ok(())
}

/// An immutable, layout-validated group of bound resources.
pub struct ResourceBindingSet {
    /// The GPU binding group, bound as one unit.
    pub bind_group: wgpu::BindGroup,
    layout_entries: Ghost<Seq<BindingLayoutEntry>>,
}

impl ResourceBindingSet {
    /// The slots this set was validated against.
    pub closed spec fn entries(&self) -> Seq<BindingLayoutEntry> {
        self.layout_entries@
    }

    /// The GPU binding group, as the abstract value draw logs carry.
    pub closed spec fn group(&self) -> wgpu::BindGroup {
        self.bind_group
    }

    /// Validates the offered resources against the layout and, when they
    /// match, realizes the GPU binding group. Fails exactly when the count
    /// or a slot's kind differs; nothing is created then.
    pub fn create<'r>(
        device: &wgpu::Device,
        layout: &BindingLayout,
        resources: &Vec<ResourceRef<'r>>,
    ) -> (r: Result<Self, WvtError>)
        requires
            layout.wf(),
            uniforms_ok(resources@),
        ensures
            r is Ok <==> resources_match(layout.entries@, kinds_of(resources@)),
            r matches Ok(s) ==> s.entries() == layout.entries@,
            r == Err::<Self, WvtError>(WvtError::BindingCountMismatch) <==> resources@.len()
                != layout.entries@.len(),
            forall|slot: u32|
                r == Err::<Self, WvtError>(WvtError::BindingKindMismatch { slot })
                    ==> exists|i: int|
                    0 <= i < layout.entries@.len() && layout.entries@[i].slot == slot
                        && kinds_of(resources@)[i] != layout.entries@[i].kind,
    {
        let mut kinds: Vec<BindingKind> = Vec::new();
        let mut i: usize = 0;
        while i < resources.len()
            invariant
                i <= resources@.len(),
                kinds@ == kinds_of(resources@.subrange(0, i as int)),
            decreases resources@.len() - i,
        {
            kinds.push(resources[i].kind_of());
            proof {
                assert(kinds@ =~= kinds_of(resources@.subrange(0, (i + 1) as int)));
            }
            i = i + 1;
        }
        proof {
            assert(resources@.subrange(0, resources@.len() as int) =~= resources@);
        }
        match check_resources(layout, &kinds) {
            Err(e) => Err(e),
            Ok(()) => {
                let gpu_layout = layout.gpu_layout(device);
                let mut slots: Vec<u32> = Vec::new();
                let mut j: usize = 0;
                while j < layout.entries.len()
                    invariant
                        j <= layout.entries@.len(),
                        slots@.len() == j,
                    decreases layout.entries@.len() - j,
                {
                    slots.push(layout.entries[j].slot);
                    j = j + 1;
                }
                let bind_group = create_bind_group(device, &gpu_layout, &slots, resources);
                Ok(ResourceBindingSet { bind_group, layout_entries: Ghost(layout.entries@) })
            },
        }
    }

    /// Binds this set at the given group index. Groups bound at other
    /// indices in the same pass are not perturbed.
    pub fn bind<'a>(&'a self, p: &mut RecordingPass<'a>, group: u32)
        ensures
            final(p).commands() == old(p).commands().push(
                GpuCommand::SetBindGroup { group, bind_group: self.group() },
            ),
    {
        pass_set_bind_group(p, group, &self.bind_group);
    }
}

/// Relies on `wgpu::Device::create_bind_group_layout`: a GPU layout with one
/// entry per declared slot — the slot's binding index, its stage visibility,
/// and its kind (uniform buffers plain; textures two-dimensional,
/// float-sampled, filterable; samplers filtering). Slot indices must be
/// distinct: `wgpu` refuses a duplicate binding index.
#[verifier::external_body]
fn create_gpu_layout(
    device: &wgpu::Device,
    entries: &Vec<BindingLayoutEntry>,
) -> (r: wgpu::BindGroupLayout)
    requires
        distinct_slots(entries@),
{
    let es: Vec<wgpu::BindGroupLayoutEntry> = entries.iter().map(|e| {
        let visibility = match e.stage {
            ShaderStage::Vertex => wgpu::ShaderStages::VERTEX,
            ShaderStage::Fragment => wgpu::ShaderStages::FRAGMENT,
        };
        let ty = match e.kind {
            BindingKind::UniformBuffer => wgpu::BindingType::Buffer { ty: wgpu::BufferBindingType::Uniform, has_dynamic_offset: false, min_binding_size: None },
            BindingKind::Texture => wgpu::BindingType::Texture { multisampled: false, view_dimension: wgpu::TextureViewDimension::D2, sample_type: wgpu::TextureSampleType::Float { filterable: true } },
            BindingKind::Sampler => wgpu::BindingType::Sampler(wgpu::SamplerBindingType::Filtering),
        };
        wgpu::BindGroupLayoutEntry { binding: e.slot, visibility, ty, count: None }
    }).collect();
    device.create_bind_group_layout(&wgpu::BindGroupLayoutDescriptor { label: None, entries: es.as_slice() })
}

/// Relies on `wgpu::Device::create_bind_group` and
/// `wgpu::Buffer::as_entire_binding`: a binding group holding each resource
/// at its slot, laid out by the given layout. Every buffer offered as a
/// uniform must be a non-empty uniform buffer: `wgpu` refuses binding a
/// buffer without uniform usage, or an empty one.
#[verifier::external_body]
fn create_bind_group<'r>(
    device: &wgpu::Device,
    layout: &wgpu::BindGroupLayout,
    slots: &Vec<u32>,
    resources: &Vec<ResourceRef<'r>>,
) -> (r: wgpu::BindGroup)
    requires
        slots@.len() == resources@.len(),
        uniforms_ok(resources@),
{
    let es: Vec<wgpu::BindGroupEntry> = slots.iter().zip(resources.iter()).map(|(s, res)| {
        let resource = match res {
            ResourceRef::Uniform(b) => b.raw.as_entire_binding(),
            ResourceRef::Texture(v) => wgpu::BindingResource::TextureView(v),
            ResourceRef::Sampler(sm) => wgpu::BindingResource::Sampler(sm),
        };
        wgpu::BindGroupEntry { binding: *s, resource }
    }).collect();
    device.create_bind_group(&wgpu::BindGroupDescriptor { layout, entries: es.as_slice(), label: None })
}

} // verus!
