use wvt::binding::{check_resources, BindingKind, BindingLayout, BindingLayoutEntry, ShaderStage};
use wvt::errors::WvtError;
use wvt::renderers::material_buffer::MaterialBuffer;

fn entry(slot: u32, kind: BindingKind, stage: ShaderStage) -> BindingLayoutEntry {
    BindingLayoutEntry { slot, kind, stage }
}

fn layout(entries: Vec<BindingLayoutEntry>) -> BindingLayout {
    BindingLayout::new(entries).unwrap()
}

#[test]
fn layout_keeps_entries() {
    let l = layout(vec![
        entry(0, BindingKind::UniformBuffer, ShaderStage::Vertex),
        entry(1, BindingKind::Texture, ShaderStage::Fragment),
    ]);
    assert_eq!(l.entries.len(), 2);
    assert_eq!(l.entries[0], entry(0, BindingKind::UniformBuffer, ShaderStage::Vertex));
    assert_eq!(l.entries[1], entry(1, BindingKind::Texture, ShaderStage::Fragment));
}

#[test]
fn duplicate_slot_is_rejected() {
    let r = BindingLayout::new(vec![
        entry(0, BindingKind::UniformBuffer, ShaderStage::Vertex),
        entry(2, BindingKind::Texture, ShaderStage::Fragment),
        entry(2, BindingKind::Sampler, ShaderStage::Fragment),
    ]);
    assert!(matches!(r, Err(WvtError::DuplicateBindingSlot { slot: 2 })));
}

#[test]
fn matching_resources_pass() {
    let l = layout(vec![
        entry(0, BindingKind::Texture, ShaderStage::Fragment),
        entry(1, BindingKind::Sampler, ShaderStage::Fragment),
    ]);
    let kinds = vec![BindingKind::Texture, BindingKind::Sampler];
    assert!(check_resources(&l, &kinds).is_ok());
}

#[test]
fn count_mismatch_is_rejected() {
    let l = layout(vec![
        entry(0, BindingKind::UniformBuffer, ShaderStage::Vertex),
        entry(1, BindingKind::UniformBuffer, ShaderStage::Vertex),
    ]);
    let kinds = vec![BindingKind::UniformBuffer];
    assert_eq!(check_resources(&l, &kinds), Err(WvtError::BindingCountMismatch));
}

#[test]
fn kind_mismatch_names_the_slot() {
    let l = layout(vec![
        entry(3, BindingKind::UniformBuffer, ShaderStage::Vertex),
        entry(7, BindingKind::Texture, ShaderStage::Fragment),
    ]);
    let kinds = vec![BindingKind::UniformBuffer, BindingKind::Sampler];
    assert_eq!(check_resources(&l, &kinds), Err(WvtError::BindingKindMismatch { slot: 7 }));
}

#[test]
fn empty_layout_accepts_no_resources() {
    let l = layout(vec![]);
    assert!(check_resources(&l, &vec![]).is_ok());
    assert_eq!(
        check_resources(&l, &vec![BindingKind::Texture]),
        Err(WvtError::BindingCountMismatch),
    );
}

#[test]
fn material_entry_layout_is_fragment_uniform() {
    let e = MaterialBuffer::entry_layout(3);
    assert_eq!(e, entry(3, BindingKind::UniformBuffer, ShaderStage::Fragment));
}
