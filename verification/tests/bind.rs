use space_view::bind::{
    check_layout, pipeline_layout, BindGroupLayoutEntry, BindSlot, BindingType, ShaderStage,
    TextureViewDimension,
};

#[test]
fn slots_stand_in_contract_order() {
    assert_eq!(BindSlot::Rotation.position(), 0);
    assert_eq!(BindSlot::Camera.position(), 1);
    assert_eq!(BindSlot::Skybox.position(), 2);
    assert_eq!(BindSlot::Texture.position(), 3);
}

#[test]
fn slot_at_position_inverts_position() {
    assert_eq!(BindSlot::at(0), Some(BindSlot::Rotation));
    assert_eq!(BindSlot::at(1), Some(BindSlot::Camera));
    assert_eq!(BindSlot::at(2), Some(BindSlot::Skybox));
    assert_eq!(BindSlot::at(3), Some(BindSlot::Texture));
    assert_eq!(BindSlot::at(4), None);
    assert_eq!(BindSlot::at(u32::MAX), None);
}

#[test]
fn uniforms_feed_the_vertex_stage_and_textures_the_fragment_stage() {
    assert_eq!(BindSlot::Rotation.stage(), ShaderStage::Vertex);
    assert_eq!(BindSlot::Camera.stage(), ShaderStage::Vertex);
    assert_eq!(BindSlot::Skybox.stage(), ShaderStage::Fragment);
    assert_eq!(BindSlot::Texture.stage(), ShaderStage::Fragment);
}

#[test]
fn uniform_slots_have_one_buffer_entry() {
    let expected = vec![BindGroupLayoutEntry {
        binding: 0,
        visibility: ShaderStage::Vertex,
        ty: BindingType::UniformBuffer,
    }];
    assert_eq!(BindSlot::Rotation.entries(), expected);
    assert_eq!(BindSlot::Camera.entries(), expected);
}

#[test]
fn skybox_slot_has_a_cube_texture_and_a_sampler() {
    assert_eq!(
        BindSlot::Skybox.entries(),
        vec![
            BindGroupLayoutEntry {
                binding: 0,
                visibility: ShaderStage::Fragment,
                ty: BindingType::Texture { dimension: TextureViewDimension::Cube },
            },
            BindGroupLayoutEntry {
                binding: 1,
                visibility: ShaderStage::Fragment,
                ty: BindingType::Sampler,
            },
        ]
    );
}

#[test]
fn texture_slot_has_a_flat_texture_and_a_sampler() {
    assert_eq!(
        BindSlot::Texture.entries(),
        vec![
            BindGroupLayoutEntry {
                binding: 0,
                visibility: ShaderStage::Fragment,
                ty: BindingType::Texture { dimension: TextureViewDimension::D2 },
            },
            BindGroupLayoutEntry {
                binding: 1,
                visibility: ShaderStage::Fragment,
                ty: BindingType::Sampler,
            },
        ]
    );
}

#[test]
fn pipeline_layout_lists_the_slots_in_order() {
    assert_eq!(
        pipeline_layout(true),
        vec![BindSlot::Rotation, BindSlot::Camera, BindSlot::Skybox, BindSlot::Texture]
    );
    assert_eq!(
        pipeline_layout(false),
        vec![BindSlot::Rotation, BindSlot::Camera, BindSlot::Skybox]
    );
}

#[test]
fn built_layouts_pass_the_check() {
    assert!(check_layout(&pipeline_layout(true)));
    assert!(check_layout(&pipeline_layout(false)));
}

#[test]
fn layouts_out_of_order_fail_the_check() {
    assert!(!check_layout(&[BindSlot::Camera, BindSlot::Rotation, BindSlot::Skybox]));
    assert!(!check_layout(&[
        BindSlot::Rotation,
        BindSlot::Camera,
        BindSlot::Texture,
        BindSlot::Skybox
    ]));
    assert!(!check_layout(&[BindSlot::Rotation, BindSlot::Camera, BindSlot::Texture]));
}

#[test]
fn layouts_of_the_wrong_length_fail_the_check() {
    assert!(!check_layout(&[]));
    assert!(!check_layout(&[BindSlot::Rotation, BindSlot::Camera]));
    assert!(!check_layout(&[
        BindSlot::Rotation,
        BindSlot::Camera,
        BindSlot::Skybox,
        BindSlot::Texture,
        BindSlot::Texture
    ]));
}
