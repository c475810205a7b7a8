use space_view::draw_shape::{
    BlendMode, DrawShape, DrawShapePipeline, Face, FrontFace, PipelineDescriptor,
    PrimitiveTopology,
};
use space_view::surface::{PresentMode, SurfaceConfiguration};

fn config(format: usize) -> SurfaceConfiguration {
    SurfaceConfiguration {
        format,
        alpha_mode: 0,
        width: 640,
        height: 480,
        present_mode: PresentMode::Fifo,
    }
}

#[test]
fn shape_pipeline_uses_the_shapes_entry_points() {
    let shape = DrawShape { vertex_fn: "vs_pyramid", fragment_fn: "fs_pyramid", vertex_count: 9 };
    let built = DrawShapePipeline::new(&config(2), shape);
    assert_eq!(built.shape.vertex_fn, "vs_pyramid");
    assert_eq!(built.shape.fragment_fn, "fs_pyramid");
    assert_eq!(built.shape.vertex_count, 9);
    assert_eq!(built.pipeline.label, None);
    assert_eq!(built.pipeline.vertex_entry, "vs_pyramid");
    assert_eq!(built.pipeline.fragment_entry, "fs_pyramid");
    assert_eq!(built.pipeline.target_format, 2);
}

#[test]
fn shape_pipeline_culls_back_faces_and_blends_by_alpha() {
    let shape = DrawShape { vertex_fn: "vs_background", fragment_fn: "fs_main", vertex_count: 6 };
    let built = DrawShapePipeline::new(&config(0), shape);
    assert_eq!(built.pipeline.topology, PrimitiveTopology::TriangleList);
    assert_eq!(built.pipeline.front_face, FrontFace::Ccw);
    assert_eq!(built.pipeline.cull_mode, Some(Face::Back));
    assert_eq!(built.pipeline.blend, BlendMode::AlphaBlending);
    assert_eq!(built.pipeline.sample_count, 1);
}

#[test]
fn sky_pipeline_is_wound_clockwise_and_replaces_the_target() {
    let sky = PipelineDescriptor::sky(&config(1));
    assert_eq!(sky.label, Some("Sky"));
    assert_eq!(sky.vertex_entry, "vs_sky");
    assert_eq!(sky.fragment_entry, "fs_sky");
    assert_eq!(sky.target_format, 1);
    assert_eq!(sky.topology, PrimitiveTopology::TriangleList);
    assert_eq!(sky.front_face, FrontFace::Cw);
    assert_eq!(sky.cull_mode, None);
    assert_eq!(sky.blend, BlendMode::Replace);
    assert_eq!(sky.sample_count, 1);
}
