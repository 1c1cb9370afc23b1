use wlc::{
    GLES2PixelFormat, Geometry, NoPixelFormat, NoRenderer, PixelFormat, Point, Positioner,
    RenderInstance, RenderOutput, RenderView, Renderer, Size,
};

#[test]
fn headless_renderer_reads_nothing_and_writes_nowhere() {
    let mut renderer = NoRenderer::new();
    let mut geometry = Geometry {
        origin: Point { x: 0, y: 0 },
        size: Size { w: 16, h: 16 },
    };
    renderer.pixels_write(NoPixelFormat, geometry, &[1, 2, 3, 4]);
    let data = renderer.pixels_read(NoPixelFormat, &mut geometry);
    assert!(data.is_empty());
}

#[test]
fn pixel_formats_report_their_backend_codes() {
    assert_eq!(NoPixelFormat.as_bits(), 0);
    assert_eq!(GLES2PixelFormat::RGBA8888.as_bits(), 0);
}

#[test]
fn render_wrappers_carry_their_entity_handles() {
    let output = RenderOutput::from_handle(2);
    assert_eq!(output.output().handle(), 2);
    let view = RenderView::from_handle(8);
    assert_eq!(view.view().handle(), 8);

    let instance = RenderInstance::Headless(NoRenderer::new());
    match instance {
        RenderInstance::Headless(_) => {}
        RenderInstance::GLES2(_) => panic!("expected the headless renderer"),
    }
}

#[test]
fn positioners_carry_their_view_handle() {
    let positioner = Positioner::from_handle(8);
    assert_eq!(positioner.handle(), 8);
}
