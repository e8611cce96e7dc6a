use d3d_window::config::{
    device_creation, entry_point, fixed_placement, input_layout, message_box, placement_for_frame,
    requested_client_area, semantic_name, shader_file, target_profile, text,
    vertex_buffer_byte_width, vertex_buffer_desc, window_placement, working_directory_line,
    BufferDesc, DeviceCreation, DriverType, Format, InputElement, MessageBoxArgs, PlacementKind, Rect,
    Semantic, ShaderStage, SwapChainDesc, Usage, WindowPlacement, WindowText, VERTEX_COUNT,
    VERTEX_SIZE,
};

#[test]
fn requested_area() {
    assert_eq!(requested_client_area(), Rect { left: 0, top: 0, right: 500, bottom: 400 });
}

#[test]
fn fixed_window() {
    assert_eq!(fixed_placement(), WindowPlacement { x: 100, y: 100, width: 500, height: 500 });
}

#[test]
fn placement_uses_frame_extent() {
    let frame = Rect { left: -8, top: -31, right: 508, bottom: 408 };
    assert_eq!(placement_for_frame(frame), WindowPlacement { x: 300, y: 300, width: 516, height: 439 });
    assert_eq!(
        placement_for_frame(requested_client_area()),
        WindowPlacement { x: 300, y: 300, width: 500, height: 400 }
    );
}

#[test]
fn device_creation_for_window() {
    assert_eq!(
        device_creation(0x10),
        DeviceCreation {
            adapter: false,
            driver: DriverType::Hardware,
            software_module: false,
            flags: 0,
            feature_levels: false,
            current_sdk_version: true,
            swap_chain: SwapChainDesc {
                buffer_count: 1,
                format: Format::Rgba8Unorm,
                render_target_output: true,
                output_window: 0x10,
                sample_count: 4,
                sample_quality: 0,
                windowed: true,
            },
            reached_feature_level: false,
        }
    );
}

#[test]
fn placement_by_kind() {
    let frame = Rect { left: -8, top: -31, right: 508, bottom: 408 };
    assert_eq!(window_placement(PlacementKind::Fixed, frame), fixed_placement());
    assert_eq!(
        window_placement(PlacementKind::FromClientArea, frame),
        WindowPlacement { x: 300, y: 300, width: 516, height: 439 }
    );
}

#[test]
fn texts() {
    assert_eq!(text(WindowText::ClassName), "WindowClass1");
    assert_eq!(text(WindowText::FixedWindowTitle), "Our First Windowed Program");
    assert_eq!(text(WindowText::FramedWindowTitle), "Window title");
    assert_eq!(text(WindowText::BoxText), "lptext");
    assert_eq!(text(WindowText::BoxCaption), "lpcaption");
    assert_eq!(
        message_box(),
        MessageBoxArgs { owner: false, text: WindowText::BoxText, caption: WindowText::BoxCaption, ok_button: true }
    );
}

#[test]
fn working_directory() {
    assert_eq!(working_directory_line("C:\\work"), "cwd C:\\work");
    assert_eq!(working_directory_line(""), "cwd ");
}

#[test]
fn vertex_buffer() {
    assert_eq!((VERTEX_SIZE, VERTEX_COUNT), (28, 3));
    assert_eq!(
        vertex_buffer_desc(),
        BufferDesc {
            byte_width: 84,
            usage: Usage::Dynamic,
            bind_vertex_buffer: true,
            cpu_write: true,
            misc_flags: 0,
            structure_byte_stride: 0,
        }
    );
}

#[test]
fn vertex_buffer_width() {
    // three vertices of three floats and a four-float colour
    assert_eq!(vertex_buffer_byte_width(28, 3), 84);
    assert_eq!(vertex_buffer_byte_width(0, 3), 0);
    assert_eq!(vertex_buffer_byte_width(1 << 31, 2), 0);
    assert_eq!(vertex_buffer_byte_width((1 << 32) + 5, 1), 5);
}

#[test]
fn layout_elements() {
    let e = |semantic, format| InputElement {
        semantic,
        semantic_index: 0,
        format,
        input_slot: 0,
        aligned_byte_offset: 0,
        per_vertex: true,
        instance_data_step_rate: 0,
    };
    assert_eq!(
        input_layout(),
        vec![e(Semantic::Position, Format::Rgb32Float), e(Semantic::Color, Format::Rgba32Float)]
    );
}

#[test]
fn names() {
    assert_eq!(semantic_name(Semantic::Position), "POSITION\0");
    assert_eq!(semantic_name(Semantic::Color), "COLOR\0");
    assert_eq!(shader_file(), "shader.hlsl");
    assert_eq!(entry_point(ShaderStage::Vertex), "VShader\0");
    assert_eq!(entry_point(ShaderStage::Pixel), "PShader\0");
    assert_eq!(target_profile(ShaderStage::Vertex), "vs_5_0\0");
    assert_eq!(target_profile(ShaderStage::Pixel), "ps_5_0\0");
}
