use d3d_window::config::{
    device_creation, requested_client_area, vertex_buffer_desc, FrameRequest, MapArgs, MapKind,
    PlacementKind, PresentArgs, ShaderCompile, ShaderStage, WindowClass, WindowCreation, WindowText,
};
use d3d_window::msgloop::PeekStyle;
use d3d_window::program::{
    abort_message, cleans_up_after_loop, init_d3d_plan, init_graphics_plan, init_pipeline_plan,
    loop_kind, placement_kind, proc_kind, render_frame_plan, startup_plan, LoopKind, Program,
};
use d3d_window::setup::{
    advance, start, BufferCreation, Call, LayoutCreation, Object, Objects, OnFailure, PlannedStep,
    Progress, RenderTargetBinding, ShaderBinding, ShaderCreation,
};
use d3d_window::winproc::ProcKind;

use OnFailure::{Abort, Ignore, Propagate};

fn steps(plan: &[PlannedStep]) -> Vec<(Call, OnFailure)> {
    plan.iter().map(|p| (p.call, p.on_failure)).collect()
}

fn take(o: Object) -> (Call, OnFailure) {
    (Call::Take(o), Abort)
}

fn class(procedure: ProcKind) -> Call {
    Call::RegisterWindowClass(WindowClass {
        redraw_on_width: true,
        redraw_on_height: true,
        procedure,
        loaded_cursor: true,
        background_brush: false,
        class_name: WindowText::ClassName,
    })
}

fn window(title: WindowText, placement: PlacementKind) -> Call {
    Call::CreateWindow(WindowCreation {
        ex_style: 0,
        class_name: WindowText::ClassName,
        title,
        overlapped_window_style: true,
        placement,
        parent: false,
        menu: false,
    })
}

fn frame() -> Call {
    Call::AdjustWindowRect(FrameRequest {
        client: requested_client_area(),
        overlapped_window_style: true,
        menu: false,
    })
}

/// Runs a plan the way the program does, with the given call results.
fn run(plan: &Vec<PlannedStep>, results: &[bool], objects: &mut Objects) -> Progress {
    let mut p = start(plan, objects);
    while let Progress::Perform(i) = p {
        p = advance(plan, i, objects, results[i]);
    }
    p
}

#[test]
fn startup_of_blank_window() {
    assert_eq!(
        steps(&startup_plan(Program::BlankWindow)),
        vec![
            (Call::LoadArrowCursor, Propagate),
            (class(ProcKind::PassThrough), Ignore),
            (frame(), Propagate),
            (window(WindowText::FramedWindowTitle, PlacementKind::FromClientArea), Propagate),
            (Call::ShowWindowDefault, Ignore),
        ]
    );
}

#[test]
fn startup_of_device_only() {
    assert_eq!(
        steps(&startup_plan(Program::DeviceOnly)),
        vec![
            (Call::LoadArrowCursor, Propagate),
            (class(ProcKind::PassThrough), Ignore),
            (frame(), Propagate),
            (window(WindowText::FramedWindowTitle, PlacementKind::FromClientArea), Propagate),
            (Call::ShowWindowDefault, Ignore),
            (Call::InitDirect3D, Propagate),
        ]
    );
}

#[test]
fn startup_of_drawing_programs() {
    for p in [Program::ClearScreen, Program::ShaderPipeline] {
        assert_eq!(
            steps(&startup_plan(p)),
            vec![
                (Call::LoadArrowCursor, Propagate),
                (class(ProcKind::HandleDestroy), Ignore),
                (window(WindowText::FixedWindowTitle, PlacementKind::Fixed), Propagate),
                (Call::ShowWindowDefault, Ignore),
                (Call::InitDirect3D, Ignore),
            ]
        );
    }
}

fn clear_screen_d3d(window: usize) -> Vec<(Call, OnFailure)> {
    vec![
        (Call::CreateDeviceAndSwapChain(device_creation(window)), Ignore),
        take(Object::SwapChain),
        (Call::GetBackBuffer(0), Abort),
        take(Object::Device),
        (Call::CreateRenderTargetView, Abort),
        take(Object::Context),
        (
            Call::BindRenderTarget(RenderTargetBinding {
                view_count: 1,
                view: Object::RenderTargetView,
                depth_stencil: false,
            }),
            Ignore,
        ),
        take(Object::Context),
        (Call::SetViewport, Ignore),
    ]
}

#[test]
fn d3d_plans() {
    assert!(init_d3d_plan(Program::BlankWindow, 0x10).is_none());
    assert_eq!(
        steps(&init_d3d_plan(Program::DeviceOnly, 0x10).unwrap()),
        vec![(Call::CreateDeviceAndSwapChain(device_creation(0x10)), Propagate)]
    );
    assert_eq!(steps(&init_d3d_plan(Program::ClearScreen, 0x10).unwrap()), clear_screen_d3d(0x10));
    let mut with_pipeline = clear_screen_d3d(0x20);
    with_pipeline.push((Call::InitPipeline, Abort));
    assert_eq!(steps(&init_d3d_plan(Program::ShaderPipeline, 0x20).unwrap()), with_pipeline);
}

#[test]
fn d3d_plan_differs_between_windows_only_in_output_window() {
    let a = init_d3d_plan(Program::ClearScreen, 0x10).unwrap();
    let b = init_d3d_plan(Program::ClearScreen, 0x99).unwrap();
    assert_eq!(a[1..], b[1..]);
    match (a[0].call, b[0].call) {
        (Call::CreateDeviceAndSwapChain(x), Call::CreateDeviceAndSwapChain(mut y)) => {
            assert_eq!(x.swap_chain.output_window, 0x10);
            assert_eq!(y.swap_chain.output_window, 0x99);
            y.swap_chain.output_window = 0x10;
            assert_eq!(x, y);
        }
        _ => panic!("the plan starts with the device creation"),
    }
}

#[test]
fn device_failure_of_device_only_goes_to_caller() {
    let plan = init_d3d_plan(Program::DeviceOnly, 7).unwrap();
    let mut o = Objects::none();
    assert_eq!(run(&plan, &[false], &mut o), Progress::Propagated(Call::CreateDeviceAndSwapChain(device_creation(7))));
    let mut o = Objects::none();
    assert_eq!(run(&plan, &[true], &mut o), Progress::Finished);
    assert!(o.swap_chain && o.device && o.context);
}

#[test]
fn device_failure_of_drawing_program_stops_at_swap_chain() {
    let plan = init_d3d_plan(Program::ClearScreen, 7).unwrap();
    let mut o = Objects::none();
    assert_eq!(run(&plan, &[false; 9], &mut o), Progress::Aborted(Call::Take(Object::SwapChain)));
}

#[test]
fn set_up_then_frames_finish() {
    let plan = init_d3d_plan(Program::ClearScreen, 7).unwrap();
    let mut o = Objects::none();
    assert_eq!(run(&plan, &[true; 9], &mut o), Progress::Finished);
    let frame = render_frame_plan();
    for present_ok in [true, false, true] {
        assert_eq!(run(&frame, &[true, true, true, true, present_ok], &mut o), Progress::Finished);
    }
}

#[test]
fn frame_without_objects_stops() {
    let frame = render_frame_plan();
    let mut o = Objects::none();
    assert_eq!(run(&frame, &[true; 5], &mut o), Progress::Aborted(Call::Take(Object::Context)));
    o.context = true;
    assert_eq!(run(&frame, &[true; 5], &mut o), Progress::Aborted(Call::Take(Object::RenderTargetView)));
    o.render_target_view = true;
    assert_eq!(run(&frame, &[true; 5], &mut o), Progress::Aborted(Call::Take(Object::SwapChain)));
}

#[test]
fn pipeline_plan() {
    let compile = |stage| {
        Call::CompileShader(ShaderCompile {
            stage,
            defines: false,
            include_handler: false,
            flags1: 0,
            flags2: 0,
            error_messages: false,
        })
    };
    assert_eq!(
        steps(&init_pipeline_plan()),
        vec![
            (Call::ReportWorkingDirectory, Abort),
            (compile(ShaderStage::Pixel), Abort),
            (compile(ShaderStage::Vertex), Abort),
            take(Object::VertexShaderCode),
            take(Object::PixelShaderCode),
            take(Object::Device),
            (Call::CreateShader(ShaderCreation { stage: ShaderStage::Vertex, class_linkage: false }), Abort),
            take(Object::Device),
            (Call::CreateShader(ShaderCreation { stage: ShaderStage::Pixel, class_linkage: false }), Abort),
            take(Object::Context),
            take(Object::VertexShader),
            (Call::BindShader(ShaderBinding { stage: ShaderStage::Vertex, class_instances: false }), Ignore),
            take(Object::Context),
            take(Object::PixelShader),
            (Call::BindShader(ShaderBinding { stage: ShaderStage::Pixel, class_instances: false }), Ignore),
            take(Object::Device),
            (Call::CreateInputLayout(LayoutCreation { signature_from: ShaderStage::Vertex }), Propagate),
            take(Object::Context),
            take(Object::InputLayout),
            (Call::BindInputLayout, Ignore),
        ]
    );
}

#[test]
fn graphics_and_frame_plans() {
    assert_eq!(
        steps(&init_graphics_plan()),
        vec![
            take(Object::Device),
            (Call::CreateVertexBuffer(BufferCreation { desc: vertex_buffer_desc(), initial_data: false }), Ignore),
            take(Object::VertexBuffer),
            take(Object::Context),
            (Call::MapVertexBuffer(MapArgs { subresource: 0, kind: MapKind::WriteDiscard, flags: 0 }), Ignore),
            take(Object::Context),
            (Call::UnmapVertexBuffer(0), Ignore),
        ]
    );
    assert_eq!(
        steps(&render_frame_plan()),
        vec![
            take(Object::Context),
            take(Object::RenderTargetView),
            (Call::ClearRenderTarget, Ignore),
            take(Object::SwapChain),
            (Call::Present(PresentArgs { sync_interval: 0, flags: 0 }), Ignore),
        ]
    );
}

#[test]
fn graphics_without_device_stops_and_failed_map_goes_on() {
    let plan = init_graphics_plan();
    let mut o = Objects::none();
    assert_eq!(run(&plan, &[true; 7], &mut o), Progress::Aborted(Call::Take(Object::Device)));
    o.device = true;
    o.context = true;
    assert_eq!(run(&plan, &[true, true, true, true, false, true, true], &mut o), Progress::Finished);
    let mut o = Objects::none();
    o.device = true;
    assert_eq!(run(&plan, &[true, false, true, true, true, true, true], &mut o), Progress::Aborted(Call::Take(Object::VertexBuffer)));
}

#[test]
fn abort_messages() {
    assert_eq!(abort_message(Call::InitPipeline), Some("init pip err"));
    assert_eq!(
        abort_message(Call::CompileShader(ShaderCompile {
            stage: ShaderStage::Pixel,
            defines: false,
            include_handler: false,
            flags1: 0,
            flags2: 0,
            error_messages: false,
        })),
        Some("compile failed")
    );
    assert_eq!(
        abort_message(Call::CreateShader(ShaderCreation { stage: ShaderStage::Vertex, class_linkage: false })),
        Some("CreateVertexShader err")
    );
    assert_eq!(
        abort_message(Call::CreateShader(ShaderCreation { stage: ShaderStage::Pixel, class_linkage: false })),
        Some("CreatePixelShader err")
    );
    assert_eq!(abort_message(Call::Take(Object::Device)), None);
    assert_eq!(abort_message(Call::GetBackBuffer(0)), None);
}

#[test]
fn program_choices() {
    assert_eq!(loop_kind(Program::BlankWindow), LoopKind::Wait);
    assert_eq!(loop_kind(Program::DeviceOnly), LoopKind::Poll(PeekStyle::MessagesOnly));
    assert_eq!(loop_kind(Program::ClearScreen), LoopKind::Poll(PeekStyle::RenderEachPass));
    assert_eq!(loop_kind(Program::ShaderPipeline), LoopKind::Poll(PeekStyle::RenderEachPass));
    assert_eq!(proc_kind(Program::BlankWindow), ProcKind::PassThrough);
    assert_eq!(proc_kind(Program::DeviceOnly), ProcKind::PassThrough);
    assert_eq!(proc_kind(Program::ClearScreen), ProcKind::HandleDestroy);
    assert_eq!(proc_kind(Program::ShaderPipeline), ProcKind::HandleDestroy);
    assert_eq!(placement_kind(Program::BlankWindow), PlacementKind::FromClientArea);
    assert_eq!(placement_kind(Program::DeviceOnly), PlacementKind::FromClientArea);
    assert_eq!(placement_kind(Program::ClearScreen), PlacementKind::Fixed);
    assert_eq!(placement_kind(Program::ShaderPipeline), PlacementKind::Fixed);
    assert!(cleans_up_after_loop(Program::DeviceOnly));
    assert!(!cleans_up_after_loop(Program::BlankWindow));
    assert!(!cleans_up_after_loop(Program::ClearScreen));
    assert!(!cleans_up_after_loop(Program::ShaderPipeline));
}

#[test]
fn shader_set_up_leaves_pipeline_objects() {
    let plan = init_d3d_plan(Program::ShaderPipeline, 7).unwrap();
    let mut o = Objects::none();
    assert_eq!(run(&plan, &[true; 10], &mut o), Progress::Finished);
    assert!(o.vertex_shader && o.pixel_shader && o.input_layout);
    assert!(o.swap_chain && o.context && o.render_target_view);
}

#[test]
fn pipeline_run_leaves_shaders_and_layout() {
    let plan = init_pipeline_plan();
    let mut o = Objects::none();
    o.device = true;
    o.context = true;
    assert_eq!(run(&plan, &[true; 20], &mut o), Progress::Finished);
    assert!(o.vertex_shader && o.pixel_shader && o.input_layout);
    let mut o = Objects::none();
    o.device = true;
    o.context = true;
    let mut results = [true; 20];
    results[16] = false;
    assert_eq!(
        run(&plan, &results, &mut o),
        Progress::Propagated(Call::CreateInputLayout(LayoutCreation { signature_from: ShaderStage::Vertex }))
    );
    assert!(!o.input_layout);
}
