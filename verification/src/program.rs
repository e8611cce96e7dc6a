//! The windowed programs: how each one starts, sets up Direct3D, draws a frame
//! and runs its message loop, with the arguments of every call.
use vstd::prelude::*;

use crate::config::{
    device_creation, device_creation_spec, requested_client_area, vertex_buffer_desc,
    vertex_buffer_desc_spec, FrameRequest, MapArgs, MapKind, PlacementKind, PresentArgs,
    ShaderCompile, ShaderStage, WindowClass, WindowCreation, WindowText, Rect,
};
use crate::msgloop::PeekStyle;
use crate::setup::{
    advance_spec, after, drive, first_stop, lemma_advance_policies, lemma_finished_run_holds, made_by, lemma_run_outcome, outcome, stops_at,
    BufferCreation, Call, LayoutCreation, Object, Objects,
    OnFailure, PlannedStep, Progress, RenderTargetBinding, ShaderBinding, ShaderCreation,
};
use crate::winproc::ProcKind;

verus! {

/// The windowed programs.
#[derive(Debug, Clone, Copy, PartialEq, Eq, Structural)]
pub enum Program {
    /// An empty window whose loop waits for messages.
    BlankWindow,
    /// A window with a Direct3D device and swap chain and a polling loop that
    /// does not draw.
    DeviceOnly,
    /// A window whose back buffer is cleared and presented on every pass.
    ClearScreen,
    /// As `ClearScreen`, with shaders and an input layout set up as well.
    ShaderPipeline,
}

/// How a program fetches its messages.
#[derive(Debug, Clone, Copy, PartialEq, Eq, Structural)]
pub enum LoopKind {
    /// Waits for each message.
    Wait,
    /// Polls the queue.
    Poll(PeekStyle),
}

pub open spec fn planned(call: Call, on_failure: OnFailure) -> PlannedStep {
    PlannedStep { call, on_failure }
}

/// A step that takes an object; the program stops when it is missing.
pub open spec fn take(o: Object) -> PlannedStep {
    PlannedStep { call: Call::Take(o), on_failure: OnFailure::Abort }
}

fn step(call: Call, on_failure: OnFailure) -> (p: PlannedStep)
    ensures
        p == planned(call, on_failure),
{
    PlannedStep { call, on_failure }
}

fn take_step(o: Object) -> (p: PlannedStep)
    ensures
        p == take(o),
{
    PlannedStep { call: Call::Take(o), on_failure: OnFailure::Abort }
}

pub open spec fn proc_kind_spec(program: Program) -> ProcKind {
    match program {
        Program::BlankWindow | Program::DeviceOnly => ProcKind::PassThrough,
        _ => ProcKind::HandleDestroy,
    }
}

/// Which window procedure the program registers.
pub fn proc_kind(program: Program) -> (k: ProcKind)
    ensures
        k == proc_kind_spec(program),
{
    match program {
        Program::BlankWindow | Program::DeviceOnly => ProcKind::PassThrough,
        _ => ProcKind::HandleDestroy,
    }
}

pub open spec fn placement_kind_spec(program: Program) -> PlacementKind {
    match program {
        Program::BlankWindow | Program::DeviceOnly => PlacementKind::FromClientArea,
        _ => PlacementKind::Fixed,
    }
}

/// How the program places its window.
pub fn placement_kind(program: Program) -> (k: PlacementKind)
    ensures
        k == placement_kind_spec(program),
{
    match program {
        Program::BlankWindow | Program::DeviceOnly => PlacementKind::FromClientArea,
        _ => PlacementKind::Fixed,
    }
}

/// The class the program registers: redrawn on a change of width or height,
/// with the program's procedure and the loaded cursor, no background brush.
pub open spec fn window_class_spec(program: Program) -> WindowClass {
    WindowClass {
        redraw_on_width: true,
        redraw_on_height: true,
        procedure: proc_kind_spec(program),
        loaded_cursor: true,
        background_brush: false,
        class_name: WindowText::ClassName,
    }
}

/// The window the program creates: no extended style, the registered class,
/// the program's title, the overlapped window style, the program's
/// placement, no parent and no menu.
pub open spec fn window_creation_spec(program: Program) -> WindowCreation {
    WindowCreation {
        ex_style: 0,
        class_name: WindowText::ClassName,
        title: if placement_kind_spec(program) == PlacementKind::Fixed {
            WindowText::FixedWindowTitle
        } else {
            WindowText::FramedWindowTitle
        },
        overlapped_window_style: true,
        placement: placement_kind_spec(program),
        parent: false,
        menu: false,
    }
}

pub open spec fn frame_request_spec() -> FrameRequest {
    FrameRequest {
        client: Rect { left: 0, top: 0, right: 500, bottom: 400 },
        overlapped_window_style: true,
        menu: false,
    }
}

pub open spec fn startup_plan_spec(program: Program) -> Seq<PlannedStep> {
    let head = seq![
        planned(Call::LoadArrowCursor, OnFailure::Propagate),
        planned(Call::RegisterWindowClass(window_class_spec(program)), OnFailure::Ignore),
    ];
    let window = seq![
        planned(Call::CreateWindow(window_creation_spec(program)), OnFailure::Propagate),
        planned(Call::ShowWindowDefault, OnFailure::Ignore),
    ];
    match program {
        Program::BlankWindow => head + seq![
            planned(Call::AdjustWindowRect(frame_request_spec()), OnFailure::Propagate),
        ] + window,
        Program::DeviceOnly => head + seq![
            planned(Call::AdjustWindowRect(frame_request_spec()), OnFailure::Propagate),
        ] + window + seq![planned(Call::InitDirect3D, OnFailure::Propagate)],
        _ => head + window + seq![planned(Call::InitDirect3D, OnFailure::Ignore)],
    }
}

/// The calls a program makes before its message loop: the arrow cursor, the
/// window class, the frame for the requested client area where the program
/// asks for one, the window, showing it, and Direct3D where the program uses
/// it.
pub fn startup_plan(program: Program) -> (plan: Vec<PlannedStep>)
    ensures
        plan@ == startup_plan_spec(program),
{
    let kind = proc_kind(program);
    let placement = placement_kind(program);
    let mut plan: Vec<PlannedStep> = Vec::new();
    plan.push(step(Call::LoadArrowCursor, OnFailure::Propagate));
    plan.push(
        step(
            Call::RegisterWindowClass(
                WindowClass {
                    redraw_on_width: true,
                    redraw_on_height: true,
                    procedure: kind,
                    loaded_cursor: true,
                    background_brush: false,
                    class_name: WindowText::ClassName,
                },
            ),
            OnFailure::Ignore,
        ),
    );
    if placement == PlacementKind::FromClientArea {
        let request = FrameRequest {
            client: requested_client_area(),
            overlapped_window_style: true,
            menu: false,
        };
        plan.push(step(Call::AdjustWindowRect(request), OnFailure::Propagate));
    }
    let title = if placement == PlacementKind::Fixed {
        WindowText::FixedWindowTitle
    } else {
        WindowText::FramedWindowTitle
    };
    plan.push(
        step(
            Call::CreateWindow(
                WindowCreation {
                    ex_style: 0,
                    class_name: WindowText::ClassName,
                    title,
                    overlapped_window_style: true,
                    placement,
                    parent: false,
                    menu: false,
                },
            ),
            OnFailure::Propagate,
        ),
    );
    plan.push(step(Call::ShowWindowDefault, OnFailure::Ignore));
    match program {
        Program::BlankWindow => {},
        Program::DeviceOnly => {
            plan.push(step(Call::InitDirect3D, OnFailure::Propagate));
        },
        _ => {
            plan.push(step(Call::InitDirect3D, OnFailure::Ignore));
        },
    }
    proof {
        assert(plan@ =~= startup_plan_spec(program));
    }
    plan
}

pub open spec fn render_target_binding() -> RenderTargetBinding {
    RenderTargetBinding { view_count: 1, view: Object::RenderTargetView, depth_stencil: false }
}

pub open spec fn clear_screen_d3d_steps(window: usize) -> Seq<PlannedStep> {
    seq![
        planned(Call::CreateDeviceAndSwapChain(device_creation_spec(window)), OnFailure::Ignore),
        take(Object::SwapChain),
        planned(Call::GetBackBuffer(0), OnFailure::Abort),
        take(Object::Device),
        planned(Call::CreateRenderTargetView, OnFailure::Abort),
        take(Object::Context),
        planned(Call::BindRenderTarget(render_target_binding()), OnFailure::Ignore),
        take(Object::Context),
        planned(Call::SetViewport, OnFailure::Ignore),
    ]
}

pub open spec fn init_d3d_plan_spec(program: Program, window: usize) -> Option<Seq<PlannedStep>> {
    match program {
        Program::BlankWindow => None,
        Program::DeviceOnly => Some(
            seq![planned(Call::CreateDeviceAndSwapChain(device_creation_spec(window)), OnFailure::Propagate)],
        ),
        Program::ClearScreen => Some(clear_screen_d3d_steps(window)),
        Program::ShaderPipeline => Some(
            clear_screen_d3d_steps(window).push(planned(Call::InitPipeline, OnFailure::Abort)),
        ),
    }
}

/// The calls that set up Direct3D for the window `window`, for the programs
/// that use it: the device, context and swap chain, then (for the drawing
/// programs) the swap chain's buffer 0, a render target view of it bound as
/// the only render target without depth-stencil view, the viewport, and the
/// pipeline.
pub fn init_d3d_plan(program: Program, window: usize) -> (plan: Option<Vec<PlannedStep>>)
    ensures
        match plan {
            Some(v) => init_d3d_plan_spec(program, window) == Some(v@) && v@.len() > 0 && (match v@[0].call {
                Call::CreateDeviceAndSwapChain(d) => d.swap_chain.output_window == window,
                _ => false,
            }),
            None => init_d3d_plan_spec(program, window) is None,
        },
{
    match program {
        Program::BlankWindow => None,
        Program::DeviceOnly => {
            let mut plan: Vec<PlannedStep> = Vec::new();
            plan.push(step(Call::CreateDeviceAndSwapChain(device_creation(window)), OnFailure::Propagate));
            proof {
                assert(plan@ =~= seq![
                    planned(Call::CreateDeviceAndSwapChain(device_creation_spec(window)), OnFailure::Propagate),
                ]);
            }
            Some(plan)
        },
        _ => {
            let mut plan: Vec<PlannedStep> = Vec::new();
            plan.push(step(Call::CreateDeviceAndSwapChain(device_creation(window)), OnFailure::Ignore));
            plan.push(take_step(Object::SwapChain));
            plan.push(step(Call::GetBackBuffer(0), OnFailure::Abort));
            plan.push(take_step(Object::Device));
            plan.push(step(Call::CreateRenderTargetView, OnFailure::Abort));
            plan.push(take_step(Object::Context));
            plan.push(
                step(
                    Call::BindRenderTarget(
                        RenderTargetBinding {
                            view_count: 1,
                            view: Object::RenderTargetView,
                            depth_stencil: false,
                        },
                    ),
                    OnFailure::Ignore,
                ),
            );
            plan.push(take_step(Object::Context));
            plan.push(step(Call::SetViewport, OnFailure::Ignore));
            proof {
                assert(plan@ =~= clear_screen_d3d_steps(window));
            }
            if program == Program::ShaderPipeline {
                plan.push(step(Call::InitPipeline, OnFailure::Abort));
            }
            Some(plan)
        },
    }
}

pub open spec fn compile(stage: ShaderStage) -> ShaderCompile {
    ShaderCompile {
        stage,
        defines: false,
        include_handler: false,
        flags1: 0,
        flags2: 0,
        error_messages: false,
    }
}

pub open spec fn init_pipeline_plan_spec() -> Seq<PlannedStep> {
    seq![
        planned(Call::ReportWorkingDirectory, OnFailure::Abort),
        planned(Call::CompileShader(compile(ShaderStage::Pixel)), OnFailure::Abort),
        planned(Call::CompileShader(compile(ShaderStage::Vertex)), OnFailure::Abort),
        take(Object::VertexShaderCode),
        take(Object::PixelShaderCode),
        take(Object::Device),
        planned(Call::CreateShader(ShaderCreation { stage: ShaderStage::Vertex, class_linkage: false }), OnFailure::Abort),
        take(Object::Device),
        planned(Call::CreateShader(ShaderCreation { stage: ShaderStage::Pixel, class_linkage: false }), OnFailure::Abort),
        take(Object::Context),
        take(Object::VertexShader),
        planned(Call::BindShader(ShaderBinding { stage: ShaderStage::Vertex, class_instances: false }), OnFailure::Ignore),
        take(Object::Context),
        take(Object::PixelShader),
        planned(Call::BindShader(ShaderBinding { stage: ShaderStage::Pixel, class_instances: false }), OnFailure::Ignore),
        take(Object::Device),
        planned(Call::CreateInputLayout(LayoutCreation { signature_from: ShaderStage::Vertex }), OnFailure::Propagate),
        take(Object::Context),
        take(Object::InputLayout),
        planned(Call::BindInputLayout, OnFailure::Ignore),
    ]
}

fn compile_call(stage: ShaderStage) -> (c: Call)
    ensures
        c == Call::CompileShader(compile(stage)),
{
    Call::CompileShader(
        ShaderCompile {
            stage,
            defines: false,
            include_handler: false,
            flags1: 0,
            flags2: 0,
            error_messages: false,
        },
    )
}

/// The calls that build the shader pipeline: print the working directory,
/// compile the pixel and then the vertex shader (no macros, no include
/// handler, flags 0), create both shaders from their code without class
/// linkage, bind both without class instances, create the input layout with
/// the vertex shader's code as signature, and bind it; the device, context
/// and each object a call uses are taken first. Only the input layout's
/// failure goes to the caller; every other failure stops the program.
pub fn init_pipeline_plan() -> (plan: Vec<PlannedStep>)
    ensures
        plan@ == init_pipeline_plan_spec(),
{
    let mut plan: Vec<PlannedStep> = Vec::new();
    plan.push(step(Call::ReportWorkingDirectory, OnFailure::Abort));
    plan.push(step(compile_call(ShaderStage::Pixel), OnFailure::Abort));
    plan.push(step(compile_call(ShaderStage::Vertex), OnFailure::Abort));
    plan.push(take_step(Object::VertexShaderCode));
    plan.push(take_step(Object::PixelShaderCode));
    plan.push(take_step(Object::Device));
    plan.push(
        step(
            Call::CreateShader(ShaderCreation { stage: ShaderStage::Vertex, class_linkage: false }),
            OnFailure::Abort,
        ),
    );
    plan.push(take_step(Object::Device));
    plan.push(
        step(
            Call::CreateShader(ShaderCreation { stage: ShaderStage::Pixel, class_linkage: false }),
            OnFailure::Abort,
        ),
    );
    plan.push(take_step(Object::Context));
    plan.push(take_step(Object::VertexShader));
    plan.push(
        step(
            Call::BindShader(ShaderBinding { stage: ShaderStage::Vertex, class_instances: false }),
            OnFailure::Ignore,
        ),
    );
    plan.push(take_step(Object::Context));
    plan.push(take_step(Object::PixelShader));
    plan.push(
        step(
            Call::BindShader(ShaderBinding { stage: ShaderStage::Pixel, class_instances: false }),
            OnFailure::Ignore,
        ),
    );
    plan.push(take_step(Object::Device));
    plan.push(
        step(
            Call::CreateInputLayout(LayoutCreation { signature_from: ShaderStage::Vertex }),
            OnFailure::Propagate,
        ),
    );
    plan.push(take_step(Object::Context));
    plan.push(take_step(Object::InputLayout));
    plan.push(step(Call::BindInputLayout, OnFailure::Ignore));
    proof {
        assert(plan@ =~= init_pipeline_plan_spec());
    }
    plan
}

pub open spec fn map_args() -> MapArgs {
    MapArgs { subresource: 0, kind: MapKind::WriteDiscard, flags: 0 }
}

pub open spec fn init_graphics_plan_spec() -> Seq<PlannedStep> {
    seq![
        take(Object::Device),
        planned(
            Call::CreateVertexBuffer(BufferCreation { desc: vertex_buffer_desc_spec(), initial_data: false }),
            OnFailure::Ignore,
        ),
        take(Object::VertexBuffer),
        take(Object::Context),
        planned(Call::MapVertexBuffer(map_args()), OnFailure::Ignore),
        take(Object::Context),
        planned(Call::UnmapVertexBuffer(0), OnFailure::Ignore),
    ]
}

/// The calls that fill the vertex buffer: with the device, create it from
/// `config::vertex_buffer_desc` without initial data (its failure is not
/// looked at); take it; with the context, map its subresource 0 for writing
/// with discard (its failure is not looked at) and unmap it.
pub fn init_graphics_plan() -> (plan: Vec<PlannedStep>)
    ensures
        plan@ == init_graphics_plan_spec(),
{
    let mut plan: Vec<PlannedStep> = Vec::new();
    plan.push(take_step(Object::Device));
    plan.push(
        step(
            Call::CreateVertexBuffer(BufferCreation { desc: vertex_buffer_desc(), initial_data: false }),
            OnFailure::Ignore,
        ),
    );
    plan.push(take_step(Object::VertexBuffer));
    plan.push(take_step(Object::Context));
    plan.push(
        step(
            Call::MapVertexBuffer(MapArgs { subresource: 0, kind: MapKind::WriteDiscard, flags: 0 }),
            OnFailure::Ignore,
        ),
    );
    plan.push(take_step(Object::Context));
    plan.push(step(Call::UnmapVertexBuffer(0), OnFailure::Ignore));
    proof {
        assert(plan@ =~= init_graphics_plan_spec());
    }
    plan
}

pub open spec fn render_frame_plan_spec() -> Seq<PlannedStep> {
    seq![
        take(Object::Context),
        take(Object::RenderTargetView),
        planned(Call::ClearRenderTarget, OnFailure::Ignore),
        take(Object::SwapChain),
        planned(Call::Present(PresentArgs { sync_interval: 0, flags: 0 }), OnFailure::Ignore),
    ]
}

/// The calls that draw one frame: take the context and the render target view
/// and clear the view, take the swap chain and present with sync interval 0
/// and no flags (its failure is not looked at). The same every frame.
pub fn render_frame_plan() -> (plan: Vec<PlannedStep>)
    ensures
        plan@ == render_frame_plan_spec(),
{
    let mut plan: Vec<PlannedStep> = Vec::new();
    plan.push(take_step(Object::Context));
    plan.push(take_step(Object::RenderTargetView));
    plan.push(step(Call::ClearRenderTarget, OnFailure::Ignore));
    plan.push(take_step(Object::SwapChain));
    plan.push(step(Call::Present(PresentArgs { sync_interval: 0, flags: 0 }), OnFailure::Ignore));
    proof {
        assert(plan@ =~= render_frame_plan_spec());
    }
    plan
}

/// The message the program stops with when this call fails, where it names
/// one.
pub fn abort_message(call: Call) -> (m: Option<&'static str>)
    ensures
        call == Call::InitPipeline ==> m is Some && m->0@ == "init pip err"@,
        call is CompileShader ==> m is Some && m->0@ == "compile failed"@,
        call == Call::CreateShader(ShaderCreation { stage: ShaderStage::Vertex, class_linkage: false })
            ==> m is Some && m->0@ == "CreateVertexShader err"@,
        call == Call::CreateShader(ShaderCreation { stage: ShaderStage::Pixel, class_linkage: false })
            ==> m is Some && m->0@ == "CreatePixelShader err"@,
        !(call == Call::InitPipeline || call is CompileShader || call is CreateShader) ==> m is None,
{
    match call {
        Call::InitPipeline => Some("init pip err"),
        Call::CompileShader(_) => Some("compile failed"),
        Call::CreateShader(c) => match c.stage {
            ShaderStage::Vertex => Some("CreateVertexShader err"),
            ShaderStage::Pixel => Some("CreatePixelShader err"),
        },
        _ => None,
    }
}

pub open spec fn loop_kind_spec(program: Program) -> LoopKind {
    match program {
        Program::BlankWindow => LoopKind::Wait,
        Program::DeviceOnly => LoopKind::Poll(PeekStyle::MessagesOnly),
        _ => LoopKind::Poll(PeekStyle::RenderEachPass),
    }
}

/// How the program fetches messages: the empty window waits, the device-only
/// program polls without drawing, the drawing programs poll and draw.
pub fn loop_kind(program: Program) -> (k: LoopKind)
    ensures
        k == loop_kind_spec(program),
{
    match program {
        Program::BlankWindow => LoopKind::Wait,
        Program::DeviceOnly => LoopKind::Poll(PeekStyle::MessagesOnly),
        _ => LoopKind::Poll(PeekStyle::RenderEachPass),
    }
}

/// Whether the program runs its clean-up after the message loop (only the
/// device-only program does).
pub fn cleans_up_after_loop(program: Program) -> (b: bool)
    ensures
        b == (program == Program::DeviceOnly),
{
    match program {
        Program::DeviceOnly => true,
        _ => false,
    }
}

/// Direct3D set-up of the device-only program ends with the device's error
/// handed to the caller exactly when creating the device fails, and finishes
/// otherwise; that of the drawing programs never hands an error to the
/// caller: it finishes or stops the program.
pub proof fn lemma_d3d_setup_outcomes(program: Program, window: usize, results: Seq<bool>, objects: Objects)
    requires
        init_d3d_plan_spec(program, window) is Some,
        results.len() == init_d3d_plan_spec(program, window)->0.len(),
    ensures
        program == Program::DeviceOnly ==> outcome(init_d3d_plan_spec(program, window)->0, results, objects)
            == if results[0] {
            Progress::Finished
        } else {
            Progress::Propagated(Call::CreateDeviceAndSwapChain(device_creation_spec(window)))
        },
        program != Program::DeviceOnly ==> !(outcome(init_d3d_plan_spec(program, window)->0, results, objects) is Propagated),
{
    let plan = init_d3d_plan_spec(program, window)->0;
    lemma_run_outcome(plan, results, objects);
    if program == Program::DeviceOnly {
        if !results[0] {
            assert(first_stop(plan, results, objects, 0));
        } else {
            assert(!stops_at(plan, results, objects, 0));
        }
    } else if exists|k: int| first_stop(plan, results, objects, k) {
        let k = choose|k: int| first_stop(plan, results, objects, k);
        assert(plan[k].on_failure != OnFailure::Propagate);
    }
}

/// A finished Direct3D set-up of a drawing program leaves the swap chain, the
/// context and the render target view in place, from whatever objects it
/// started.
pub proof fn lemma_setup_leaves_frame_objects(program: Program, window: usize, results: Seq<bool>, objects: Objects)
    requires
        program == Program::ClearScreen || program == Program::ShaderPipeline,
        results.len() == init_d3d_plan_spec(program, window)->0.len(),
        drive(init_d3d_plan_spec(program, window)->0, results, 0, objects).0 == Progress::Finished,
    ensures
        ({
            let o = drive(init_d3d_plan_spec(program, window)->0, results, 0, objects).1;
            o.holds(Object::SwapChain) && o.holds(Object::Context) && o.holds(Object::RenderTargetView)
        }),
{
    let plan = init_d3d_plan_spec(program, window)->0;
    assert(plan[1] == take(Object::SwapChain));
    assert(plan[4] == planned(Call::CreateRenderTargetView, OnFailure::Abort));
    assert(plan[5] == take(Object::Context));
    lemma_finished_run_holds(plan, results, 0, objects, 1, Object::SwapChain);
    lemma_finished_run_holds(plan, results, 0, objects, 4, Object::RenderTargetView);
    lemma_finished_run_holds(plan, results, 0, objects, 5, Object::Context);
}

/// Drawing a frame never hands an error to the caller: with the context, the
/// render target view and the swap chain in place it finishes, whatever the
/// present call gives, and leaves the objects as they were (so the next frame
/// finishes too); otherwise it stops at the take of the first of them that is
/// missing, in the order context, view, swap chain.
pub proof fn lemma_render_frame_outcome(results: Seq<bool>, objects: Objects)
    requires
        results.len() == 5,
    ensures
        objects.holds(Object::Context) && objects.holds(Object::RenderTargetView) && objects.holds(
            Object::SwapChain,
        ) ==> drive(render_frame_plan_spec(), results, 0, objects) == (Progress::Finished, objects),
        !objects.holds(Object::Context) ==> drive(render_frame_plan_spec(), results, 0, objects).0
            == Progress::Aborted(Call::Take(Object::Context)),
        objects.holds(Object::Context) && !objects.holds(Object::RenderTargetView) ==> drive(
            render_frame_plan_spec(),
            results,
            0,
            objects,
        ).0 == Progress::Aborted(Call::Take(Object::RenderTargetView)),
        objects.holds(Object::Context) && objects.holds(Object::RenderTargetView) && !objects.holds(
            Object::SwapChain,
        ) ==> drive(render_frame_plan_spec(), results, 0, objects).0 == Progress::Aborted(
            Call::Take(Object::SwapChain),
        ),
{
    let plan = render_frame_plan_spec();
    let o2 = after(objects, plan[2].call, results[2]);
    let o4 = after(objects, plan[4].call, results[4]);
    assert(o2 == objects);
    assert(o4 == objects);
    assert(plan[0] == take(Object::Context));
    assert(plan[1] == take(Object::RenderTargetView));
    assert(plan[3] == take(Object::SwapChain));
    if objects.holds(Object::Context) {
        assert(drive(plan, results, 0, objects) == drive(plan, results, 1, objects));
        if objects.holds(Object::RenderTargetView) {
            assert(drive(plan, results, 1, objects) == drive(plan, results, 2, objects));
            assert(drive(plan, results, 2, objects) == drive(plan, results, 3, o2));
            if objects.holds(Object::SwapChain) {
                assert(drive(plan, results, 3, objects) == drive(plan, results, 4, objects));
                assert(drive(plan, results, 4, objects) == drive(plan, results, 5, o4));
                assert(drive(plan, results, 5, objects) == (Progress::Finished, objects));
            } else {
                assert(drive(plan, results, 3, objects).0 == Progress::Aborted(Call::Take(Object::SwapChain)));
            }
        } else {
            assert(drive(plan, results, 1, objects).0 == Progress::Aborted(Call::Take(Object::RenderTargetView)));
        }
    }
}

/// After a finished Direct3D set-up of a drawing program, every frame
/// finishes, from the objects the set-up left or any that hold at least those
/// (objects are never lost, so the pipeline set-up run inside it and every
/// earlier frame only add to them).
pub proof fn lemma_frames_finish_after_setup(
    program: Program,
    window: usize,
    results: Seq<bool>,
    objects: Objects,
    later: Objects,
    frame_results: Seq<bool>,
)
    requires
        program == Program::ClearScreen || program == Program::ShaderPipeline,
        results.len() == init_d3d_plan_spec(program, window)->0.len(),
        drive(init_d3d_plan_spec(program, window)->0, results, 0, objects).0 == Progress::Finished,
        forall|x: Object| #[trigger] drive(init_d3d_plan_spec(program, window)->0, results, 0, objects).1.holds(x)
            ==> later.holds(x),
        frame_results.len() == 5,
    ensures
        drive(render_frame_plan_spec(), frame_results, 0, later) == (Progress::Finished, later),
{
    lemma_setup_leaves_frame_objects(program, window, results, objects);
    let o = drive(init_d3d_plan_spec(program, window)->0, results, 0, objects).1;
    assert(o.holds(Object::Context) ==> later.holds(Object::Context));
    assert(o.holds(Object::SwapChain) ==> later.holds(Object::SwapChain));
    assert(o.holds(Object::RenderTargetView) ==> later.holds(Object::RenderTargetView));
    lemma_render_frame_outcome(frame_results, later);
}

/// A finished pipeline set-up leaves the vertex shader, the pixel shader and
/// the input layout in place, from whatever objects it started; these are the
/// objects that the shader program's Direct3D set-up counts as made by its
/// pipeline step.
pub proof fn lemma_pipeline_leaves_objects(results: Seq<bool>, objects: Objects)
    requires
        results.len() == init_pipeline_plan_spec().len(),
        drive(init_pipeline_plan_spec(), results, 0, objects).0 == Progress::Finished,
    ensures
        ({
            let o = drive(init_pipeline_plan_spec(), results, 0, objects).1;
            &&& o.holds(Object::VertexShader)
            &&& o.holds(Object::PixelShader)
            &&& o.holds(Object::InputLayout)
            &&& forall|x: Object| made_by(Call::InitPipeline, x) ==> o.holds(x)
        }),
{
    let plan = init_pipeline_plan_spec();
    assert(plan[6].call is CreateShader && plan[6].on_failure == OnFailure::Abort);
    assert(plan[8].call is CreateShader && plan[8].on_failure == OnFailure::Abort);
    assert(plan[18] == take(Object::InputLayout));
    assert(made_by(plan[6].call, Object::VertexShader));
    assert(made_by(plan[8].call, Object::PixelShader));
    lemma_finished_run_holds(plan, results, 0, objects, 6, Object::VertexShader);
    lemma_finished_run_holds(plan, results, 0, objects, 8, Object::PixelShader);
    lemma_finished_run_holds(plan, results, 0, objects, 18, Object::InputLayout);
}

/// A finished Direct3D set-up of the shader program leaves the vertex shader,
/// the pixel shader and the input layout in place, besides the swap chain, the
/// context and the render target view.
pub proof fn lemma_shader_setup_leaves_pipeline(window: usize, results: Seq<bool>, objects: Objects)
    requires
        results.len() == init_d3d_plan_spec(Program::ShaderPipeline, window)->0.len(),
        drive(init_d3d_plan_spec(Program::ShaderPipeline, window)->0, results, 0, objects).0
            == Progress::Finished,
    ensures
        ({
            let o = drive(init_d3d_plan_spec(Program::ShaderPipeline, window)->0, results, 0, objects).1;
            &&& o.holds(Object::VertexShader)
            &&& o.holds(Object::PixelShader)
            &&& o.holds(Object::InputLayout)
            &&& o.holds(Object::SwapChain)
            &&& o.holds(Object::Context)
            &&& o.holds(Object::RenderTargetView)
        }),
{
    let plan = init_d3d_plan_spec(Program::ShaderPipeline, window)->0;
    assert(plan[9] == planned(Call::InitPipeline, OnFailure::Abort));
    lemma_finished_run_holds(plan, results, 0, objects, 9, Object::VertexShader);
    lemma_finished_run_holds(plan, results, 0, objects, 9, Object::PixelShader);
    lemma_finished_run_holds(plan, results, 0, objects, 9, Object::InputLayout);
    lemma_setup_leaves_frame_objects(Program::ShaderPipeline, window, results, objects);
}

/// When the device-only program's Direct3D set-up fails, the start-up ends
/// handing that error to the caller, whatever objects exist; the drawing
/// programs go on past a failed set-up.
pub proof fn lemma_startup_d3d_failure(program: Program, objects: Objects)
    requires
        program != Program::BlankWindow,
    ensures
        ({
            let plan = startup_plan_spec(program);
            let at = plan.len() - 1;
            &&& plan[at].call == Call::InitDirect3D
            &&& program == Program::DeviceOnly ==> advance_spec(plan, at, objects, false).0
                == Progress::Propagated(Call::InitDirect3D)
            &&& program != Program::DeviceOnly ==> advance_spec(plan, at, objects, false).0
                == Progress::Finished
        }),
{
    let plan = startup_plan_spec(program);
    lemma_advance_policies(plan, plan.len() - 1, objects);
}

/// For every program that uses Direct3D and every window, the set-up starts
/// by creating the device and a swap chain that presents to that window; and
/// the window appears nowhere else in the plan: set-ups for two windows differ
/// only in that output window.
pub proof fn lemma_d3d_plan_presents_to_window(program: Program, window: usize, other: usize)
    requires
        program != Program::BlankWindow,
    ensures
        init_d3d_plan_spec(program, window) is Some,
        ({
            let plan = init_d3d_plan_spec(program, window)->0;
            &&& plan.len() > 0
            &&& match plan[0].call {
                Call::CreateDeviceAndSwapChain(d) => d.swap_chain.output_window == window && d
                    == device_creation_spec(window),
                _ => false,
            }
            &&& init_d3d_plan_spec(program, other)->0.len() == plan.len()
            &&& forall|i: int| 1 <= i < plan.len() ==> init_d3d_plan_spec(program, other)->0[i] == plan[i]
        }),
{
    crate::config::lemma_device_creation_window(window);
}

} // verus!
