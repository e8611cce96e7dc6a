//! The calls that start the programs, set up Direct3D and draw a frame, with
//! their arguments; which Direct3D objects exist; and what each call does to
//! the run when it fails: go on, hand the error to the caller, or stop the
//! program.
use vstd::prelude::*;

use crate::config::{
    BufferDesc, DeviceCreation, FrameRequest, MapArgs, PresentArgs, ShaderCompile, ShaderStage,
    WindowClass, WindowCreation,
};

verus! {

/// An object the programs keep once a call has made it.
#[derive(Debug, Clone, Copy, PartialEq, Eq, Structural)]
pub enum Object {
    SwapChain,
    Device,
    Context,
    /// The swap chain's buffer 0, as a 2-D texture.
    BackBuffer,
    /// The render target view of the back buffer.
    RenderTargetView,
    VertexBuffer,
    /// Compiled code of the pixel shader.
    PixelShaderCode,
    /// Compiled code of the vertex shader.
    VertexShaderCode,
    PixelShader,
    VertexShader,
    InputLayout,
}

/// Which objects exist.
#[derive(Debug, Clone, Copy, PartialEq, Eq, Structural)]
pub struct Objects {
    pub swap_chain: bool,
    pub device: bool,
    pub context: bool,
    pub back_buffer: bool,
    pub render_target_view: bool,
    pub vertex_buffer: bool,
    pub pixel_shader_code: bool,
    pub vertex_shader_code: bool,
    pub pixel_shader: bool,
    pub vertex_shader: bool,
    pub input_layout: bool,
}

/// How the render target is bound to the output stage.
#[derive(Debug, Clone, Copy, PartialEq, Eq, Structural)]
pub struct RenderTargetBinding {
    /// Number of render target views bound.
    pub view_count: u32,
    /// The view bound.
    pub view: Object,
    /// A depth-stencil view is bound.
    pub depth_stencil: bool,
}

/// Creating a shader from its compiled code.
#[derive(Debug, Clone, Copy, PartialEq, Eq, Structural)]
pub struct ShaderCreation {
    pub stage: ShaderStage,
    /// A class linkage is given.
    pub class_linkage: bool,
}

/// Binding a created shader to its stage.
#[derive(Debug, Clone, Copy, PartialEq, Eq, Structural)]
pub struct ShaderBinding {
    pub stage: ShaderStage,
    /// Class instances are given.
    pub class_instances: bool,
}

/// Creating the input layout (its elements are `config::input_layout`).
#[derive(Debug, Clone, Copy, PartialEq, Eq, Structural)]
pub struct LayoutCreation {
    /// The stage whose compiled code gives the input signature.
    pub signature_from: ShaderStage,
}

/// Creating a buffer.
#[derive(Debug, Clone, Copy, PartialEq, Eq, Structural)]
pub struct BufferCreation {
    pub desc: BufferDesc,
    /// Initial contents are given.
    pub initial_data: bool,
}

/// A call made while starting up or drawing, with its arguments.
#[derive(Debug, Clone, Copy, PartialEq, Eq, Structural)]
pub enum Call {
    /// Load the system's arrow cursor (null instance).
    LoadArrowCursor,
    RegisterWindowClass(WindowClass),
    /// Grow a client rectangle to the window's frame.
    AdjustWindowRect(FrameRequest),
    CreateWindow(WindowCreation),
    /// Show the window with the default show command.
    ShowWindowDefault,
    /// Run the Direct3D set-up of the program.
    InitDirect3D,
    CreateDeviceAndSwapChain(DeviceCreation),
    /// Get this buffer of the swap chain as a 2-D texture.
    GetBackBuffer(u32),
    /// Create a render target view of the back buffer, with no view
    /// description.
    CreateRenderTargetView,
    BindRenderTarget(RenderTargetBinding),
    /// Set the viewport (its extent is given in floats by the caller).
    SetViewport,
    /// Run the pipeline set-up.
    InitPipeline,
    /// Print the working directory line (`config::working_directory_line`).
    ReportWorkingDirectory,
    CompileShader(ShaderCompile),
    CreateShader(ShaderCreation),
    BindShader(ShaderBinding),
    CreateInputLayout(LayoutCreation),
    /// Bind the created input layout.
    BindInputLayout,
    CreateVertexBuffer(BufferCreation),
    MapVertexBuffer(MapArgs),
    /// Unmap this subresource of the vertex buffer.
    UnmapVertexBuffer(u32),
    /// Clear the render target view (to a colour the caller gives in floats).
    ClearRenderTarget,
    Present(PresentArgs),
    /// Take an object that a later call uses; the program stops when it does
    /// not exist. The library decides this step itself.
    Take(Object),
}

/// What a failure of a call does to the run.
#[derive(Debug, Clone, Copy, PartialEq, Eq, Structural)]
pub enum OnFailure {
    /// The failure is not looked at; the next call follows.
    Ignore,
    /// The run ends and the error goes to the caller.
    Propagate,
    /// The program stops (the call's result is unwrapped).
    Abort,
}

#[derive(Debug, Clone, Copy, PartialEq, Eq, Structural)]
pub struct PlannedStep {
    pub call: Call,
    pub on_failure: OnFailure,
}

/// Where a run stands.
#[derive(Debug, Clone, Copy, PartialEq, Eq, Structural)]
pub enum Progress {
    /// Make the call at this index next and report whether it succeeded.
    Perform(usize),
    /// Every call was made.
    Finished,
    /// This call failed and its error goes to the caller.
    Propagated(Call),
    /// This call failed, or took an object that does not exist, and the
    /// program stops.
    Aborted(Call),
}

impl Objects {
    pub open spec fn holds(self, o: Object) -> bool {
        match o {
            Object::SwapChain => self.swap_chain,
            Object::Device => self.device,
            Object::Context => self.context,
            Object::BackBuffer => self.back_buffer,
            Object::RenderTargetView => self.render_target_view,
            Object::VertexBuffer => self.vertex_buffer,
            Object::PixelShaderCode => self.pixel_shader_code,
            Object::VertexShaderCode => self.vertex_shader_code,
            Object::PixelShader => self.pixel_shader,
            Object::VertexShader => self.vertex_shader,
            Object::InputLayout => self.input_layout,
        }
    }

    /// No object exists.
    pub fn none() -> (o: Objects)
        ensures
            forall|x: Object| !o.holds(x),
    {
        Objects {
            swap_chain: false,
            device: false,
            context: false,
            back_buffer: false,
            render_target_view: false,
            vertex_buffer: false,
            pixel_shader_code: false,
            vertex_shader_code: false,
            pixel_shader: false,
            vertex_shader: false,
            input_layout: false,
        }
    }

    /// Whether the object exists.
    pub fn has(&self, o: Object) -> (b: bool)
        ensures
            b == self.holds(o),
    {
        match o {
            Object::SwapChain => self.swap_chain,
            Object::Device => self.device,
            Object::Context => self.context,
            Object::BackBuffer => self.back_buffer,
            Object::RenderTargetView => self.render_target_view,
            Object::VertexBuffer => self.vertex_buffer,
            Object::PixelShaderCode => self.pixel_shader_code,
            Object::VertexShaderCode => self.vertex_shader_code,
            Object::PixelShader => self.pixel_shader,
            Object::VertexShader => self.vertex_shader,
            Object::InputLayout => self.input_layout,
        }
    }
}

/// The objects a call makes when it succeeds: the device creation makes the
/// swap chain, the device and the context; a pipeline set-up that succeeded
/// leaves both shaders and the input layout; the other creating calls make the
/// object they are named after.
pub open spec fn made_by(call: Call, o: Object) -> bool {
    match call {
        Call::CreateDeviceAndSwapChain(_) => o == Object::SwapChain || o == Object::Device || o
            == Object::Context,
        Call::GetBackBuffer(_) => o == Object::BackBuffer,
        Call::CreateRenderTargetView => o == Object::RenderTargetView,
        Call::CreateVertexBuffer(_) => o == Object::VertexBuffer,
        Call::CompileShader(c) => o == if c.stage == ShaderStage::Pixel {
            Object::PixelShaderCode
        } else {
            Object::VertexShaderCode
        },
        Call::CreateShader(c) => o == if c.stage == ShaderStage::Pixel {
            Object::PixelShader
        } else {
            Object::VertexShader
        },
        Call::CreateInputLayout(_) => o == Object::InputLayout,
        Call::InitPipeline => o == Object::VertexShader || o == Object::PixelShader || o
            == Object::InputLayout,
        _ => false,
    }
}

/// The objects after a call: those before, and, when it succeeded, those it
/// makes.
pub open spec fn after(objects: Objects, call: Call, succeeded: bool) -> Objects {
    if !succeeded {
        objects
    } else {
        Objects {
            swap_chain: objects.swap_chain || made_by(call, Object::SwapChain),
            device: objects.device || made_by(call, Object::Device),
            context: objects.context || made_by(call, Object::Context),
            back_buffer: objects.back_buffer || made_by(call, Object::BackBuffer),
            render_target_view: objects.render_target_view || made_by(
                call,
                Object::RenderTargetView,
            ),
            vertex_buffer: objects.vertex_buffer || made_by(call, Object::VertexBuffer),
            pixel_shader_code: objects.pixel_shader_code || made_by(call, Object::PixelShaderCode),
            vertex_shader_code: objects.vertex_shader_code || made_by(
                call,
                Object::VertexShaderCode,
            ),
            pixel_shader: objects.pixel_shader || made_by(call, Object::PixelShader),
            vertex_shader: objects.vertex_shader || made_by(call, Object::VertexShader),
            input_layout: objects.input_layout || made_by(call, Object::InputLayout),
        }
    }
}

fn record(objects: &mut Objects, call: Call, succeeded: bool)
    ensures
        *final(objects) == after(*old(objects), call, succeeded),
{
    if succeeded {
        match call {
            Call::CreateDeviceAndSwapChain(_) => {
                objects.swap_chain = true;
                objects.device = true;
                objects.context = true;
            },
            Call::GetBackBuffer(_) => {
                objects.back_buffer = true;
            },
            Call::CreateRenderTargetView => {
                objects.render_target_view = true;
            },
            Call::CreateVertexBuffer(_) => {
                objects.vertex_buffer = true;
            },
            Call::CompileShader(c) => match c.stage {
                ShaderStage::Pixel => {
                    objects.pixel_shader_code = true;
                },
                ShaderStage::Vertex => {
                    objects.vertex_shader_code = true;
                },
            },
            Call::CreateShader(c) => match c.stage {
                ShaderStage::Pixel => {
                    objects.pixel_shader = true;
                },
                ShaderStage::Vertex => {
                    objects.vertex_shader = true;
                },
            },
            Call::CreateInputLayout(_) => {
                objects.input_layout = true;
            },
            Call::InitPipeline => {
                objects.vertex_shader = true;
                objects.pixel_shader = true;
                objects.input_layout = true;
            },
            _ => {},
        }
    }
}

/// Whether a made call with this result ends the run.
pub open spec fn ends_run(p: PlannedStep, succeeded: bool) -> bool {
    !succeeded && p.on_failure != OnFailure::Ignore
}

/// How a run ends at a made call that ends it.
pub open spec fn failure_of(p: PlannedStep) -> Progress {
    if p.on_failure == OnFailure::Propagate {
        Progress::Propagated(p.call)
    } else {
        Progress::Aborted(p.call)
    }
}

/// From index `i` on, the take steps are settled against `objects`: the run
/// stops at a take of a missing object, goes past a take of an existing one,
/// and otherwise waits for the call at the first other step, or finishes.
pub open spec fn settle(plan: Seq<PlannedStep>, i: int, objects: Objects) -> Progress
    decreases plan.len() - i,
{
    if i < 0 || i >= plan.len() {
        Progress::Finished
    } else {
        match plan[i].call {
            Call::Take(o) => if objects.holds(o) {
                settle(plan, i + 1, objects)
            } else {
                Progress::Aborted(plan[i].call)
            },
            _ => Progress::Perform(i as usize),
        }
    }
}

/// Where the run stands, and which objects exist, after the call at `at`
/// gave `succeeded`.
pub open spec fn advance_spec(plan: Seq<PlannedStep>, at: int, objects: Objects, succeeded: bool) -> (
    Progress,
    Objects,
) {
    let o = after(objects, plan[at].call, succeeded);
    if ends_run(plan[at], succeeded) {
        (failure_of(plan[at]), o)
    } else {
        (settle(plan, at + 1, o), o)
    }
}

fn settle_exec(plan: &Vec<PlannedStep>, from: usize, objects: &Objects) -> (p: Progress)
    requires
        from <= plan.len(),
    ensures
        p == settle(plan@, from as int, *objects),
{
    let mut i = from;
    while i < plan.len()
        invariant
            from <= i <= plan.len(),
            settle(plan@, from as int, *objects) == settle(plan@, i as int, *objects),
        decreases plan.len() - i,
    {
        match plan[i].call {
            Call::Take(o) => {
                if !objects.has(o) {
                    return Progress::Aborted(plan[i].call);
                }
            },
            _ => {
                return Progress::Perform(i);
            },
        }
        i = i + 1;
    }
    Progress::Finished
}

/// Where a run of the plan stands before any call, given the objects that exist.
pub fn start(plan: &Vec<PlannedStep>, objects: &Objects) -> (p: Progress)
    ensures
        p == settle(plan@, 0, *objects),
{
    settle_exec(plan, 0, objects)
}

/// Where a run of the plan stands after the call at `at` gave `succeeded`;
/// `objects` is updated with what the call made.
pub fn advance(plan: &Vec<PlannedStep>, at: usize, objects: &mut Objects, succeeded: bool) -> (p:
    Progress)
    requires
        at < plan.len(),
    ensures
        (p, *final(objects)) == advance_spec(plan@, at as int, *old(objects), succeeded),
{
    let planned = plan[at];
    record(objects, planned.call, succeeded);
    if !succeeded {
        match planned.on_failure {
            OnFailure::Propagate => {
                return Progress::Propagated(planned.call);
            },
            OnFailure::Abort => {
                return Progress::Aborted(planned.call);
            },
            OnFailure::Ignore => {},
        }
    }
    settle_exec(plan, at + 1, objects)
}

/// The run of a plan from step `i`, the call at each step giving `results` at
/// that index: where it ends and which objects exist then.
pub open spec fn drive(plan: Seq<PlannedStep>, results: Seq<bool>, i: int, objects: Objects) -> (
    Progress,
    Objects,
)
    decreases plan.len() - i,
{
    if i < 0 || i >= plan.len() {
        (Progress::Finished, objects)
    } else {
        match plan[i].call {
            Call::Take(o) => if objects.holds(o) {
                drive(plan, results, i + 1, objects)
            } else {
                (Progress::Aborted(plan[i].call), objects)
            },
            _ => {
                let o2 = after(objects, plan[i].call, results[i]);
                if ends_run(plan[i], results[i]) {
                    (failure_of(plan[i]), o2)
                } else {
                    drive(plan, results, i + 1, o2)
                }
            },
        }
    }
}

/// Driving a run with `start` and `advance` follows `drive`: settling from
/// step `i` either ends the run as `drive` does, or stops at a call from which
/// `drive` goes the same way; and advancing past that call with its result
/// again ends as `drive` does or leads to the next such call.
pub proof fn lemma_driving_follows_drive(
    plan: Seq<PlannedStep>,
    results: Seq<bool>,
    i: int,
    objects: Objects,
)
    requires
        0 <= i,
        results.len() == plan.len(),
        plan.len() <= usize::MAX,
    ensures
        match settle(plan, i, objects) {
            Progress::Perform(j) => i <= j < plan.len() && !(plan[j as int].call is Take) && drive(
                plan,
                results,
                i,
                objects,
            ) == drive(plan, results, j as int, objects) && ({
                let (p2, o2) = advance_spec(plan, j as int, objects, results[j as int]);
                match p2 {
                    Progress::Perform(_) => drive(plan, results, j as int, objects) == drive(
                        plan,
                        results,
                        j + 1,
                        o2,
                    ) && settle(plan, j + 1, o2) == p2,
                    _ => drive(plan, results, j as int, objects).0 == p2,
                }
            }),
            p => drive(plan, results, i, objects).0 == p,
        },
    decreases plan.len() - i,
{
    if i < plan.len() {
        match plan[i].call {
            Call::Take(o) => {
                if objects.holds(o) {
                    lemma_driving_follows_drive(plan, results, i + 1, objects);
                    assert(settle(plan, i, objects) == settle(plan, i + 1, objects));
                    assert(drive(plan, results, i, objects) == drive(plan, results, i + 1, objects));
                }
            },
            _ => {
                let o2 = after(objects, plan[i].call, results[i]);
                assert(settle(plan, i, objects) == Progress::Perform(i as usize));
                if !ends_run(plan[i], results[i]) {
                    lemma_driving_follows_drive(plan, results, i + 1, o2);
                    assert(drive(plan, results, i, objects) == drive(plan, results, i + 1, o2));
                    assert(advance_spec(plan, i, objects, results[i]) == (settle(plan, i + 1, o2), o2));
                } else {
                    assert(drive(plan, results, i, objects) == (failure_of(plan[i]), o2));
                }
            },
        }
    }
}

/// The objects before step `k` of a run that got this far.
pub open spec fn objects_before(
    plan: Seq<PlannedStep>,
    results: Seq<bool>,
    objects: Objects,
    k: int,
) -> Objects
    decreases k,
{
    if k <= 0 {
        objects
    } else {
        let prev = objects_before(plan, results, objects, k - 1);
        match plan[k - 1].call {
            Call::Take(_) => prev,
            _ => after(prev, plan[k - 1].call, results[k - 1]),
        }
    }
}

/// Whether step `k` ends the run: a take of a missing object, or a failed
/// call whose failure is not ignored.
pub open spec fn stops_at(plan: Seq<PlannedStep>, results: Seq<bool>, objects: Objects, k: int) -> bool {
    match plan[k].call {
        Call::Take(o) => !objects_before(plan, results, objects, k).holds(o),
        _ => ends_run(plan[k], results[k]),
    }
}

/// Whether step `k` is the first that ends the run.
pub open spec fn first_stop(plan: Seq<PlannedStep>, results: Seq<bool>, objects: Objects, k: int) -> bool {
    &&& 0 <= k < plan.len()
    &&& stops_at(plan, results, objects, k)
    &&& forall|j: int| 0 <= j < k ==> !#[trigger] stops_at(plan, results, objects, j)
}

/// How a run ends at a step that ends it.
pub open spec fn stop_of(p: PlannedStep) -> Progress {
    match p.call {
        Call::Take(_) => Progress::Aborted(p.call),
        _ => failure_of(p),
    }
}

/// How a run ends, told without driving it: it finishes when no step ends it,
/// and otherwise ends as the first step that ends it says.
pub open spec fn outcome(plan: Seq<PlannedStep>, results: Seq<bool>, objects: Objects) -> Progress {
    if exists|k: int| first_stop(plan, results, objects, k) {
        stop_of(plan[choose|k: int| first_stop(plan, results, objects, k)])
    } else {
        Progress::Finished
    }
}

proof fn lemma_drive_from(plan: Seq<PlannedStep>, results: Seq<bool>, objects: Objects, at: int)
    requires
        0 <= at <= plan.len(),
        results.len() == plan.len(),
        forall|j: int| 0 <= j < at ==> !#[trigger] stops_at(plan, results, objects, j),
    ensures
        drive(plan, results, at, objects_before(plan, results, objects, at)).0 == outcome(
            plan,
            results,
            objects,
        ),
        outcome(plan, results, objects) == Progress::Finished ==> drive(
            plan,
            results,
            at,
            objects_before(plan, results, objects, at),
        ).1 == objects_before(plan, results, objects, plan.len() as int),
    decreases plan.len() - at,
{
    let ob = objects_before(plan, results, objects, at);
    if at == plan.len() {
        assert(!exists|k: int| first_stop(plan, results, objects, k));
    } else if stops_at(plan, results, objects, at) {
        assert(first_stop(plan, results, objects, at));
        let k = choose|k: int| first_stop(plan, results, objects, k);
        if k < at {
            assert(!stops_at(plan, results, objects, k));
        } else if k > at {
            assert(!stops_at(plan, results, objects, at));
        }
        assert(stop_of(plan[at]) != Progress::Finished);
    } else {
        assert(objects_before(plan, results, objects, at + 1) == match plan[at].call {
            Call::Take(_) => ob,
            _ => after(ob, plan[at].call, results[at]),
        });
        lemma_drive_from(plan, results, objects, at + 1);
    }
}

/// The law of a run: it ends as `outcome` says; it finishes precisely when no
/// take finds its object missing and every call either succeeded or had its
/// failure ignored, with the objects that the successful calls made; and
/// otherwise stops at the first step that ends it, in the way that step says.
pub proof fn lemma_run_outcome(plan: Seq<PlannedStep>, results: Seq<bool>, objects: Objects)
    requires
        results.len() == plan.len(),
    ensures
        drive(plan, results, 0, objects).0 == outcome(plan, results, objects),
        outcome(plan, results, objects) == Progress::Finished ==> drive(plan, results, 0, objects).1
            == objects_before(plan, results, objects, plan.len() as int),
        outcome(plan, results, objects) == Progress::Finished <==> forall|j: int|
            0 <= j < plan.len() ==> !#[trigger] stops_at(plan, results, objects, j),
        forall|k: int|
            first_stop(plan, results, objects, k) ==> outcome(plan, results, objects) == stop_of(
                plan[k],
            ),
{
    assert(objects_before(plan, results, objects, 0) == objects);
    lemma_drive_from(plan, results, objects, 0);
    if exists|k: int| first_stop(plan, results, objects, k) {
        let k = choose|k: int| first_stop(plan, results, objects, k);
        assert(stop_of(plan[k]) != Progress::Finished);
        assert forall|k2: int| first_stop(plan, results, objects, k2) implies outcome(
            plan,
            results,
            objects,
        ) == stop_of(plan[k2]) by {
            if k2 < k {
                assert(!stops_at(plan, results, objects, k2));
            } else if k2 > k {
                assert(!stops_at(plan, results, objects, k));
            }
        }
    } else {
        assert forall|j: int| 0 <= j < plan.len() implies !#[trigger] stops_at(
            plan,
            results,
            objects,
            j,
        ) by {
            if stops_at(plan, results, objects, j) {
                lemma_first_stop_exists(plan, results, objects, j);
            }
        }
    }
}

proof fn lemma_first_stop_exists(plan: Seq<PlannedStep>, results: Seq<bool>, objects: Objects, j: int)
    requires
        0 <= j < plan.len(),
        stops_at(plan, results, objects, j),
    ensures
        exists|k: int| first_stop(plan, results, objects, k),
    decreases j,
{
    if exists|i: int| 0 <= i < j && #[trigger] stops_at(plan, results, objects, i) {
        let i = choose|i: int| 0 <= i < j && #[trigger] stops_at(plan, results, objects, i);
        lemma_first_stop_exists(plan, results, objects, i);
    } else {
        assert(first_stop(plan, results, objects, j));
    }
}

/// Objects are never lost: after a call every object that existed before
/// still exists.
pub proof fn lemma_objects_kept(objects: Objects, call: Call, succeeded: bool, o: Object)
    ensures
        objects.holds(o) ==> after(objects, call, succeeded).holds(o),
{
}

/// A run never loses objects either.
pub proof fn lemma_drive_keeps_objects(
    plan: Seq<PlannedStep>,
    results: Seq<bool>,
    i: int,
    objects: Objects,
    o: Object,
)
    requires
        results.len() == plan.len(),
        objects.holds(o),
    ensures
        drive(plan, results, i, objects).1.holds(o),
    decreases plan.len() - i,
{
    if 0 <= i < plan.len() {
        match plan[i].call {
            Call::Take(_) => {
                lemma_drive_keeps_objects(plan, results, i + 1, objects, o);
            },
            _ => {
                let o2 = after(objects, plan[i].call, results[i]);
                lemma_drive_keeps_objects(plan, results, i + 1, o2, o);
            },
        }
    }
}

/// A finished run ends holding every object one of its steps took, and every
/// object made by a call whose failure would have ended the run.
pub proof fn lemma_finished_run_holds(
    plan: Seq<PlannedStep>,
    results: Seq<bool>,
    i: int,
    objects: Objects,
    k: int,
    x: Object,
)
    requires
        0 <= i <= k < plan.len(),
        results.len() == plan.len(),
        drive(plan, results, i, objects).0 == Progress::Finished,
        plan[k].call == Call::Take(x) || (!(plan[k].call is Take) && plan[k].on_failure
            != OnFailure::Ignore && made_by(plan[k].call, x)),
    ensures
        drive(plan, results, i, objects).1.holds(x),
    decreases k - i,
{
    match plan[i].call {
        Call::Take(o) => {
            assert(objects.holds(o));
            if i == k {
                lemma_drive_keeps_objects(plan, results, i + 1, objects, x);
            } else {
                lemma_finished_run_holds(plan, results, i + 1, objects, k, x);
            }
        },
        _ => {
            let o2 = after(objects, plan[i].call, results[i]);
            assert(!ends_run(plan[i], results[i]));
            if i == k {
                assert(o2.holds(x));
                lemma_drive_keeps_objects(plan, results, i + 1, o2, x);
            } else {
                lemma_finished_run_holds(plan, results, i + 1, o2, k, x);
            }
        },
    }
}

/// What a call's result does to the run, whatever the call is: a failed call
/// whose policy is `Propagate` ends the run handing that call's error to the
/// caller, one whose policy is `Abort` stops the program at that call, and one
/// whose failure is ignored goes on exactly as a success that made nothing
/// would; a failed call makes no object; a successful call goes on with the
/// objects it made.
pub proof fn lemma_advance_policies(plan: Seq<PlannedStep>, at: int, objects: Objects)
    requires
        0 <= at < plan.len(),
    ensures
        plan[at].on_failure == OnFailure::Propagate ==> advance_spec(plan, at, objects, false).0
            == Progress::Propagated(plan[at].call),
        plan[at].on_failure == OnFailure::Abort ==> advance_spec(plan, at, objects, false).0
            == Progress::Aborted(plan[at].call),
        plan[at].on_failure == OnFailure::Ignore ==> advance_spec(plan, at, objects, false).0
            == settle(plan, at + 1, objects),
        advance_spec(plan, at, objects, false).1 == objects,
        advance_spec(plan, at, objects, true).0 == settle(
            plan,
            at + 1,
            advance_spec(plan, at, objects, true).1,
        ),
        forall|x: Object| objects.holds(x) ==> #[trigger] advance_spec(plan, at, objects, true).1.holds(x),
{
}

/// Settling the take steps: the run stops at a take of a missing object with
/// that take, passes a take of an existing object, waits at the first other
/// step, and finishes past the end of the plan.
pub proof fn lemma_settle_steps(plan: Seq<PlannedStep>, i: int, objects: Objects)
    requires
        0 <= i <= plan.len(),
        plan.len() <= usize::MAX,
    ensures
        i == plan.len() ==> settle(plan, i, objects) == Progress::Finished,
        i < plan.len() ==> match plan[i].call {
            Call::Take(x) => if objects.holds(x) {
                settle(plan, i, objects) == settle(plan, i + 1, objects)
            } else {
                settle(plan, i, objects) == Progress::Aborted(Call::Take(x))
            },
            _ => settle(plan, i, objects) == Progress::Perform(i as usize),
        },
{
}

/// Exactly which objects each successful call makes: the device creation the
/// swap chain, the device and the context; fetching the back buffer the back
/// buffer; the render target view call the view; the vertex buffer call the
/// vertex buffer; compiling a stage's shader that stage's code, and creating a
/// stage's shader that stage's shader; the input layout call the layout; the
/// pipeline set-up both shaders and the layout; every other call nothing.
pub proof fn lemma_objects_made(objects: Objects, call: Call, x: Object)
    ensures
        after(objects, call, true).holds(x) <==> objects.holds(x) || match call {
            Call::CreateDeviceAndSwapChain(_) => x == Object::SwapChain || x == Object::Device || x
                == Object::Context,
            Call::GetBackBuffer(_) => x == Object::BackBuffer,
            Call::CreateRenderTargetView => x == Object::RenderTargetView,
            Call::CreateVertexBuffer(_) => x == Object::VertexBuffer,
            Call::CompileShader(c) => (x == Object::PixelShaderCode && c.stage == ShaderStage::Pixel)
                || (x == Object::VertexShaderCode && c.stage == ShaderStage::Vertex),
            Call::CreateShader(c) => (x == Object::PixelShader && c.stage == ShaderStage::Pixel) || (x
                == Object::VertexShader && c.stage == ShaderStage::Vertex),
            Call::CreateInputLayout(_) => x == Object::InputLayout,
            Call::InitPipeline => x == Object::VertexShader || x == Object::PixelShader || x
                == Object::InputLayout,
            _ => false,
        },
        after(objects, call, false) == objects,
{
}

} // verus!
