//! The arguments the programs hand to the window and Direct3D calls.
use vstd::prelude::*;
use vstd::string::*;

use crate::winproc::ProcKind;

verus! {

/// A rectangle in screen or client coordinates.
#[derive(Debug, Clone, Copy, PartialEq, Eq, Structural)]
pub struct Rect {
    pub left: i32,
    pub top: i32,
    pub right: i32,
    pub bottom: i32,
}

/// Where a window goes and how large it is, frame included.
#[derive(Debug, Clone, Copy, PartialEq, Eq, Structural)]
pub struct WindowPlacement {
    pub x: i32,
    pub y: i32,
    pub width: i32,
    pub height: i32,
}

/// How a program places its window.
#[derive(Debug, Clone, Copy, PartialEq, Eq, Structural)]
pub enum PlacementKind {
    /// At (100, 100), 500 by 500.
    Fixed,
    /// At (300, 300), as large as the frame the system computed for the
    /// requested client area.
    FromClientArea,
}

/// The client area that the programs with a frame-adjusted window ask for,
/// 500 by 400 at the origin, before the system grows it to the frame.
pub fn requested_client_area() -> (r: Rect)
    ensures
        r == (Rect { left: 0, top: 0, right: 500, bottom: 400 }),
{
    Rect { left: 0, top: 0, right: 500, bottom: 400 }
}

/// The placement of the window of the programs with a fixed window: at
/// (100, 100), 500 by 500.
pub fn fixed_placement() -> (p: WindowPlacement)
    ensures
        p == (WindowPlacement { x: 100, y: 100, width: 500, height: 500 }),
{
    WindowPlacement { x: 100, y: 100, width: 500, height: 500 }
}

/// The placement of a window whose frame the system computed from the
/// requested client area: at (300, 300), as wide and high as that frame.
pub fn placement_for_frame(frame: Rect) -> (p: WindowPlacement)
    requires
        i32::MIN <= frame.right - frame.left <= i32::MAX,
        i32::MIN <= frame.bottom - frame.top <= i32::MAX,
    ensures
        p.x == 300,
        p.y == 300,
        p.width == frame.right - frame.left,
        p.height == frame.bottom - frame.top,
{
    WindowPlacement {
        x: 300,
        y: 300,
        width: frame.right - frame.left,
        height: frame.bottom - frame.top,
    }
}

/// The texts the programs hand to the wide-character calls.
#[derive(Debug, Clone, Copy, PartialEq, Eq, Structural)]
pub enum WindowText {
    ClassName,
    FixedWindowTitle,
    FramedWindowTitle,
    BoxText,
    BoxCaption,
}

/// The characters of a text.
pub fn text(t: WindowText) -> (s: &'static str)
    ensures
        t == WindowText::ClassName ==> s@ == "WindowClass1"@,
        t == WindowText::FixedWindowTitle ==> s@ == "Our First Windowed Program"@,
        t == WindowText::FramedWindowTitle ==> s@ == "Window title"@,
        t == WindowText::BoxText ==> s@ == "lptext"@,
        t == WindowText::BoxCaption ==> s@ == "lpcaption"@,
{
    match t {
        WindowText::ClassName => "WindowClass1",
        WindowText::FixedWindowTitle => "Our First Windowed Program",
        WindowText::FramedWindowTitle => "Window title",
        WindowText::BoxText => "lptext",
        WindowText::BoxCaption => "lpcaption",
    }
}

/// The window class the programs register. The size field is the size of the
/// system's class structure and the instance is the null one; the fields not
/// named here are zero.
#[derive(Debug, Clone, Copy, PartialEq, Eq, Structural)]
pub struct WindowClass {
    /// Redraw on a change of width (`CS_HREDRAW`).
    pub redraw_on_width: bool,
    /// Redraw on a change of height (`CS_VREDRAW`).
    pub redraw_on_height: bool,
    pub procedure: ProcKind,
    /// The cursor is the one the cursor call loaded.
    pub loaded_cursor: bool,
    /// A background brush is given (the programs give the null brush).
    pub background_brush: bool,
    pub class_name: WindowText,
}

/// The arguments of the call that grows a client rectangle to the window's
/// frame: the overlapped window style, without menu.
#[derive(Debug, Clone, Copy, PartialEq, Eq, Structural)]
pub struct FrameRequest {
    pub client: Rect,
    pub overlapped_window_style: bool,
    pub menu: bool,
}

/// The arguments of the window creation call, the placement aside, which
/// `window_placement` gives once the frame is known. The instance is the null
/// one and no creation parameter is passed.
#[derive(Debug, Clone, Copy, PartialEq, Eq, Structural)]
pub struct WindowCreation {
    pub ex_style: u32,
    pub class_name: WindowText,
    pub title: WindowText,
    pub overlapped_window_style: bool,
    pub placement: PlacementKind,
    pub parent: bool,
    pub menu: bool,
}

/// Where the window goes: the fixed placement, or the one made from the frame
/// that the frame call computed.
pub fn window_placement(kind: PlacementKind, frame: Rect) -> (p: WindowPlacement)
    requires
        kind == PlacementKind::FromClientArea ==> i32::MIN <= frame.right - frame.left <= i32::MAX,
        kind == PlacementKind::FromClientArea ==> i32::MIN <= frame.bottom - frame.top <= i32::MAX,
    ensures
        kind == PlacementKind::Fixed ==> p == (WindowPlacement { x: 100, y: 100, width: 500, height: 500 }),
        kind == PlacementKind::FromClientArea ==> p == (WindowPlacement {
            x: 300,
            y: 300,
            width: (frame.right - frame.left) as i32,
            height: (frame.bottom - frame.top) as i32,
        }),
{
    match kind {
        PlacementKind::Fixed => fixed_placement(),
        PlacementKind::FromClientArea => placement_for_frame(frame),
    }
}

/// The arguments of the message box call: this text and caption, an OK
/// button, and no owner window.
#[derive(Debug, Clone, Copy, PartialEq, Eq, Structural)]
pub struct MessageBoxArgs {
    pub owner: bool,
    pub text: WindowText,
    pub caption: WindowText,
    pub ok_button: bool,
}

/// The message box the message box program shows.
pub fn message_box() -> (m: MessageBoxArgs)
    ensures
        m == (MessageBoxArgs {
            owner: false,
            text: WindowText::BoxText,
            caption: WindowText::BoxCaption,
            ok_button: true,
        }),
{
    MessageBoxArgs { owner: false, text: WindowText::BoxText, caption: WindowText::BoxCaption, ok_button: true }
}

/// Pixel and vertex attribute formats the programs use.
#[derive(Debug, Clone, Copy, PartialEq, Eq, Structural)]
pub enum Format {
    /// Four 8-bit normalised channels (the back buffer).
    Rgba8Unorm,
    /// Three 32-bit floats (a position).
    Rgb32Float,
    /// Four 32-bit floats (a colour).
    Rgba32Float,
}

/// The swap chain description. Its fields not named here (refresh rate,
/// scan-line order, scaling, swap effect, flags, the width and height of the
/// buffers) are zero.
#[derive(Debug, Clone, Copy, PartialEq, Eq, Structural)]
pub struct SwapChainDesc {
    pub buffer_count: u32,
    pub format: Format,
    /// The buffers are used as render target output.
    pub render_target_output: bool,
    /// The window the chain presents to, as the handle's integer value.
    pub output_window: usize,
    pub sample_count: u32,
    pub sample_quality: u32,
    pub windowed: bool,
}

/// The driver the device runs on.
#[derive(Debug, Clone, Copy, PartialEq, Eq, Structural)]
pub enum DriverType {
    Hardware,
}

/// The arguments of the call that creates the device, its immediate context
/// and the swap chain.
#[derive(Debug, Clone, Copy, PartialEq, Eq, Structural)]
pub struct DeviceCreation {
    /// An adapter is named (the programs take the default one).
    pub adapter: bool,
    pub driver: DriverType,
    /// A software rasteriser module is named.
    pub software_module: bool,
    pub flags: u32,
    /// A list of feature levels is given (the programs take the default list).
    pub feature_levels: bool,
    /// The SDK version passed is the one of the Direct3D 11 headers.
    pub current_sdk_version: bool,
    pub swap_chain: SwapChainDesc,
    /// The reached feature level is asked back.
    pub reached_feature_level: bool,
}

pub open spec fn device_creation_spec(window: usize) -> DeviceCreation {
    DeviceCreation {
        adapter: false,
        driver: DriverType::Hardware,
        software_module: false,
        flags: 0,
        feature_levels: false,
        current_sdk_version: true,
        swap_chain: SwapChainDesc {
            buffer_count: 1,
            format: Format::Rgba8Unorm,
            render_target_output: true,
            output_window: window,
            sample_count: 4,
            sample_quality: 0,
            windowed: true,
        },
        reached_feature_level: false,
    }
}

/// The device creation of the Direct3D programs, for the window `window`:
/// the default adapter, the hardware driver, no software module, no flags, the
/// default feature levels, the headers' SDK version, and a swap chain of one
/// RGBA8 render target buffer with four samples per pixel, windowed, showing
/// in `window`; the swap chain, device and context are asked back, the feature
/// level is not.
pub fn device_creation(window: usize) -> (d: DeviceCreation)
    ensures
        d == device_creation_spec(window),
        d.swap_chain.output_window == window,
{
    DeviceCreation {
        adapter: false,
        driver: DriverType::Hardware,
        software_module: false,
        flags: 0,
        feature_levels: false,
        current_sdk_version: true,
        swap_chain: SwapChainDesc {
            buffer_count: 1,
            format: Format::Rgba8Unorm,
            render_target_output: true,
            output_window: window,
            sample_count: 4,
            sample_quality: 0,
            windowed: true,
        },
        reached_feature_level: false,
    }
}

/// Bytes of one vertex: a position of three 4-byte floats and a colour of four.
pub const VERTEX_SIZE: usize = 28;

/// Vertices in the vertex buffer: one triangle.
pub const VERTEX_COUNT: usize = 3;

/// Size in bytes of a vertex buffer of `count` vertices of `vertex_size`
/// bytes each, as the buffer description's 32-bit field holds it (the product
/// cut to 32 bits, as a cast does).
pub fn vertex_buffer_byte_width(vertex_size: usize, count: usize) -> (w: u32)
    requires
        vertex_size * count <= usize::MAX,
    ensures
        w == (vertex_size * count) as u32,
        vertex_size * count <= u32::MAX ==> w == vertex_size * count,
{
    let total: usize = vertex_size * count;
    total as u32
}

/// How a buffer is used.
#[derive(Debug, Clone, Copy, PartialEq, Eq, Structural)]
pub enum Usage {
    /// Written by the CPU, read by the GPU.
    Dynamic,
}

/// A buffer description.
#[derive(Debug, Clone, Copy, PartialEq, Eq, Structural)]
pub struct BufferDesc {
    pub byte_width: u32,
    pub usage: Usage,
    /// Bound as vertex buffer.
    pub bind_vertex_buffer: bool,
    /// The CPU may write to it.
    pub cpu_write: bool,
    pub misc_flags: u32,
    pub structure_byte_stride: u32,
}

pub open spec fn vertex_buffer_desc_spec() -> BufferDesc {
    BufferDesc {
        byte_width: 84,
        usage: Usage::Dynamic,
        bind_vertex_buffer: true,
        cpu_write: true,
        misc_flags: 0,
        structure_byte_stride: 0,
    }
}

/// The description of the vertex buffer: room for three vertices (84 bytes),
/// dynamic, bound as vertex buffer, writable by the CPU.
pub fn vertex_buffer_desc() -> (d: BufferDesc)
    ensures
        d == vertex_buffer_desc_spec(),
        d.byte_width == VERTEX_SIZE * VERTEX_COUNT,
{
    BufferDesc {
        byte_width: vertex_buffer_byte_width(VERTEX_SIZE, VERTEX_COUNT),
        usage: Usage::Dynamic,
        bind_vertex_buffer: true,
        cpu_write: true,
        misc_flags: 0,
        structure_byte_stride: 0,
    }
}

/// How a resource is mapped.
#[derive(Debug, Clone, Copy, PartialEq, Eq, Structural)]
pub enum MapKind {
    /// Written, the old contents discarded.
    WriteDiscard,
}

/// The arguments of the map call.
#[derive(Debug, Clone, Copy, PartialEq, Eq, Structural)]
pub struct MapArgs {
    pub subresource: u32,
    pub kind: MapKind,
    pub flags: u32,
}

/// The arguments of the present call.
#[derive(Debug, Clone, Copy, PartialEq, Eq, Structural)]
pub struct PresentArgs {
    pub sync_interval: u32,
    pub flags: u32,
}

/// The meaning of a vertex attribute.
#[derive(Debug, Clone, Copy, PartialEq, Eq, Structural)]
pub enum Semantic {
    Position,
    Color,
}

/// One element of the input layout.
#[derive(Debug, Clone, Copy, PartialEq, Eq, Structural)]
pub struct InputElement {
    pub semantic: Semantic,
    pub semantic_index: u32,
    pub format: Format,
    pub input_slot: u32,
    pub aligned_byte_offset: u32,
    /// Read once per vertex (not per instance).
    pub per_vertex: bool,
    pub instance_data_step_rate: u32,
}

pub open spec fn input_element(semantic: Semantic, format: Format) -> InputElement {
    InputElement {
        semantic,
        semantic_index: 0,
        format,
        input_slot: 0,
        aligned_byte_offset: 0,
        per_vertex: true,
        instance_data_step_rate: 0,
    }
}

fn make_input_element(semantic: Semantic, format: Format) -> (e: InputElement)
    ensures
        e == input_element(semantic, format),
{
    InputElement {
        semantic,
        semantic_index: 0,
        format,
        input_slot: 0,
        aligned_byte_offset: 0,
        per_vertex: true,
        instance_data_step_rate: 0,
    }
}

/// The input layout of the shader program: a position of three floats and a
/// colour of four floats, both per vertex in slot 0, both given the byte
/// offset 0.
pub fn input_layout() -> (l: Vec<InputElement>)
    ensures
        l@ == seq![
            input_element(Semantic::Position, Format::Rgb32Float),
            input_element(Semantic::Color, Format::Rgba32Float),
        ],
{
    let mut l: Vec<InputElement> = Vec::new();
    l.push(make_input_element(Semantic::Position, Format::Rgb32Float));
    l.push(make_input_element(Semantic::Color, Format::Rgba32Float));
    proof {
        assert(l@ =~= seq![
            input_element(Semantic::Position, Format::Rgb32Float),
            input_element(Semantic::Color, Format::Rgba32Float),
        ]);
    }
    l
}

/// The input layout has two elements, a position of three floats and then a
/// colour of four floats; both are read per vertex from slot 0 with semantic
/// index 0, byte offset 0 and step rate 0.
pub proof fn lemma_input_layout_elements()
    ensures
        ({
            let p = input_element(Semantic::Position, Format::Rgb32Float);
            let c = input_element(Semantic::Color, Format::Rgba32Float);
            &&& p.semantic == Semantic::Position && p.format == Format::Rgb32Float
            &&& c.semantic == Semantic::Color && c.format == Format::Rgba32Float
            &&& p.per_vertex && c.per_vertex
            &&& p.input_slot == 0 && c.input_slot == 0
            &&& p.semantic_index == 0 && c.semantic_index == 0
            &&& p.aligned_byte_offset == 0 && c.aligned_byte_offset == 0
            &&& p.instance_data_step_rate == 0 && c.instance_data_step_rate == 0
        }),
{
}

/// The name of a semantic, 0-terminated, as the input layout hands it over.
pub fn semantic_name(s: Semantic) -> (name: &'static str)
    ensures
        s == Semantic::Position ==> name@ == "POSITION\0"@,
        s == Semantic::Color ==> name@ == "COLOR\0"@,
{
    match s {
        Semantic::Position => "POSITION\0",
        Semantic::Color => "COLOR\0",
    }
}

/// A programmable stage of the pipeline.
#[derive(Debug, Clone, Copy, PartialEq, Eq, Structural)]
pub enum ShaderStage {
    Vertex,
    Pixel,
}

/// The file that holds both shaders.
pub fn shader_file() -> (name: &'static str)
    ensures
        name@ == "shader.hlsl"@,
{
    "shader.hlsl"
}

/// The function the stage's shader starts at, 0-terminated.
pub fn entry_point(stage: ShaderStage) -> (name: &'static str)
    ensures
        stage == ShaderStage::Vertex ==> name@ == "VShader\0"@,
        stage == ShaderStage::Pixel ==> name@ == "PShader\0"@,
{
    match stage {
        ShaderStage::Vertex => "VShader\0",
        ShaderStage::Pixel => "PShader\0",
    }
}

/// The shader model the stage's shader is compiled for, 0-terminated.
pub fn target_profile(stage: ShaderStage) -> (name: &'static str)
    ensures
        stage == ShaderStage::Vertex ==> name@ == "vs_5_0\0"@,
        stage == ShaderStage::Pixel ==> name@ == "ps_5_0\0"@,
{
    match stage {
        ShaderStage::Vertex => "vs_5_0\0",
        ShaderStage::Pixel => "ps_5_0\0",
    }
}

/// The arguments of the shader compile call, file, entry point and profile
/// aside (those follow from the stage): no macro definitions, no include
/// handler, both flag words 0, and no error messages asked back.
#[derive(Debug, Clone, Copy, PartialEq, Eq, Structural)]
pub struct ShaderCompile {
    pub stage: ShaderStage,
    pub defines: bool,
    pub include_handler: bool,
    pub flags1: u32,
    pub flags2: u32,
    pub error_messages: bool,
}

/// The line printed before the shaders are compiled: `cwd ` and the working
/// directory.
pub fn working_directory_line(dir: &str) -> (line: String)
    ensures
        line@ == "cwd "@ + dir@,
{
    let mut line = String::from_str("cwd ");
    line.append(dir);
    line
}

/// The swap chain of the device creation for a window presents to exactly
/// that window, for every window.
pub proof fn lemma_device_creation_window(window: usize)
    ensures
        device_creation_spec(window).swap_chain.output_window == window,
        forall|w1: usize, w2: usize|
            device_creation_spec(w1) == device_creation_spec(w2) <==> w1 == w2,
{
    assert forall|w1: usize, w2: usize|
        device_creation_spec(w1) == device_creation_spec(w2) implies w1 == w2 by {
        assert(device_creation_spec(w1).swap_chain.output_window == w1);
        assert(device_creation_spec(w2).swap_chain.output_window == w2);
    }
}

/// The vertex buffer has room for exactly the triangle's vertices.
pub proof fn lemma_vertex_buffer_room()
    ensures
        vertex_buffer_desc_spec().byte_width == VERTEX_SIZE * VERTEX_COUNT,
{
}

} // verus!
