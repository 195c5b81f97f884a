use vstd::prelude::*;

verus! {

/// Depth comparison function applied before a draw.
#[derive(Clone, Copy, Debug, PartialEq, Eq, Structural)]
pub enum DepthFunc {
    Never,
    Less,
    Equal,
    LessEqual,
    Greater,
    NotEqual,
    GreaterEqual,
    Always,
}

/// Which triangle faces are culled.
#[derive(Clone, Copy, Debug, PartialEq, Eq, Structural)]
pub enum CullMode {
    Disabled,
    Front,
    Back,
    FrontAndBack,
}

/// How the vertices of a draw are assembled into primitives.
#[derive(Clone, Copy, Debug, PartialEq, Eq, Structural)]
pub enum PrimitiveTopology {
    Points,
    Lines,
    LineLoop,
    LineStrip,
    Triangles,
    TriangleStrip,
    TriangleFan,
}

/// A draw call: plain vertices, or vertices selected through an index buffer.
#[derive(Clone, Copy, Debug, PartialEq, Eq, Structural)]
pub enum DrawCommand {
    Draw { first: i32, count: i32 },
    DrawIndexed { first: i32, count: i32 },
}

/// An integer rectangle (a viewport).
#[derive(Clone, Copy, Debug, PartialEq, Eq, Structural)]
pub struct Rect {
    pub x: i32,
    pub y: i32,
    pub width: i32,
    pub height: i32,
}

impl Rect {
    pub fn new(x: i32, y: i32, width: i32, height: i32) -> (r: Rect)
        ensures
            r == (Rect { x, y, width, height }),
    {
        Rect { x, y, width, height }
    }
}

/// A clear color, each channel held as the IEEE-754 bit pattern of an `f32`.
#[derive(Clone, Copy, Debug, PartialEq, Eq, Structural)]
pub struct Rgba {
    pub r: u32,
    pub g: u32,
    pub b: u32,
    pub a: u32,
}

/// A texture that can be attached to a render target: its identity and size.
#[derive(Clone, Copy, Debug, PartialEq, Eq, Structural)]
pub struct Texture {
    pub id: u64,
    pub width: i32,
    pub height: i32,
}

/// A vertex buffer: the GPU buffer, the attribute layout it follows, and
/// its number of vertices.
#[derive(Clone, Copy, Debug, PartialEq, Eq, Structural)]
pub struct VertexBuffer {
    pub buffer: u64,
    pub layout: u64,
    pub len: usize,
}

/// An index buffer: the GPU buffer and its number of indices.
#[derive(Clone, Copy, Debug, PartialEq, Eq, Structural)]
pub struct IndexBuffer {
    pub buffer: u64,
    pub len: usize,
}

/// One state change or call issued to the graphics API, in the order issued.
#[derive(Clone, Copy, Debug, PartialEq, Eq, Structural)]
pub enum GpuOp {
    SetShader { shader: u64 },
    BindUniformBuffer { buffer: u64 },
    BindTextureMapping { mapping: u64 },
    /// Build the vertex-layout binding of geometry `geometry` for `shader`.
    BuildVertexLayout {
        geometry: usize,
        shader: u64,
        vertex: VertexBuffer,
        index: Option<IndexBuffer>,
    },
    /// Install the vertex-layout binding built earlier for this pair.
    SetVertexLayout { geometry: usize, shader: u64 },
    SetDepthFunc { func: DepthFunc },
    SetCullMode { mode: CullMode },
    Draw { command: DrawCommand, topology: PrimitiveTopology },
    /// Start attaching textures to the offscreen target of a render pass.
    BeginFramebufferSetup { renderpass: u64 },
    AttachColor { slot: usize, texture: u64 },
    AttachDepth { texture: u64 },
    /// The attachments of the target are complete; the color slots attached
    /// since the matching begin are its draw buffers.
    EndFramebufferSetup,
    BindFramebuffer { renderpass: u64 },
    BindDefaultFramebuffer,
    SetViewport { rect: Rect },
    ClearColor { slot: usize, color: Rgba },
    ClearDepth { depth: u32 },
    ClearStencil { stencil: i32 },
    Clear { color: bool, depth: bool, stencil: bool },
}

/// A configuration error: it is reported, and the affected draw or bind is
/// skipped for this frame.
#[derive(Clone, Copy, Debug, PartialEq, Eq, Structural)]
pub enum ConfigError {
    MissingShader,
    MissingDrawCommand,
    MissingVertexLayout,
    InvalidSlot,
    TargetConflict,
    NoTarget,
    NoViewport,
}

/// The command sink: the calls issued so far, the errors reported so far,
/// and the shader that is currently active.
pub struct Command {
    ops: Vec<GpuOp>,
    errors: Vec<ConfigError>,
    shader: Option<u64>,
}

/// What a `Command` holds, as spec values.
pub struct CommandModel {
    pub ops: Seq<GpuOp>,
    pub errors: Seq<ConfigError>,
    pub shader: Option<u64>,
}

impl CommandModel {
    pub open spec fn emit(self, op: GpuOp) -> CommandModel {
        CommandModel { ops: self.ops.push(op), ..self }
    }

    pub open spec fn report(self, e: ConfigError) -> CommandModel {
        CommandModel { errors: self.errors.push(e), ..self }
    }
}

impl View for Command {
    type V = CommandModel;

    closed spec fn view(&self) -> CommandModel {
        CommandModel { ops: self.ops@, errors: self.errors@, shader: self.shader }
    }
}

impl Command {
    pub fn new() -> (r: Command)
        ensures
            r@ == (CommandModel { ops: seq![], errors: seq![], shader: None }),
    {
        Command { ops: Vec::new(), errors: Vec::new(), shader: None }
    }

    /// The calls issued so far.
    pub fn ops(&self) -> (r: &Vec<GpuOp>)
        ensures
            r@ == self@.ops,
    {
        &self.ops
    }

    /// The errors reported so far.
    pub fn errors(&self) -> (r: &Vec<ConfigError>)
        ensures
            r@ == self@.errors,
    {
        &self.errors
    }

    /// The shader that is currently active, if any.
    pub fn current_shader(&self) -> (r: Option<u64>)
        ensures
            r == self@.shader,
    {
        self.shader
    }

    /// Issues `op`.
    pub fn emit(&mut self, op: GpuOp)
        ensures
            final(self)@ == old(self)@.emit(op),
    {
        self.ops.push(op);
    }

    /// Reports `e`.
    pub fn report(&mut self, e: ConfigError)
        ensures
            final(self)@ == old(self)@.report(e),
    {
        self.errors.push(e);
    }

    /// Makes `shader` the active shader.
    pub fn set_shader(&mut self, shader: u64)
        ensures
            final(self)@ == (CommandModel {
                shader: Some(shader),
                ..old(self)@.emit(GpuOp::SetShader { shader })
            }),
    {
        self.ops.push(GpuOp::SetShader { shader });
        self.shader = Some(shader);
    }
}

} // verus!
