use vstd::prelude::*;
use crate::bitset::{BitSet64, BIT_COUNT};
use crate::descriptor::{
    context_bind, draw_state, Descriptor, DescriptorContext, DescriptorModel, DrawState,
};
use crate::gpu::{
    Command, CommandModel, ConfigError, CullMode, DepthFunc, DrawCommand, GpuOp, PrimitiveTopology,
};
use crate::pool::{live, Handle, Pool};
use crate::vao::{counts_fit, whole_draw, Vao};

verus! {

/// One drawable unit: a shader, fixed-function state, a draw call, a set of
/// reasons to stay hidden, and the descriptor of its own bindings.
pub struct Pipeline {
    depth_func: DepthFunc,
    draw_command: Option<DrawCommand>,
    cull_mode: CullMode,
    primitive_topology: PrimitiveTopology,
    shader: Option<u64>,
    invisible_reasons: BitSet64,
    descriptor: Descriptor,
}

/// What a `Pipeline` holds, as spec values.
pub struct PipelineModel {
    pub depth_func: DepthFunc,
    pub draw_command: Option<DrawCommand>,
    pub cull_mode: CullMode,
    pub primitive_topology: PrimitiveTopology,
    pub shader: Option<u64>,
    pub invisible_reasons: Set<int>,
    pub descriptor: DescriptorModel,
}

impl View for Pipeline {
    type V = PipelineModel;

    closed spec fn view(&self) -> PipelineModel {
        PipelineModel {
            depth_func: self.depth_func,
            draw_command: self.draw_command,
            cull_mode: self.cull_mode,
            primitive_topology: self.primitive_topology,
            shader: self.shader,
            invisible_reasons: self.invisible_reasons@,
            descriptor: self.descriptor@,
        }
    }
}

/// Drawing a pipeline inside the scopes `outer`: nothing while it is hidden;
/// without a shader, a reported error and nothing else. Otherwise: activate
/// the shader, bind `outer` and then its own descriptor, set depth function
/// and cull mode, and issue the draw call (or report that there is none).
pub open spec fn pipeline_draw(st: DrawState, p: PipelineModel, outer: Seq<DescriptorModel>) -> DrawState {
    if p.invisible_reasons != Set::<int>::empty() {
        st
    } else {
        match p.shader {
            None => DrawState { cmd: st.cmd.report(ConfigError::MissingShader), ..st },
            Some(shader) => {
                let c1 = CommandModel {
                    shader: Some(shader),
                    ..st.cmd.emit(GpuOp::SetShader { shader })
                };
                let st2 = context_bind(DrawState { vaos: st.vaos, cmd: c1 }, outer.push(p.descriptor));
                let c3 = st2.cmd.emit(GpuOp::SetDepthFunc { func: p.depth_func }).emit(
                    GpuOp::SetCullMode { mode: p.cull_mode },
                );
                match p.draw_command {
                    None => DrawState { cmd: c3.report(ConfigError::MissingDrawCommand), ..st2 },
                    Some(command) => DrawState {
                        cmd: c3.emit(GpuOp::Draw { command, topology: p.primitive_topology }),
                        ..st2
                    },
                }
            },
        }
    }
}

impl Pipeline {
    pub open spec fn empty_model() -> PipelineModel {
        PipelineModel {
            depth_func: DepthFunc::Less,
            draw_command: None,
            cull_mode: CullMode::Back,
            primitive_topology: PrimitiveTopology::Triangles,
            shader: None,
            invisible_reasons: Set::empty(),
            descriptor: DescriptorModel { vao: None, u_buffers: seq![], u_textures: seq![] },
        }
    }

    /// A visible pipeline with no resources: depth test `Less`, back faces
    /// culled, triangles.
    pub fn new() -> (r: Pipeline)
        ensures
            r@ == Self::empty_model(),
    {
        Pipeline {
            depth_func: DepthFunc::Less,
            draw_command: None,
            cull_mode: CullMode::Back,
            primitive_topology: PrimitiveTopology::Triangles,
            shader: None,
            invisible_reasons: BitSet64::new(),
            descriptor: Descriptor::new(),
        }
    }

    /// Draws this pipeline inside the scopes of `outer_ctx`.
    pub fn draw(&self, vaos: &mut Pool<Vao>, cmd: &mut Command, outer_ctx: &DescriptorContext)
        ensures
            draw_state(*final(vaos), *final(cmd)) == pipeline_draw(
                draw_state(*old(vaos), *old(cmd)),
                self@,
                outer_ctx.descriptors(),
            ),
    {
        if self.invisible() {
            return;
        }
        match self.shader {
            Some(shader) => {
                cmd.set_shader(shader);
                let ctx = outer_ctx.cons(&self.descriptor);
                ctx.bind(vaos, cmd);
            },
            None => {
                cmd.report(ConfigError::MissingShader);
                return;
            },
        }
        cmd.emit(GpuOp::SetDepthFunc { func: self.depth_func });
        cmd.emit(GpuOp::SetCullMode { mode: self.cull_mode });
        match self.draw_command {
            Some(command) => {
                cmd.emit(GpuOp::Draw { command, topology: self.primitive_topology });
            },
            None => {
                cmd.report(ConfigError::MissingDrawCommand);
            },
        }
    }

    pub fn set_shader(&mut self, shader: u64)
        ensures
            final(self)@ == (PipelineModel { shader: Some(shader), ..old(self)@ }),
    {
        self.shader = Some(shader);
    }

    /// Replaces the geometry of this pipeline's descriptor.
    pub fn set_vao(&mut self, vao: Handle)
        ensures
            final(self)@ == (PipelineModel {
                descriptor: DescriptorModel { vao: Some(vao), ..old(self)@.descriptor },
                ..old(self)@
            }),
    {
        self.descriptor.set_vao(vao);
    }

    /// Attaches the geometry and draws all of it: an indexed draw of every
    /// index when it has an index buffer, else a draw of every vertex.
    pub fn set_draw_vao(&mut self, vaos: &Pool<Vao>, vao: Handle)
        requires
            live(vaos@, vao),
            counts_fit(vaos@[vao.index as int]->0@.v_buffer, vaos@[vao.index as int]->0@.i_buffer),
        ensures
            final(self)@ == (PipelineModel {
                descriptor: DescriptorModel { vao: Some(vao), ..old(self)@.descriptor },
                draw_command: Some(whole_draw(vaos@[vao.index as int]->0@)),
                ..old(self)@
            }),
    {
        self.set_vao(vao);
        let v = vaos.get(vao).unwrap();
        self.set_draw_command(v.draw_command());
    }

    /// Appends a uniform buffer to this pipeline's descriptor.
    pub fn add_uniform_buffer(&mut self, buffer: u64)
        ensures
            final(self)@ == (PipelineModel {
                descriptor: DescriptorModel {
                    u_buffers: old(self)@.descriptor.u_buffers.push(buffer),
                    ..old(self)@.descriptor
                },
                ..old(self)@
            }),
    {
        self.descriptor.add_uniform_buffer(buffer);
    }

    /// Appends a texture mapping to this pipeline's descriptor.
    pub fn add_texture_mapping(&mut self, mapping: u64)
        ensures
            final(self)@ == (PipelineModel {
                descriptor: DescriptorModel {
                    u_textures: old(self)@.descriptor.u_textures.push(mapping),
                    ..old(self)@.descriptor
                },
                ..old(self)@
            }),
    {
        self.descriptor.add_texture_mapping(mapping);
    }

    pub fn set_cull_mode(&mut self, mode: CullMode)
        ensures
            final(self)@ == (PipelineModel { cull_mode: mode, ..old(self)@ }),
    {
        self.cull_mode = mode;
    }

    pub fn set_draw_command(&mut self, command: DrawCommand)
        ensures
            final(self)@ == (PipelineModel { draw_command: Some(command), ..old(self)@ }),
    {
        self.draw_command = Some(command);
    }

    /// Draws `count` vertices starting at `first`.
    pub fn set_draw(&mut self, first: i32, count: i32)
        ensures
            final(self)@ == (PipelineModel {
                draw_command: Some(DrawCommand::Draw { first, count }),
                ..old(self)@
            }),
    {
        self.set_draw_command(DrawCommand::Draw { first, count });
    }

    /// Draws `count` indices starting at `first`.
    pub fn set_draw_indexed(&mut self, first: i32, count: i32)
        ensures
            final(self)@ == (PipelineModel {
                draw_command: Some(DrawCommand::DrawIndexed { first, count }),
                ..old(self)@
            }),
    {
        self.set_draw_command(DrawCommand::DrawIndexed { first, count });
    }

    pub fn set_depth_func(&mut self, depth_func: DepthFunc)
        ensures
            final(self)@ == (PipelineModel { depth_func, ..old(self)@ }),
    {
        self.depth_func = depth_func;
    }

    pub fn set_draw_mode(&mut self, primitive_topology: PrimitiveTopology)
        ensures
            final(self)@ == (PipelineModel { primitive_topology, ..old(self)@ }),
    {
        self.primitive_topology = primitive_topology;
    }

    /// Adds (`invisible`) or withdraws reason `reason` to stay hidden.
    pub fn set_invisible(&mut self, invisible: bool, reason: usize)
        requires
            reason < BIT_COUNT,
        ensures
            final(self)@ == (PipelineModel {
                invisible_reasons: if invisible {
                    old(self)@.invisible_reasons.insert(reason as int)
                } else {
                    old(self)@.invisible_reasons.remove(reason as int)
                },
                ..old(self)@
            }),
    {
        self.invisible_reasons.set(reason, invisible);
    }

    /// True while any reason to stay hidden is present.
    pub fn invisible(&self) -> (r: bool)
        ensures
            r == (self@.invisible_reasons != Set::<int>::empty()),
    {
        self.invisible_reasons.any()
    }

    /// Lets `bindable` attach itself to this pipeline.
    pub fn add<B: PipelineBindable>(&mut self, bindable: &B) {
        bindable.bind_pipeline(self);
    }
}

/// Something that knows how to attach itself to a pipeline.
pub trait PipelineBindable {
    fn bind_pipeline(&self, pipeline: &mut Pipeline);
}

} // verus!
