use vstd::prelude::*;
use crate::gpu::{Command, CommandModel, ConfigError, GpuOp};
use crate::pool::{live, Handle, Pool};
use crate::vao::{vao_bind, Vao, VaoModel};

verus! {

/// A bundle of bindings owned by one pipeline or render pass: one geometry
/// (vertex layout), uniform buffers and texture mappings, both bound in the
/// order they were added.
pub struct Descriptor {
    vao: Option<Handle>,
    u_buffers: Vec<u64>,
    u_textures: Vec<u64>,
}

/// What a `Descriptor` holds, as spec values.
pub struct DescriptorModel {
    pub vao: Option<Handle>,
    pub u_buffers: Seq<u64>,
    pub u_textures: Seq<u64>,
}

impl View for Descriptor {
    type V = DescriptorModel;

    closed spec fn view(&self) -> DescriptorModel {
        DescriptorModel { vao: self.vao, u_buffers: self.u_buffers@, u_textures: self.u_textures@ }
    }
}

/// The state that drawing changes: the geometry objects (their layout
/// caches) and the command sink.
pub struct DrawState {
    pub vaos: Seq<Option<VaoModel>>,
    pub cmd: CommandModel,
}

pub open spec fn vao_models(slots: Seq<Option<Vao>>) -> Seq<Option<VaoModel>> {
    Seq::new(
        slots.len(),
        |i: int|
            match slots[i] {
                Some(v) => Some(v@),
                None => None,
            },
    )
}

pub open spec fn draw_state(vaos: Pool<Vao>, cmd: Command) -> DrawState {
    DrawState { vaos: vao_models(vaos@), cmd: cmd@ }
}

pub open spec fn uniform_ops(buffers: Seq<u64>) -> Seq<GpuOp> {
    buffers.map_values(|b: u64| GpuOp::BindUniformBuffer { buffer: b })
}

pub open spec fn texture_ops(mappings: Seq<u64>) -> Seq<GpuOp> {
    mappings.map_values(|m: u64| GpuOp::BindTextureMapping { mapping: m })
}

/// Binding one descriptor: its uniform buffers in order, then its texture
/// mappings in order, then its geometry last (building a layout may query
/// the active shader). Without a live geometry the bind reports a missing
/// vertex layout.
pub open spec fn descriptor_bind(st: DrawState, d: DescriptorModel) -> DrawState {
    let c = CommandModel {
        ops: st.cmd.ops + uniform_ops(d.u_buffers) + texture_ops(d.u_textures),
        ..st.cmd
    };
    match d.vao {
        Some(h) => if live(st.vaos, h) {
            let (v, c2) = vao_bind(st.vaos[h.index as int]->0, h.index, c);
            DrawState { vaos: st.vaos.update(h.index as int, Some(v)), cmd: c2 }
        } else {
            DrawState { vaos: st.vaos, cmd: c.report(ConfigError::MissingVertexLayout) }
        },
        None => DrawState { vaos: st.vaos, cmd: c.report(ConfigError::MissingVertexLayout) },
    }
}

/// Binding a stack of descriptors, given outer to inner: every outer one is
/// bound before any inner one, so inner bindings override outer ones.
pub open spec fn context_bind(st: DrawState, ds: Seq<DescriptorModel>) -> DrawState
    decreases ds.len(),
{
    if ds.len() == 0 {
        st
    } else {
        descriptor_bind(context_bind(st, ds.drop_last()), ds.last())
    }
}

impl Descriptor {
    pub fn new() -> (r: Descriptor)
        ensures
            r@ == (DescriptorModel { vao: None, u_buffers: seq![], u_textures: seq![] }),
    {
        Descriptor { vao: None, u_buffers: Vec::new(), u_textures: Vec::new() }
    }

    /// Replaces the geometry.
    pub fn set_vao(&mut self, vao: Handle)
        ensures
            final(self)@ == (DescriptorModel { vao: Some(vao), ..old(self)@ }),
    {
        self.vao = Some(vao);
    }

    pub fn add_uniform_buffer(&mut self, buffer: u64)
        ensures
            final(self)@ == (DescriptorModel {
                u_buffers: old(self)@.u_buffers.push(buffer),
                ..old(self)@
            }),
    {
        self.u_buffers.push(buffer);
    }

    pub fn add_texture_mapping(&mut self, mapping: u64)
        ensures
            final(self)@ == (DescriptorModel {
                u_textures: old(self)@.u_textures.push(mapping),
                ..old(self)@
            }),
    {
        self.u_textures.push(mapping);
    }

    /// Binds this descriptor alone.
    pub fn bind(&self, vaos: &mut Pool<Vao>, cmd: &mut Command)
        ensures
            draw_state(*final(vaos), *final(cmd)) == descriptor_bind(
                draw_state(*old(vaos), *old(cmd)),
                self@,
            ),
    {
        let ghost c0 = cmd@;
        let mut i: usize = 0;
        while i < self.u_buffers.len()
            invariant
                i <= self.u_buffers.len(),
                cmd@ == (CommandModel {
                    ops: c0.ops + uniform_ops(self.u_buffers@.take(i as int)),
                    ..c0
                }),
            decreases self.u_buffers.len() - i,
        {
            cmd.emit(GpuOp::BindUniformBuffer { buffer: self.u_buffers[i] });
            assert(uniform_ops(self.u_buffers@.take(i + 1)) =~= uniform_ops(
                self.u_buffers@.take(i as int),
            ).push(GpuOp::BindUniformBuffer { buffer: self.u_buffers@[i as int] }));
            i = i + 1;
        }
        assert(self.u_buffers@.take(i as int) =~= self.u_buffers@);
        let ghost c1 = cmd@;
        let mut j: usize = 0;
        while j < self.u_textures.len()
            invariant
                j <= self.u_textures.len(),
                cmd@ == (CommandModel {
                    ops: c1.ops + texture_ops(self.u_textures@.take(j as int)),
                    ..c1
                }),
            decreases self.u_textures.len() - j,
        {
            cmd.emit(GpuOp::BindTextureMapping { mapping: self.u_textures[j] });
            assert(texture_ops(self.u_textures@.take(j + 1)) =~= texture_ops(
                self.u_textures@.take(j as int),
            ).push(GpuOp::BindTextureMapping { mapping: self.u_textures@[j as int] }));
            j = j + 1;
        }
        assert(self.u_textures@.take(j as int) =~= self.u_textures@);
        assert(cmd@.ops =~= c0.ops + uniform_ops(self.u_buffers@) + texture_ops(
            self.u_textures@,
        ));
        let ghost old_slots = vaos@;
        match self.vao {
            Some(h) => {
                if vaos.contains(h) {
                    let v = vaos.get_mut(h);
                    v.bind(h.index, cmd);
                    assert(vao_models(vaos@) =~= vao_models(old_slots).update(
                        h.index as int,
                        Some(vaos@[h.index as int]->0@),
                    ));
                } else {
                    cmd.report(ConfigError::MissingVertexLayout);
                }
            },
            None => {
                cmd.report(ConfigError::MissingVertexLayout);
            },
        }
    }
}

/// A stack of descriptors, from the outermost scope (global) to the
/// innermost (pipeline). Built fresh for each traversal from borrowed parts.
pub enum DescriptorContext<'a> {
    Cons { prior: &'a Descriptor, others: &'a DescriptorContext<'a> },
    Nil,
}

impl<'a> DescriptorContext<'a> {
    /// The descriptors of the stack, outer to inner.
    pub open spec fn descriptors(&self) -> Seq<DescriptorModel>
        decreases self,
    {
        match self {
            DescriptorContext::Cons { prior, others } => others.descriptors().push(prior@),
            DescriptorContext::Nil => seq![],
        }
    }

    pub fn nil() -> (r: DescriptorContext<'a>)
        ensures
            r.descriptors() == Seq::<DescriptorModel>::empty(),
    {
        DescriptorContext::Nil
    }

    /// The stack with `prior` as its new innermost scope.
    pub fn cons(&'a self, prior: &'a Descriptor) -> (r: DescriptorContext<'a>)
        ensures
            r.descriptors() == self.descriptors().push(prior@),
    {
        DescriptorContext::Cons { prior, others: self }
    }

    /// Binds every descriptor of the stack, outer to inner.
    pub fn bind(&self, vaos: &mut Pool<Vao>, cmd: &mut Command)
        ensures
            draw_state(*final(vaos), *final(cmd)) == context_bind(
                draw_state(*old(vaos), *old(cmd)),
                self.descriptors(),
            ),
        decreases self,
    {
        match self {
            DescriptorContext::Cons { prior, others } => {
                others.bind(vaos, cmd);
                prior.bind(vaos, cmd);
                assert(self.descriptors().drop_last() =~= others.descriptors());
            },
            DescriptorContext::Nil => {},
        }
    }
}

/// The uniform buffers bound by `ops`, in the order they were bound.
pub open spec fn uniform_binds(ops: Seq<GpuOp>) -> Seq<u64>
    decreases ops.len(),
{
    if ops.len() == 0 {
        seq![]
    } else {
        match ops.last() {
            GpuOp::BindUniformBuffer { buffer } => uniform_binds(ops.drop_last()).push(buffer),
            _ => uniform_binds(ops.drop_last()),
        }
    }
}

/// The uniform buffers of `ds`, outer scope first.
pub open spec fn scope_buffers(ds: Seq<DescriptorModel>) -> Seq<u64>
    decreases ds.len(),
{
    if ds.len() == 0 {
        seq![]
    } else {
        scope_buffers(ds.drop_last()) + ds.last().u_buffers
    }
}

proof fn lemma_uniform_binds_add(a: Seq<GpuOp>, b: Seq<GpuOp>)
    ensures
        uniform_binds(a + b) == uniform_binds(a) + uniform_binds(b),
    decreases b.len(),
{
    if b.len() == 0 {
        assert(a + b =~= a);
        assert(uniform_binds(a) + uniform_binds(b) =~= uniform_binds(a));
    } else {
        lemma_uniform_binds_add(a, b.drop_last());
        assert((a + b).drop_last() =~= a + b.drop_last());
        assert((a + b).last() == b.last());
        match b.last() {
            GpuOp::BindUniformBuffer { buffer } => {
                assert(uniform_binds(a) + uniform_binds(b) =~= (uniform_binds(a) + uniform_binds(
                    b.drop_last(),
                )).push(buffer));
            },
            _ => {},
        }
    }
}

proof fn lemma_uniform_binds_of_ops(bs: Seq<u64>, ms: Seq<u64>)
    ensures
        uniform_binds(uniform_ops(bs)) == bs,
        uniform_binds(texture_ops(ms)) == Seq::<u64>::empty(),
    decreases bs.len() + ms.len(),
{
    if bs.len() > 0 {
        lemma_uniform_binds_of_ops(bs.drop_last(), ms);
        assert(uniform_ops(bs).drop_last() =~= uniform_ops(bs.drop_last()));
        assert(bs.drop_last().push(bs.last()) =~= bs);
    }
    if ms.len() > 0 {
        lemma_uniform_binds_of_ops(bs, ms.drop_last());
        assert(texture_ops(ms).drop_last() =~= texture_ops(ms.drop_last()));
    }
}

proof fn lemma_descriptor_bind_buffers(st: DrawState, d: DescriptorModel)
    ensures
        uniform_binds(descriptor_bind(st, d).cmd.ops) == uniform_binds(st.cmd.ops) + d.u_buffers,
{
    let ops1 = st.cmd.ops + uniform_ops(d.u_buffers) + texture_ops(d.u_textures);
    lemma_uniform_binds_add(st.cmd.ops, uniform_ops(d.u_buffers));
    lemma_uniform_binds_add(st.cmd.ops + uniform_ops(d.u_buffers), texture_ops(d.u_textures));
    lemma_uniform_binds_of_ops(d.u_buffers, d.u_textures);
    assert(uniform_binds(ops1) =~= uniform_binds(st.cmd.ops) + d.u_buffers);
    let c = CommandModel { ops: ops1, ..st.cmd };
    match d.vao {
        Some(h) => if live(st.vaos, h) {
            let v = st.vaos[h.index as int]->0;
            match c.shader {
                None => {},
                Some(shader) => {
                    let set = GpuOp::SetVertexLayout { geometry: h.index, shader };
                    if v.built.contains(shader) {
                        assert(ops1.push(set).drop_last() =~= ops1);
                        assert(vao_bind(v, h.index, c).1.ops == ops1.push(set));
                        assert(uniform_binds(ops1.push(set)) == uniform_binds(ops1));
                    } else {
                        let build = GpuOp::BuildVertexLayout {
                            geometry: h.index,
                            shader,
                            vertex: v.v_buffer,
                            index: v.i_buffer,
                        };
                        assert(ops1.push(build).drop_last() =~= ops1);
                        assert(ops1.push(build).push(set).drop_last() =~= ops1.push(build));
                        assert(vao_bind(v, h.index, c).1.ops == ops1.push(build).push(set));
                        assert(uniform_binds(ops1.push(build)) == uniform_binds(ops1));
                        assert(uniform_binds(ops1.push(build).push(set)) == uniform_binds(ops1));
                    }
                },
            }
        },
        None => {},
    }
}

/// Binding a stack of scopes binds the uniform buffers of every scope, outer
/// scopes first and each scope's in the order they were added; the layout
/// binds in between add no uniform buffer.
pub proof fn lemma_binding_order(st: DrawState, ds: Seq<DescriptorModel>)
    ensures
        uniform_binds(context_bind(st, ds).cmd.ops) == uniform_binds(st.cmd.ops) + scope_buffers(ds),
    decreases ds.len(),
{
    if ds.len() == 0 {
        assert(uniform_binds(st.cmd.ops) + scope_buffers(ds) =~= uniform_binds(st.cmd.ops));
    } else {
        lemma_binding_order(st, ds.drop_last());
        lemma_descriptor_bind_buffers(context_bind(st, ds.drop_last()), ds.last());
        assert(uniform_binds(st.cmd.ops) + scope_buffers(ds) =~= uniform_binds(st.cmd.ops)
            + scope_buffers(ds.drop_last()) + ds.last().u_buffers);
    }
}

} // verus!
