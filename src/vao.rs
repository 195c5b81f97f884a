use vstd::prelude::*;
use crate::gpu::{Command, CommandModel, DrawCommand, GpuOp, IndexBuffer, VertexBuffer};

verus! {

/// A geometry object: a vertex buffer, an optional index buffer, and the
/// shaders for which its vertex-layout binding has been built. A layout
/// depends on the attribute slots of the active shader, so it is built once
/// per shader and then reused; the cache is never evicted.
pub struct Vao {
    v_buffer: VertexBuffer,
    i_buffer: Option<IndexBuffer>,
    built: Vec<u64>,
}

/// What a `Vao` holds, as spec values.
pub struct VaoModel {
    pub v_buffer: VertexBuffer,
    pub i_buffer: Option<IndexBuffer>,
    pub built: Set<u64>,
}

impl View for Vao {
    type V = VaoModel;

    closed spec fn view(&self) -> VaoModel {
        VaoModel { v_buffer: self.v_buffer, i_buffer: self.i_buffer, built: self.built@.to_set() }
    }
}

/// Element counts are handed to the graphics API as `i32`.
pub open spec fn counts_fit(v: VertexBuffer, i: Option<IndexBuffer>) -> bool {
    v.len <= i32::MAX && (i matches Some(ib) ==> ib.len <= i32::MAX)
}

/// The draw call that covers the whole geometry.
pub open spec fn whole_draw(v: VaoModel) -> DrawCommand {
    match v.i_buffer {
        Some(ib) => DrawCommand::DrawIndexed { first: 0, count: ib.len as i32 },
        None => DrawCommand::Draw { first: 0, count: v.v_buffer.len as i32 },
    }
}

/// Binding geometry `geometry` against the active shader: nothing when no
/// shader is active; install the cached layout on a hit; on a miss build it,
/// install it and remember it.
pub open spec fn vao_bind(v: VaoModel, geometry: usize, c: CommandModel) -> (VaoModel, CommandModel) {
    match c.shader {
        None => (v, c),
        Some(shader) => if v.built.contains(shader) {
            (v, c.emit(GpuOp::SetVertexLayout { geometry, shader }))
        } else {
            (
                VaoModel { built: v.built.insert(shader), ..v },
                c.emit(
                    GpuOp::BuildVertexLayout {
                        geometry,
                        shader,
                        vertex: v.v_buffer,
                        index: v.i_buffer,
                    },
                ).emit(GpuOp::SetVertexLayout { geometry, shader }),
            )
        },
    }
}

impl Vao {
    pub fn new(v_buffer: VertexBuffer, i_buffer: IndexBuffer) -> (r: Vao)
        requires
            counts_fit(v_buffer, Some(i_buffer)),
        ensures
            r@ == (VaoModel { v_buffer, i_buffer: Some(i_buffer), built: Set::empty() }),
    {
        let r = Vao { v_buffer, i_buffer: Some(i_buffer), built: Vec::new() };
        assert(r@.built =~= Set::empty());
        r
    }

    pub fn new_without_index_buffer(v_buffer: VertexBuffer) -> (r: Vao)
        requires
            counts_fit(v_buffer, None),
        ensures
            r@ == (VaoModel { v_buffer, i_buffer: None, built: Set::empty() }),
    {
        let r = Vao { v_buffer, i_buffer: None, built: Vec::new() };
        assert(r@.built =~= Set::empty());
        r
    }

    /// Indexed draw of every index when there is an index buffer, else a
    /// plain draw of every vertex.
    pub fn draw_command(&self) -> (r: DrawCommand)
        requires
            counts_fit(self@.v_buffer, self@.i_buffer),
        ensures
            r == whole_draw(self@),
    {
        match self.i_buffer {
            Some(ib) => DrawCommand::DrawIndexed { first: 0, count: ib.len as i32 },
            None => DrawCommand::Draw { first: 0, count: self.v_buffer.len as i32 },
        }
    }

    /// Binds this geometry, known as `geometry`, against the active shader.
    pub fn bind(&mut self, geometry: usize, cmd: &mut Command)
        ensures
            (final(self)@, final(cmd)@) == vao_bind(old(self)@, geometry, old(cmd)@),
    {
        match cmd.current_shader() {
            None => {},
            Some(shader) => {
                let mut i: usize = 0;
                let mut hit = false;
                while i < self.built.len()
                    invariant
                        i <= self.built.len(),
                        hit == (exists|k: int| 0 <= k < i && self.built@[k] == shader),
                    decreases self.built.len() - i,
                {
                    if self.built[i] == shader {
                        hit = true;
                    }
                    i = i + 1;
                }
                assert(hit == self.built@.contains(shader));
                if hit {
                    cmd.emit(GpuOp::SetVertexLayout { geometry, shader });
                } else {
                    cmd.emit(
                        GpuOp::BuildVertexLayout {
                            geometry,
                            shader,
                            vertex: self.v_buffer,
                            index: self.i_buffer,
                        },
                    );
                    cmd.emit(GpuOp::SetVertexLayout { geometry, shader });
                    self.built.push(shader);
                    assert forall|x: u64| #[trigger] self.built@.contains(x) <==> old(
                        self,
                    ).built@.contains(x) || x == shader by {
                        if old(self).built@.contains(x) {
                            let k = choose|k: int|
                                0 <= k < old(self).built@.len() && old(self).built@[k] == x;
                            assert(self.built@[k] == x);
                        }
                        if self.built@.contains(x) && x != shader {
                            let k = choose|k: int|
                                0 <= k < self.built@.len() && self.built@[k] == x;
                            assert(old(self).built@[k] == x);
                        }
                        if x == shader {
                            assert(self.built@[self.built@.len() - 1] == x);
                        }
                    }
                    assert(self.built@.to_set() =~= old(self).built@.to_set().insert(shader));
                }
            },
        }
    }
}

/// Binding one geometry twice under shader `a` builds its layout once and
/// installs it twice; binding it afterwards under another shader `b` builds
/// a second, distinct layout.
pub proof fn lemma_layout_cache(v: VaoModel, geometry: usize, c: CommandModel, a: u64, b: u64)
    requires
        !v.built.contains(a),
        !v.built.contains(b),
        a != b,
    ensures
        ({
            let c0 = CommandModel { shader: Some(a), ..c };
            let (v1, c1) = vao_bind(v, geometry, c0);
            let (v2, c2) = vao_bind(v1, geometry, c1);
            let (v3, c3) = vao_bind(v2, geometry, CommandModel { shader: Some(b), ..c2 });
            &&& c2.ops == c.ops + seq![
                GpuOp::BuildVertexLayout { geometry, shader: a, vertex: v.v_buffer, index: v.i_buffer },
                GpuOp::SetVertexLayout { geometry, shader: a },
                GpuOp::SetVertexLayout { geometry, shader: a },
            ]
            &&& c3.ops == c2.ops + seq![
                GpuOp::BuildVertexLayout { geometry, shader: b, vertex: v.v_buffer, index: v.i_buffer },
                GpuOp::SetVertexLayout { geometry, shader: b },
            ]
            &&& v3.built == v.built.insert(a).insert(b)
        }),
{
    let c0 = CommandModel { shader: Some(a), ..c };
    let (v1, c1) = vao_bind(v, geometry, c0);
    assert(v1.built.contains(a));
    let (v2, c2) = vao_bind(v1, geometry, c1);
    assert(c2.ops =~= c.ops + seq![
        GpuOp::BuildVertexLayout { geometry, shader: a, vertex: v.v_buffer, index: v.i_buffer },
        GpuOp::SetVertexLayout { geometry, shader: a },
        GpuOp::SetVertexLayout { geometry, shader: a },
    ]);
    let (v3, c3) = vao_bind(v2, geometry, CommandModel { shader: Some(b), ..c2 });
    assert(!v2.built.contains(b));
    assert(c3.ops =~= c2.ops + seq![
        GpuOp::BuildVertexLayout { geometry, shader: b, vertex: v.v_buffer, index: v.i_buffer },
        GpuOp::SetVertexLayout { geometry, shader: b },
    ]);
}

} // verus!
