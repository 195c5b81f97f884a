use prgl_core::bitset::BitSet64;
use prgl_core::descriptor::{Descriptor, DescriptorContext};
use prgl_core::executer::{ExecuteInfo, PipelineExecuter, RenderPassExecuterImpl};
use prgl_core::gpu::{
    Command, ConfigError, CullMode, DepthFunc, DrawCommand, GpuOp, IndexBuffer, PrimitiveTopology,
    Rect, Rgba, Texture, VertexBuffer,
};
use prgl_core::pipeline::Pipeline;
use prgl_core::pool::{Handle, Pool};
use prgl_core::renderpass::RenderPass;
use prgl_core::vao::Vao;

fn vertex(len: usize) -> VertexBuffer {
    VertexBuffer { buffer: 1, layout: 2, len }
}

fn indexed_vao(vaos: &mut Pool<Vao>, count: usize) -> Handle {
    vaos.insert(Vao::new(vertex(24), IndexBuffer { buffer: 3, len: count }))
}

fn draws(cmd: &Command) -> Vec<DrawCommand> {
    cmd.ops()
        .iter()
        .filter_map(|op| match op {
            GpuOp::Draw { command, .. } => Some(*command),
            _ => None,
        })
        .collect()
}

fn shaders_set(cmd: &Command) -> Vec<u64> {
    cmd.ops()
        .iter()
        .filter_map(|op| match op {
            GpuOp::SetShader { shader } => Some(*shader),
            _ => None,
        })
        .collect()
}

fn drawable(vaos: &mut Pool<Vao>, shader: u64) -> Pipeline {
    let h = indexed_vao(vaos, 6);
    let mut p = Pipeline::new();
    p.set_shader(shader);
    p.set_draw_vao(vaos, h);
    p
}

#[test]
fn bitset_any_tracks_reasons() {
    let mut b = BitSet64::new();
    assert!(!b.any());
    b.set(3, true);
    assert!(b.any());
    b.set(63, true);
    b.set(3, false);
    assert!(b.any());
    b.set(63, false);
    assert!(!b.any());
}

#[test]
fn pipeline_invisible_reasons_combine() {
    let mut p = Pipeline::new();
    assert!(!p.invisible());
    p.set_invisible(true, 1);
    p.set_invisible(true, 7);
    assert!(p.invisible());
    p.set_invisible(false, 1);
    assert!(p.invisible());
    p.set_invisible(false, 7);
    assert!(!p.invisible());
    p.set_invisible(true, 5);
    p.set_invisible(false, 5);
    p.set_invisible(true, 5);
    p.set_invisible(false, 5);
    assert!(!p.invisible());
}

#[test]
fn renderpass_disabled_reasons_combine() {
    let mut pass = RenderPass::new(1);
    pass.set_disabled(true, 0);
    pass.set_disabled(true, 2);
    pass.set_disabled(false, 0);
    assert!(pass.disabled());
    pass.set_disabled(false, 2);
    assert!(!pass.disabled());
}

#[test]
fn invisible_pipeline_draws_nothing() {
    let mut vaos = Pool::new();
    let mut p = drawable(&mut vaos, 9);
    p.set_invisible(true, 4);
    let mut cmd = Command::new();
    p.draw(&mut vaos, &mut cmd, &DescriptorContext::nil());
    assert!(cmd.ops().is_empty());
    assert!(cmd.errors().is_empty());
}

#[test]
fn draw_command_of_geometry() {
    let indexed = Vao::new(vertex(24), IndexBuffer { buffer: 3, len: 36 });
    assert_eq!(indexed.draw_command(), DrawCommand::DrawIndexed { first: 0, count: 36 });
    let plain = Vao::new_without_index_buffer(vertex(24));
    assert_eq!(plain.draw_command(), DrawCommand::Draw { first: 0, count: 24 });
}

#[test]
fn pipeline_draw_sequence() {
    let mut vaos = Pool::new();
    let h = vaos.insert(Vao::new_without_index_buffer(vertex(3)));
    let mut p = Pipeline::new();
    p.set_shader(5);
    p.set_vao(h);
    p.add_uniform_buffer(70);
    p.add_texture_mapping(80);
    p.set_cull_mode(CullMode::Front);
    p.set_depth_func(DepthFunc::Always);
    p.set_draw_mode(PrimitiveTopology::Lines);
    p.set_draw(2, 3);
    let mut cmd = Command::new();
    p.draw(&mut vaos, &mut cmd, &DescriptorContext::nil());
    let expected = vec![
        GpuOp::SetShader { shader: 5 },
        GpuOp::BindUniformBuffer { buffer: 70 },
        GpuOp::BindTextureMapping { mapping: 80 },
        GpuOp::BuildVertexLayout { geometry: h.index, shader: 5, vertex: vertex(3), index: None },
        GpuOp::SetVertexLayout { geometry: h.index, shader: 5 },
        GpuOp::SetDepthFunc { func: DepthFunc::Always },
        GpuOp::SetCullMode { mode: CullMode::Front },
        GpuOp::Draw {
            command: DrawCommand::Draw { first: 2, count: 3 },
            topology: PrimitiveTopology::Lines,
        },
    ];
    assert_eq!(cmd.ops(), &expected);
    assert!(cmd.errors().is_empty());
    assert_eq!(cmd.current_shader(), Some(5));
}

#[test]
fn missing_shader_is_reported_without_calls() {
    let mut vaos = Pool::new();
    let mut p = Pipeline::new();
    p.set_draw_indexed(0, 3);
    let mut cmd = Command::new();
    p.draw(&mut vaos, &mut cmd, &DescriptorContext::nil());
    assert!(cmd.ops().is_empty());
    assert_eq!(cmd.errors(), &vec![ConfigError::MissingShader]);
}

#[test]
fn missing_draw_command_still_sets_state() {
    let mut vaos = Pool::new();
    let h = indexed_vao(&mut vaos, 3);
    let mut p = Pipeline::new();
    p.set_shader(1);
    p.set_vao(h);
    let mut cmd = Command::new();
    p.draw(&mut vaos, &mut cmd, &DescriptorContext::nil());
    assert_eq!(cmd.errors(), &vec![ConfigError::MissingDrawCommand]);
    let n = cmd.ops().len();
    assert_eq!(cmd.ops()[n - 2], GpuOp::SetDepthFunc { func: DepthFunc::Less });
    assert_eq!(cmd.ops()[n - 1], GpuOp::SetCullMode { mode: CullMode::Back });
    assert!(draws(&cmd).is_empty());
}

#[test]
fn missing_vertex_layout_is_reported() {
    let mut vaos: Pool<Vao> = Pool::new();
    let mut p = Pipeline::new();
    p.set_shader(1);
    p.set_draw(0, 3);
    let mut cmd = Command::new();
    p.draw(&mut vaos, &mut cmd, &DescriptorContext::nil());
    assert_eq!(cmd.errors(), &vec![ConfigError::MissingVertexLayout]);
    assert_eq!(draws(&cmd).len(), 1);
}

#[test]
fn removed_geometry_counts_as_missing_layout() {
    let mut vaos = Pool::new();
    let h = indexed_vao(&mut vaos, 3);
    let mut d = Descriptor::new();
    d.set_vao(h);
    assert!(vaos.remove(h).is_some());
    let mut cmd = Command::new();
    cmd.set_shader(2);
    d.bind(&mut vaos, &mut cmd);
    assert_eq!(cmd.errors(), &vec![ConfigError::MissingVertexLayout]);
}

#[test]
fn binding_order_is_outer_to_inner() {
    let mut vaos = Pool::new();
    let h = indexed_vao(&mut vaos, 3);
    let mut global = Descriptor::new();
    global.add_uniform_buffer(100);
    global.set_vao(h);
    let mut pass = Descriptor::new();
    pass.add_uniform_buffer(200);
    pass.set_vao(h);
    let mut pipe = Descriptor::new();
    pipe.add_uniform_buffer(300);
    pipe.set_vao(h);
    let nil = DescriptorContext::nil();
    let c1 = nil.cons(&global);
    let c2 = c1.cons(&pass);
    let c3 = c2.cons(&pipe);
    let mut cmd = Command::new();
    cmd.set_shader(1);
    c3.bind(&mut vaos, &mut cmd);
    let bound: Vec<u64> = cmd
        .ops()
        .iter()
        .filter_map(|op| match op {
            GpuOp::BindUniformBuffer { buffer } => Some(*buffer),
            _ => None,
        })
        .collect();
    assert_eq!(bound, vec![100, 200, 300]);
    assert_eq!(cmd.ops()[1], GpuOp::BindUniformBuffer { buffer: 100 });
}

#[test]
fn vertex_layout_built_once_per_shader() {
    let mut vao = Vao::new(vertex(4), IndexBuffer { buffer: 9, len: 6 });
    let mut cmd = Command::new();
    vao.bind(0, &mut cmd);
    assert!(cmd.ops().is_empty());
    cmd.set_shader(10);
    vao.bind(0, &mut cmd);
    vao.bind(0, &mut cmd);
    cmd.set_shader(11);
    vao.bind(0, &mut cmd);
    let builds: Vec<u64> = cmd
        .ops()
        .iter()
        .filter_map(|op| match op {
            GpuOp::BuildVertexLayout { shader, .. } => Some(*shader),
            _ => None,
        })
        .collect();
    let installs: Vec<u64> = cmd
        .ops()
        .iter()
        .filter_map(|op| match op {
            GpuOp::SetVertexLayout { shader, .. } => Some(*shader),
            _ => None,
        })
        .collect();
    assert_eq!(builds, vec![10, 11]);
    assert_eq!(installs, vec![10, 10, 11]);
}

#[test]
fn executer_sorts_stably() {
    let mut vaos = Pool::new();
    let mut pipelines = Pool::new();
    let mut ex = PipelineExecuter::new();
    let a = pipelines.insert(drawable(&mut vaos, 1));
    let b = pipelines.insert(drawable(&mut vaos, 2));
    let c = pipelines.insert(drawable(&mut vaos, 3));
    let d = pipelines.insert(drawable(&mut vaos, 4));
    ex.add(a, 5);
    ex.add(b, 1);
    ex.add(c, 5);
    ex.add(d, 1);
    let mut cmd = Command::new();
    ex.execute(&pipelines, &mut vaos, &mut cmd, &DescriptorContext::nil());
    assert_eq!(shaders_set(&cmd), vec![2, 4, 1, 3]);
    let order: Vec<usize> = ex.entries().iter().map(|e| e.order).collect();
    assert_eq!(order, vec![1, 1, 5, 5]);
}

#[test]
fn executer_prunes_dropped_entries() {
    let mut vaos = Pool::new();
    let mut pipelines = Pool::new();
    let mut ex = PipelineExecuter::new();
    let a = pipelines.insert(drawable(&mut vaos, 1));
    let owned = ex.own(&mut pipelines, drawable(&mut vaos, 2), 0);
    let b = pipelines.insert(drawable(&mut vaos, 3));
    ex.add(a, 0);
    ex.add(b, 2);
    assert!(pipelines.remove(a).is_some());
    let mut cmd = Command::new();
    ex.execute(&pipelines, &mut vaos, &mut cmd, &DescriptorContext::nil());
    assert_eq!(shaders_set(&cmd), vec![2, 3]);
    assert_eq!(
        ex.entries(),
        &vec![ExecuteInfo { handle: owned, order: 0 }, ExecuteInfo { handle: b, order: 2 }]
    );
    assert!(pipelines.remove(owned).is_some());
    let mut cmd2 = Command::new();
    ex.execute(&pipelines, &mut vaos, &mut cmd2, &DescriptorContext::nil());
    assert_eq!(shaders_set(&cmd2), vec![3]);
    assert_eq!(ex.entries(), &vec![ExecuteInfo { handle: b, order: 2 }]);
}

#[test]
fn removed_handle_never_resolves_again() {
    let mut pool = Pool::new();
    let h = pool.insert(7u32);
    assert_eq!(pool.get(h), Some(&7));
    assert_eq!(pool.remove(h), Some(7));
    let h2 = pool.insert(8u32);
    assert_ne!(h, h2);
    assert!(!pool.contains(h));
    assert_eq!(pool.remove(h), None);
}

fn tex(id: u64, width: i32, height: i32) -> Texture {
    Texture { id, width, height }
}

fn viewports(cmd: &Command) -> Vec<Rect> {
    cmd.ops()
        .iter()
        .filter_map(|op| match op {
            GpuOp::SetViewport { rect } => Some(*rect),
            _ => None,
        })
        .collect()
}

#[test]
fn viewport_is_componentwise_max_of_attachments() {
    let pipelines: Pool<Pipeline> = Pool::new();
    let mut vaos: Pool<Vao> = Pool::new();
    let mut pass = RenderPass::new(4);
    assert!(pass.set_color_target_by_slot(Some(tex(1, 100, 50)), 0).is_ok());
    assert!(pass.set_color_target_by_slot(Some(tex(2, 80, 200)), 1).is_ok());
    let mut cmd = Command::new();
    pass.draw(&pipelines, &mut vaos, &mut cmd, &DescriptorContext::nil());
    assert_eq!(viewports(&cmd), vec![Rect::new(0, 0, 100, 200)]);
    assert_eq!(pass.buffer_setup_info().viewport, Some(Rect::new(0, 0, 100, 200)));
}

#[test]
fn explicit_viewport_wins() {
    let pipelines: Pool<Pipeline> = Pool::new();
    let mut vaos: Pool<Vao> = Pool::new();
    let mut pass = RenderPass::new(4);
    pass.set_color_target(Some(tex(1, 100, 50)));
    pass.set_depth_target(Some(tex(2, 80, 200)));
    pass.set_viewport(Some(Rect::new(5, 6, 7, 8)));
    let mut cmd = Command::new();
    pass.draw(&pipelines, &mut vaos, &mut cmd, &DescriptorContext::nil());
    assert_eq!(viewports(&cmd), vec![Rect::new(5, 6, 7, 8)]);
    assert_eq!(pass.buffer_setup_info().viewport, Some(Rect::new(0, 0, 100, 200)));
}

#[test]
fn single_attachment_scenario() {
    let mut pipelines = Pool::new();
    let mut vaos = Pool::new();
    let mut pass = RenderPass::new(42);
    pass.set_color_target(Some(tex(7, 64, 64)));
    let one = 1.0f32.to_bits();
    let zero = 0.0f32.to_bits();
    let red = Rgba { r: one, g: zero, b: zero, a: one };
    pass.set_clear_color(Some(red));
    let geometry = indexed_vao(&mut vaos, 36);
    let mut p = Pipeline::new();
    p.set_shader(3);
    p.set_draw_vao(&vaos, geometry);
    pass.own_pipeline(&mut pipelines, p);
    assert!(pass.buffer_setup_info().is_dirty);
    let mut cmd = Command::new();
    pass.draw(&pipelines, &mut vaos, &mut cmd, &DescriptorContext::nil());
    assert!(!pass.buffer_setup_info().is_dirty);
    assert_eq!(viewports(&cmd), vec![Rect::new(0, 0, 64, 64)]);
    let clears: Vec<GpuOp> =
        cmd.ops().iter().filter(|op| matches!(op, GpuOp::Clear { .. })).cloned().collect();
    assert_eq!(clears, vec![GpuOp::Clear { color: true, depth: false, stencil: false }]);
    assert!(cmd.ops().contains(&GpuOp::ClearColor { slot: 0, color: red }));
    assert_eq!(draws(&cmd), vec![DrawCommand::DrawIndexed { first: 0, count: 36 }]);
    // The pass's own descriptor carries no geometry, which is reported.
    assert_eq!(cmd.errors(), &vec![ConfigError::MissingVertexLayout]);
    assert_eq!(cmd.ops()[0], GpuOp::BeginFramebufferSetup { renderpass: 42 });
    assert!(cmd.ops().contains(&GpuOp::BindFramebuffer { renderpass: 42 }));
}

#[test]
fn setup_runs_only_when_dirty() {
    let pipelines: Pool<Pipeline> = Pool::new();
    let mut vaos: Pool<Vao> = Pool::new();
    let mut pass = RenderPass::new(1);
    pass.set_color_target(Some(tex(7, 10, 10)));
    let mut cmd = Command::new();
    pass.draw(&pipelines, &mut vaos, &mut cmd, &DescriptorContext::nil());
    let mut cmd2 = Command::new();
    pass.draw(&pipelines, &mut vaos, &mut cmd2, &DescriptorContext::nil());
    assert!(!cmd2.ops().contains(&GpuOp::BeginFramebufferSetup { renderpass: 1 }));
    pass.set_depth_target(Some(tex(8, 20, 5)));
    assert!(pass.buffer_setup_info().is_dirty);
    let mut cmd3 = Command::new();
    pass.draw(&pipelines, &mut vaos, &mut cmd3, &DescriptorContext::nil());
    assert!(cmd3.ops().contains(&GpuOp::AttachDepth { texture: 8 }));
    assert_eq!(viewports(&cmd3), vec![Rect::new(0, 0, 20, 10)]);
}

#[test]
fn clears_only_what_is_configured() {
    let pipelines: Pool<Pipeline> = Pool::new();
    let mut vaos: Pool<Vao> = Pool::new();
    let mut pass = RenderPass::new(1);
    pass.set_use_default_buffer(true);
    pass.set_viewport(Some(Rect::new(0, 0, 1, 1)));
    let mut cmd = Command::new();
    pass.draw(&pipelines, &mut vaos, &mut cmd, &DescriptorContext::nil());
    assert!(!cmd.ops().iter().any(|op| matches!(op, GpuOp::Clear { .. })));
    pass.set_clear_depth(Some(1.0f32.to_bits()));
    pass.set_clear_stencil(Some(0));
    let mut cmd2 = Command::new();
    pass.draw(&pipelines, &mut vaos, &mut cmd2, &DescriptorContext::nil());
    assert!(cmd2.ops().contains(&GpuOp::BindDefaultFramebuffer));
    assert_eq!(
        cmd2.ops()[cmd2.ops().len() - 1],
        GpuOp::Clear { color: false, depth: true, stencil: true }
    );
}

#[test]
fn invalid_slot_is_refused() {
    let mut pass = RenderPass::new(1);
    assert_eq!(pass.set_color_target_by_slot(Some(tex(1, 2, 2)), 8), Err(ConfigError::InvalidSlot));
    assert_eq!(pass.set_color_target_by_slot(None, -1), Err(ConfigError::InvalidSlot));
    assert_eq!(pass.set_clear_color_by_slot(None, 99), Err(ConfigError::InvalidSlot));
    assert_eq!(pass.set_clear_color_by_slot(None, 7), Ok(()));
}

#[test]
fn target_errors_are_reported() {
    let pipelines: Pool<Pipeline> = Pool::new();
    let mut vaos: Pool<Vao> = Pool::new();
    let mut none = RenderPass::new(1);
    let mut cmd = Command::new();
    none.draw(&pipelines, &mut vaos, &mut cmd, &DescriptorContext::nil());
    assert_eq!(cmd.errors(), &vec![ConfigError::NoTarget, ConfigError::NoViewport]);

    let mut both = RenderPass::new(2);
    both.set_color_target(Some(tex(1, 4, 4)));
    both.set_use_default_buffer(true);
    let mut cmd2 = Command::new();
    both.draw(&pipelines, &mut vaos, &mut cmd2, &DescriptorContext::nil());
    assert_eq!(cmd2.errors(), &vec![ConfigError::TargetConflict]);
    assert!(cmd2.ops().contains(&GpuOp::BindFramebuffer { renderpass: 2 }));
}

#[test]
fn renderpass_executer_draws_in_order_and_prunes() {
    let pipelines: Pool<Pipeline> = Pool::new();
    let mut vaos: Pool<Vao> = Pool::new();
    let mut passes = Pool::new();
    let mut ex = RenderPassExecuterImpl::new();
    let mut late = RenderPass::new(1);
    late.set_use_default_buffer(true);
    let mut early = RenderPass::new(2);
    early.set_use_default_buffer(true);
    let gone = passes.insert(RenderPass::new(3));
    ex.own(&mut passes, late, 10);
    let e = passes.insert(early);
    ex.add(e, 0);
    ex.add(gone, 5);
    assert!(passes.remove(gone).is_some());
    let mut cmd = Command::new();
    ex.execute(&mut passes, &pipelines, &mut vaos, &mut cmd);
    let ids: Vec<u64> = cmd
        .ops()
        .iter()
        .filter_map(|op| match op {
            GpuOp::BeginFramebufferSetup { renderpass } => Some(*renderpass),
            _ => None,
        })
        .collect();
    assert_eq!(ids, vec![2, 1]);
    assert_eq!(ex.entries().len(), 2);
    assert!(!passes.get(e).unwrap().buffer_setup_info().is_dirty);
}

#[test]
fn dropping_owner_prunes_owned_entries() {
    let mut vaos = Pool::new();
    let mut pipelines = Pool::new();
    let mut ex = PipelineExecuter::new();
    let owned = ex.own(&mut pipelines, drawable(&mut vaos, 1), 0);
    let other = pipelines.insert(drawable(&mut vaos, 2));
    ex.add(other, 1);
    ex.drop_owned(&mut pipelines);
    assert!(!pipelines.contains(owned));
    assert!(pipelines.contains(other));
    assert_eq!(ex.entries().len(), 2);
    let mut cmd = Command::new();
    ex.execute(&pipelines, &mut vaos, &mut cmd, &DescriptorContext::nil());
    assert_eq!(shaders_set(&cmd), vec![2]);
    assert_eq!(ex.entries(), &vec![ExecuteInfo { handle: other, order: 1 }]);
}

#[test]
fn dropping_registry_drops_passes_and_their_pipelines() {
    let mut vaos = Pool::new();
    let mut pipelines = Pool::new();
    let mut passes = Pool::new();
    let mut ex = RenderPassExecuterImpl::new();
    let mut pass = RenderPass::new(1);
    let owned = pass.own_pipeline(&mut pipelines, drawable(&mut vaos, 1));
    let shared = pipelines.insert(drawable(&mut vaos, 2));
    pass.add(&shared);
    let h = ex.own(&mut passes, pass, 0);
    ex.drop_owned(&mut passes, &mut pipelines);
    assert!(!passes.contains(h));
    assert!(!pipelines.contains(owned));
    assert!(pipelines.contains(shared));
    let mut cmd = Command::new();
    ex.execute(&mut passes, &pipelines, &mut vaos, &mut cmd);
    assert!(cmd.ops().is_empty());
    assert!(ex.entries().is_empty());
}
