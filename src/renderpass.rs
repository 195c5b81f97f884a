use vstd::prelude::*;
use crate::bitset::{BitSet64, BIT_COUNT};
use crate::descriptor::{draw_state, Descriptor, DescriptorContext, DescriptorModel, DrawState};
use crate::executer::{
    live_entries, pipelines_draw, visit_order, ExecuteInfo, ExecuterModel, PipelineExecuter,
};
use crate::gpu::{Command, CommandModel, ConfigError, GpuOp, Rect, Rgba, Texture};
use crate::pipeline::Pipeline;
use crate::pool::{without, Handle, Pool};
use crate::vao::Vao;

verus! {

broadcast use vstd::array::group_array_axioms;

/// Number of color attachment slots of a render pass.
pub const MAX_OUTPUT_SLOT: usize = 8;

/// The framebuffer setup record: whether the attachments changed since the
/// last setup, the size resolved from the attachments (none when nothing is
/// attached), and whether the pass draws to the default surface.
#[derive(Clone, Copy, Debug, PartialEq, Eq, Structural)]
pub struct BufferSetupInfo {
    pub is_dirty: bool,
    pub viewport: Option<Rect>,
    pub use_default_buffer: bool,
}

/// A render target (color and depth attachments, or the default surface)
/// with its clear values and viewport, its own descriptor, and the pipelines
/// drawn into it.
pub struct RenderPass {
    clear_colors: [Option<Rgba>; MAX_OUTPUT_SLOT],
    clear_depth: Option<u32>,
    clear_stencil: Option<i32>,
    viewport: Option<Rect>,
    color_targets: [Option<Texture>; MAX_OUTPUT_SLOT],
    depth_target: Option<Texture>,
    buffer_setup_info: BufferSetupInfo,
    disabled_reasons: BitSet64,
    descriptor: Descriptor,
    executer: PipelineExecuter,
    renderpass_id: u64,
}

/// What a `RenderPass` holds, as spec values.
pub struct RenderPassModel {
    pub clear_colors: Seq<Option<Rgba>>,
    pub clear_depth: Option<u32>,
    pub clear_stencil: Option<i32>,
    pub viewport: Option<Rect>,
    pub color_targets: Seq<Option<Texture>>,
    pub depth_target: Option<Texture>,
    pub setup: BufferSetupInfo,
    pub disabled_reasons: Set<int>,
    pub descriptor: DescriptorModel,
    pub executer: ExecuterModel,
    pub renderpass_id: u64,
}

impl View for RenderPass {
    type V = RenderPassModel;

    closed spec fn view(&self) -> RenderPassModel {
        RenderPassModel {
            clear_colors: self.clear_colors@,
            clear_depth: self.clear_depth,
            clear_stencil: self.clear_stencil,
            viewport: self.viewport,
            color_targets: self.color_targets@,
            depth_target: self.depth_target,
            setup: self.buffer_setup_info,
            disabled_reasons: self.disabled_reasons@,
            descriptor: self.descriptor@,
            executer: self.executer@,
            renderpass_id: self.renderpass_id,
        }
    }
}

/// The textures present in `ts`, in slot order.
pub open spec fn present(ts: Seq<Option<Texture>>) -> Seq<Texture>
    decreases ts.len(),
{
    if ts.len() == 0 {
        seq![]
    } else {
        match ts.last() {
            Some(t) => present(ts.drop_last()).push(t),
            None => present(ts.drop_last()),
        }
    }
}

/// Every attachment of the pass: colors in slot order, then depth.
pub open spec fn attachments(m: RenderPassModel) -> Seq<Texture> {
    present(m.color_targets) + match m.depth_target {
        Some(d) => seq![d],
        None => seq![],
    }
}

/// The largest width in `s`, and 0 when there is none larger.
pub open spec fn max_width(s: Seq<Texture>) -> i32
    decreases s.len(),
{
    if s.len() == 0 {
        0
    } else if s.last().width > max_width(s.drop_last()) {
        s.last().width
    } else {
        max_width(s.drop_last())
    }
}

/// The largest height in `s`, and 0 when there is none larger.
pub open spec fn max_height(s: Seq<Texture>) -> i32
    decreases s.len(),
{
    if s.len() == 0 {
        0
    } else if s.last().height > max_height(s.drop_last()) {
        s.last().height
    } else {
        max_height(s.drop_last())
    }
}

/// The size that a set of attachments resolves to: the component-wise
/// maximum, or none without attachments.
pub open spec fn attachment_viewport(s: Seq<Texture>) -> Option<Rect> {
    if s.len() > 0 {
        Some(Rect { x: 0, y: 0, width: max_width(s), height: max_height(s) })
    } else {
        None
    }
}

/// The setup record after the setup step: rebuilt (and clean) when dirty,
/// else unchanged.
pub open spec fn resolved_setup(m: RenderPassModel) -> BufferSetupInfo {
    if m.setup.is_dirty {
        BufferSetupInfo {
            is_dirty: false,
            viewport: attachment_viewport(attachments(m)),
            use_default_buffer: m.setup.use_default_buffer,
        }
    } else {
        m.setup
    }
}

pub open spec fn color_attach_ops(ts: Seq<Option<Texture>>) -> Seq<GpuOp>
    decreases ts.len(),
{
    if ts.len() == 0 {
        seq![]
    } else {
        match ts.last() {
            Some(t) => color_attach_ops(ts.drop_last()).push(
                GpuOp::AttachColor { slot: (ts.len() - 1) as usize, texture: t.id },
            ),
            None => color_attach_ops(ts.drop_last()),
        }
    }
}

/// The calls of the setup step: when dirty, every color attachment in slot
/// order and then the depth attachment.
pub open spec fn setup_ops(m: RenderPassModel) -> Seq<GpuOp> {
    if m.setup.is_dirty {
        seq![GpuOp::BeginFramebufferSetup { renderpass: m.renderpass_id }] + color_attach_ops(
            m.color_targets,
        ) + match m.depth_target {
            Some(d) => seq![GpuOp::AttachDepth { texture: d.id }],
            None => seq![],
        } + seq![GpuOp::EndFramebufferSetup]
    } else {
        seq![]
    }
}

/// Choosing the target: the offscreen target when something is attached
/// (an error too if the default surface is also requested), else the
/// default surface when requested, else no target and an error.
pub open spec fn target_step(c: CommandModel, info: BufferSetupInfo, id: u64) -> CommandModel {
    if info.viewport is Some {
        let c1 = if info.use_default_buffer {
            c.report(ConfigError::TargetConflict)
        } else {
            c
        };
        c1.emit(GpuOp::BindFramebuffer { renderpass: id })
    } else if info.use_default_buffer {
        c.emit(GpuOp::BindDefaultFramebuffer)
    } else {
        c.report(ConfigError::NoTarget)
    }
}

/// The viewport that applies: the explicit one, else the size resolved
/// from the attachments, else none.
pub open spec fn resolve_viewport(explicit: Option<Rect>, info: BufferSetupInfo) -> Option<Rect> {
    match explicit {
        Some(v) => Some(v),
        None => info.viewport,
    }
}

pub open spec fn viewport_step(c: CommandModel, explicit: Option<Rect>, info: BufferSetupInfo) -> CommandModel {
    match resolve_viewport(explicit, info) {
        Some(rect) => c.emit(GpuOp::SetViewport { rect }),
        None => c.report(ConfigError::NoViewport),
    }
}

pub open spec fn clear_color_ops(cs: Seq<Option<Rgba>>) -> Seq<GpuOp>
    decreases cs.len(),
{
    if cs.len() == 0 {
        seq![]
    } else {
        match cs.last() {
            Some(color) => clear_color_ops(cs.drop_last()).push(
                GpuOp::ClearColor { slot: (cs.len() - 1) as usize, color },
            ),
            None => clear_color_ops(cs.drop_last()),
        }
    }
}

pub open spec fn any_clear_color(cs: Seq<Option<Rgba>>) -> bool {
    exists|i: int| 0 <= i < cs.len() && (#[trigger] cs[i]) is Some
}

/// The calls of the clear step: each configured clear value, then one clear
/// call with exactly the configured buffers, or no clear call at all.
pub open spec fn clear_ops(m: RenderPassModel) -> Seq<GpuOp> {
    let color = any_clear_color(m.clear_colors);
    let depth = m.clear_depth is Some;
    let stencil = m.clear_stencil is Some;
    clear_color_ops(m.clear_colors) + match m.clear_depth {
        Some(depth) => seq![GpuOp::ClearDepth { depth }],
        None => seq![],
    } + match m.clear_stencil {
        Some(stencil) => seq![GpuOp::ClearStencil { stencil }],
        None => seq![],
    } + if color || depth || stencil {
        seq![GpuOp::Clear { color, depth, stencil }]
    } else {
        seq![]
    }
}

/// Drawing a render pass inside `outer`: nothing while disabled. Otherwise
/// set up the target if dirty, choose the target, set the viewport, clear,
/// and draw its pipelines inside `outer` extended with its own descriptor.
pub open spec fn renderpass_draw(
    st: DrawState,
    m: RenderPassModel,
    pipelines: Seq<Option<Pipeline>>,
    outer: Seq<DescriptorModel>,
) -> DrawState {
    if m.disabled_reasons != Set::<int>::empty() {
        st
    } else {
        let info = resolved_setup(m);
        let c1 = CommandModel { ops: st.cmd.ops + setup_ops(m), ..st.cmd };
        let c2 = target_step(c1, info, m.renderpass_id);
        let c3 = viewport_step(c2, m.viewport, info);
        let c4 = CommandModel { ops: c3.ops + clear_ops(m), ..c3 };
        pipelines_draw(
            DrawState { vaos: st.vaos, cmd: c4 },
            pipelines,
            visit_order(m.executer),
            outer.push(m.descriptor),
        )
    }
}

/// The render pass after it was drawn.
pub open spec fn renderpass_after(m: RenderPassModel, pipelines: Seq<Option<Pipeline>>) -> RenderPassModel {
    if m.disabled_reasons != Set::<int>::empty() {
        m
    } else {
        RenderPassModel {
            setup: resolved_setup(m),
            executer: ExecuterModel {
                entries: live_entries(visit_order(m.executer), pipelines),
                owns: m.executer.owns,
                need_sort: false,
            },
            ..m
        }
    }
}

proof fn lemma_max_extent(s: Seq<Texture>)
    ensures
        forall|k: int| 0 <= k < s.len() ==> (#[trigger] s[k]).width <= max_width(s) && s[k].height
            <= max_height(s),
        max_width(s) == 0 || exists|k: int| 0 <= k < s.len() && (#[trigger] s[k]).width == max_width(s),
        max_height(s) == 0 || exists|k: int| 0 <= k < s.len() && (#[trigger] s[k]).height == max_height(s),
    decreases s.len(),
{
    if s.len() > 0 {
        let u = s.drop_last();
        lemma_max_extent(u);
        assert forall|k: int| 0 <= k < s.len() implies (#[trigger] s[k]).width <= max_width(s)
            && s[k].height <= max_height(s) by {
            if k < u.len() {
                assert(s[k] == u[k]);
            }
        }
        if max_width(s) != 0 && max_width(s) != s.last().width {
            let k = choose|k: int| 0 <= k < u.len() && (#[trigger] u[k]).width == max_width(u);
            assert(s[k] == u[k]);
        }
        if max_height(s) != 0 && max_height(s) != s.last().height {
            let k = choose|k: int| 0 <= k < u.len() && (#[trigger] u[k]).height == max_height(u);
            assert(s[k] == u[k]);
        }
        assert(s[s.len() - 1] == s.last());
    }
}

/// The viewport a render pass uses: an explicit viewport wins whatever is
/// attached; without one, attachments resolve to a rectangle at the origin
/// whose width and height are the largest among the attachments (each
/// attachment fits in it, and each side is reached by some attachment or is
/// zero); with neither there is no viewport.
pub proof fn lemma_viewport_resolution(m: RenderPassModel)
    ensures
        m.viewport matches Some(v) ==> resolve_viewport(m.viewport, resolved_setup(m)) == Some(v),
        m.viewport is None && m.setup.is_dirty ==> resolve_viewport(m.viewport, resolved_setup(m))
            == attachment_viewport(attachments(m)),
        attachments(m).len() > 0 ==> attachment_viewport(attachments(m)) == Some(
            Rect { x: 0, y: 0, width: max_width(attachments(m)), height: max_height(attachments(m)) },
        ),
        attachments(m).len() == 0 ==> attachment_viewport(attachments(m)) is None,
        forall|k: int|
            0 <= k < attachments(m).len() ==> (#[trigger] attachments(m)[k]).width <= max_width(
                attachments(m),
            ) && attachments(m)[k].height <= max_height(attachments(m)),
        max_width(attachments(m)) == 0 || exists|k: int|
            0 <= k < attachments(m).len() && (#[trigger] attachments(m)[k]).width == max_width(
                attachments(m),
            ),
        max_height(attachments(m)) == 0 || exists|k: int|
            0 <= k < attachments(m).len() && (#[trigger] attachments(m)[k]).height == max_height(
                attachments(m),
            ),
{
    lemma_max_extent(attachments(m));
}

proof fn lemma_present_step(ts: Seq<Option<Texture>>, i: int)
    requires
        0 <= i < ts.len(),
    ensures
        ts.take(i + 1).drop_last() == ts.take(i),
        ts.take(i + 1).last() == ts[i],
        ts.take(i + 1).len() == i + 1,
{
    assert(ts.take(i + 1).drop_last() =~= ts.take(i));
}

impl RenderPass {
    /// An enabled pass known as `renderpass_id`, with nothing attached,
    /// nothing to clear, no viewport and no pipelines; its setup is dirty.
    pub fn new(renderpass_id: u64) -> (r: RenderPass)
        ensures
            r@.clear_colors == Seq::new(MAX_OUTPUT_SLOT as nat, |i: int| None::<Rgba>),
            r@.color_targets == Seq::new(MAX_OUTPUT_SLOT as nat, |i: int| None::<Texture>),
            r@.clear_depth is None,
            r@.clear_stencil is None,
            r@.viewport is None,
            r@.depth_target is None,
            r@.setup == (BufferSetupInfo {
                is_dirty: true,
                viewport: None,
                use_default_buffer: false,
            }),
            r@.disabled_reasons == Set::<int>::empty(),
            r@.descriptor == (DescriptorModel { vao: None, u_buffers: seq![], u_textures: seq![] }),
            r@.executer == (ExecuterModel { entries: seq![], owns: seq![], need_sort: false }),
            r@.renderpass_id == renderpass_id,
    {
        let r = RenderPass {
            clear_colors: [None; MAX_OUTPUT_SLOT],
            clear_depth: None,
            clear_stencil: None,
            viewport: None,
            color_targets: [None; MAX_OUTPUT_SLOT],
            depth_target: None,
            buffer_setup_info: BufferSetupInfo {
                is_dirty: true,
                viewport: None,
                use_default_buffer: false,
            },
            disabled_reasons: BitSet64::new(),
            descriptor: Descriptor::new(),
            executer: PipelineExecuter::new(),
            renderpass_id,
        };
        assert(r@.clear_colors =~= Seq::new(MAX_OUTPUT_SLOT as nat, |i: int| None::<Rgba>));
        assert(r@.color_targets =~= Seq::new(MAX_OUTPUT_SLOT as nat, |i: int| None::<Texture>));
        r
    }

    /// When dirty, attaches every target to the offscreen framebuffer,
    /// records the size they resolve to, and marks the setup clean.
    fn setup_framebuffer_impl(&mut self, cmd: &mut Command)
        ensures
            final(self)@ == (RenderPassModel { setup: resolved_setup(old(self)@), ..old(self)@ }),
            final(cmd)@ == (CommandModel { ops: old(cmd)@.ops + setup_ops(old(self)@), ..old(cmd)@ }),
    {
        if !self.buffer_setup_info.is_dirty {
            assert(old(cmd)@.ops + setup_ops(old(self)@) =~= old(cmd)@.ops);
            return;
        }
        let ghost c0 = cmd@;
        let ghost ts = self.color_targets@;
        cmd.emit(GpuOp::BeginFramebufferSetup { renderpass: self.renderpass_id });
        let mut max_w: i32 = 0;
        let mut max_h: i32 = 0;
        let mut bound = false;
        let mut i: usize = 0;
        assert(ts.take(0).len() == 0);
        assert(cmd@.ops =~= c0.ops + seq![GpuOp::BeginFramebufferSetup { renderpass: self.renderpass_id }]
            + color_attach_ops(ts.take(0)));
        while i < MAX_OUTPUT_SLOT
            invariant
                i <= MAX_OUTPUT_SLOT,
                ts == self.color_targets@,
                self@ == old(self)@,
                ts.len() == MAX_OUTPUT_SLOT,
                max_w == max_width(present(ts.take(i as int))),
                max_h == max_height(present(ts.take(i as int))),
                bound == (present(ts.take(i as int)).len() > 0),
                cmd@ == (CommandModel {
                    ops: c0.ops + seq![GpuOp::BeginFramebufferSetup { renderpass: self.renderpass_id }]
                        + color_attach_ops(ts.take(i as int)),
                    ..c0
                }),
            decreases MAX_OUTPUT_SLOT - i,
        {
            proof {
                lemma_present_step(ts, i as int);
            }
            match self.color_targets[i] {
                Some(t) => {
                    proof {
                        let p = present(ts.take(i as int));
                        assert(p.push(t).drop_last() =~= p);
                    }
                    cmd.emit(GpuOp::AttachColor { slot: i, texture: t.id });
                    if t.width > max_w {
                        max_w = t.width;
                    }
                    if t.height > max_h {
                        max_h = t.height;
                    }
                    bound = true;
                },
                None => {},
            }
            i = i + 1;
        }
        assert(ts.take(MAX_OUTPUT_SLOT as int) =~= ts);
        let ghost colors = present(ts);
        match self.depth_target {
            Some(d) => {
                cmd.emit(GpuOp::AttachDepth { texture: d.id });
                if d.width > max_w {
                    max_w = d.width;
                }
                if d.height > max_h {
                    max_h = d.height;
                }
                bound = true;
                assert(attachments(self@) == colors.push(d));
                assert(colors.push(d).drop_last() =~= colors);
            },
            None => {
                assert(attachments(self@) =~= colors);
            },
        }
        cmd.emit(GpuOp::EndFramebufferSetup);
        self.buffer_setup_info.is_dirty = false;
        self.buffer_setup_info.viewport = if bound {
            Some(Rect { x: 0, y: 0, width: max_w, height: max_h })
        } else {
            None
        };
        assert(cmd@.ops =~= old(cmd)@.ops + setup_ops(old(self)@));
    }

    /// Binds the target chosen from the setup record.
    fn bind_framebuffer_impl(&self, cmd: &mut Command)
        ensures
            final(cmd)@ == target_step(
                old(cmd)@,
                self@.setup,
                self@.renderpass_id,
            ),
    {
        let info = self.buffer_setup_info;
        if info.viewport.is_some() {
            if info.use_default_buffer {
                cmd.report(ConfigError::TargetConflict);
            }
            cmd.emit(GpuOp::BindFramebuffer { renderpass: self.renderpass_id });
        } else if info.use_default_buffer {
            cmd.emit(GpuOp::BindDefaultFramebuffer);
        } else {
            cmd.report(ConfigError::NoTarget);
        }
    }

    /// Sets the viewport that applies, or reports that none does.
    fn viewport_impl(&self, cmd: &mut Command)
        ensures
            final(cmd)@ == viewport_step(old(cmd)@, self@.viewport, self@.setup),
    {
        match self.viewport {
            Some(rect) => cmd.emit(GpuOp::SetViewport { rect }),
            None => match self.buffer_setup_info.viewport {
                Some(rect) => cmd.emit(GpuOp::SetViewport { rect }),
                None => cmd.report(ConfigError::NoViewport),
            },
        }
    }

    /// Issues the configured clear values and one clear call.
    fn clear_impl(&self, cmd: &mut Command)
        ensures
            final(cmd)@ == (CommandModel { ops: old(cmd)@.ops + clear_ops(self@), ..old(cmd)@ }),
    {
        let ghost c0 = cmd@;
        let ghost cs = self.clear_colors@;
        let mut color = false;
        let mut i: usize = 0;
        while i < MAX_OUTPUT_SLOT
            invariant
                i <= MAX_OUTPUT_SLOT,
                cs == self.clear_colors@,
                cs.len() == MAX_OUTPUT_SLOT,
                color == (exists|k: int| 0 <= k < i && (#[trigger] cs[k]) is Some),
                cmd@ == (CommandModel { ops: c0.ops + clear_color_ops(cs.take(i as int)), ..c0 }),
            decreases MAX_OUTPUT_SLOT - i,
        {
            assert(cs.take(i + 1).drop_last() =~= cs.take(i as int));
            match self.clear_colors[i] {
                Some(c) => {
                    cmd.emit(GpuOp::ClearColor { slot: i, color: c });
                    color = true;
                },
                None => {},
            }
            i = i + 1;
        }
        assert(cs.take(MAX_OUTPUT_SLOT as int) =~= cs);
        match self.clear_depth {
            Some(depth) => cmd.emit(GpuOp::ClearDepth { depth }),
            None => {},
        }
        match self.clear_stencil {
            Some(stencil) => cmd.emit(GpuOp::ClearStencil { stencil }),
            None => {},
        }
        let depth = self.clear_depth.is_some();
        let stencil = self.clear_stencil.is_some();
        if color || depth || stencil {
            cmd.emit(GpuOp::Clear { color, depth, stencil });
        }
        assert(cmd@.ops =~= c0.ops + clear_ops(self@));
    }

    /// Draws this pass inside the scopes of `outer_ctx`.
    pub fn draw(
        &mut self,
        pipelines: &Pool<Pipeline>,
        vaos: &mut Pool<Vao>,
        cmd: &mut Command,
        outer_ctx: &DescriptorContext,
    )
        ensures
            final(self)@ == renderpass_after(old(self)@, pipelines@),
            draw_state(*final(vaos), *final(cmd)) == renderpass_draw(
                draw_state(*old(vaos), *old(cmd)),
                old(self)@,
                pipelines@,
                outer_ctx.descriptors(),
            ),
    {
        if self.disabled() {
            return;
        }
        self.setup_framebuffer_impl(cmd);
        self.bind_framebuffer_impl(cmd);
        self.viewport_impl(cmd);
        self.clear_impl(cmd);
        let ctx = outer_ctx.cons(&self.descriptor);
        self.executer.execute(pipelines, vaos, cmd, &ctx);
    }

    /// Attaches `target` (or nothing) to color slot 0.
    pub fn set_color_target(&mut self, target: Option<Texture>)
        ensures
            final(self)@ == (RenderPassModel {
                color_targets: old(self)@.color_targets.update(0, target),
                setup: BufferSetupInfo { is_dirty: true, ..old(self)@.setup },
                ..old(self)@
            }),
    {
        let _ = self.set_color_target_by_slot(target, 0);
    }

    /// Sets (or unsets) the clear color of slot 0.
    pub fn set_clear_color(&mut self, value: Option<Rgba>)
        ensures
            final(self)@ == (RenderPassModel {
                clear_colors: old(self)@.clear_colors.update(0, value),
                ..old(self)@
            }),
    {
        let _ = self.set_clear_color_by_slot(value, 0);
    }

    /// Sets (or unsets) the depth clear value, as the bits of an `f32`.
    pub fn set_clear_depth(&mut self, value: Option<u32>)
        ensures
            final(self)@ == (RenderPassModel { clear_depth: value, ..old(self)@ }),
    {
        self.clear_depth = value;
    }

    pub fn set_clear_stencil(&mut self, value: Option<i32>)
        ensures
            final(self)@ == (RenderPassModel { clear_stencil: value, ..old(self)@ }),
    {
        self.clear_stencil = value;
    }

    /// Sets (or withdraws) the explicit viewport, which takes precedence
    /// over the size of the attachments.
    pub fn set_viewport(&mut self, viewport: Option<Rect>)
        ensures
            final(self)@ == (RenderPassModel { viewport, ..old(self)@ }),
    {
        self.viewport = viewport;
    }

    pub fn set_use_default_buffer(&mut self, use_default_buffer: bool)
        ensures
            final(self)@ == (RenderPassModel {
                setup: BufferSetupInfo { use_default_buffer, ..old(self)@.setup },
                ..old(self)@
            }),
    {
        self.buffer_setup_info.use_default_buffer = use_default_buffer;
    }

    /// Attaches `target` (or nothing) as depth; the setup becomes dirty.
    pub fn set_depth_target(&mut self, target: Option<Texture>)
        ensures
            final(self)@ == (RenderPassModel {
                depth_target: target,
                setup: BufferSetupInfo { is_dirty: true, ..old(self)@.setup },
                ..old(self)@
            }),
    {
        self.depth_target = target;
        self.buffer_setup_info.is_dirty = true;
    }

    /// Attaches `target` (or nothing) to color slot `slot`, and the setup
    /// becomes dirty. A slot out of range is refused and nothing changes.
    pub fn set_color_target_by_slot(&mut self, target: Option<Texture>, slot: i32) -> (r: Result<(), ConfigError>)
        ensures
            0 <= slot < MAX_OUTPUT_SLOT ==> r is Ok && final(self)@ == (RenderPassModel {
                color_targets: old(self)@.color_targets.update(slot as int, target),
                setup: BufferSetupInfo { is_dirty: true, ..old(self)@.setup },
                ..old(self)@
            }),
            !(0 <= slot < MAX_OUTPUT_SLOT) ==> r == Err::<(), ConfigError>(ConfigError::InvalidSlot)
                && final(self)@ == old(self)@,
    {
        if slot < 0 || slot >= MAX_OUTPUT_SLOT as i32 {
            return Err(ConfigError::InvalidSlot);
        }
        self.color_targets[slot as usize] = target;
        self.buffer_setup_info.is_dirty = true;
        Ok(())
    }

    /// Sets (or unsets) the clear color of slot `slot`. A slot out of range
    /// is refused and nothing changes.
    pub fn set_clear_color_by_slot(&mut self, value: Option<Rgba>, slot: i32) -> (r: Result<(), ConfigError>)
        ensures
            0 <= slot < MAX_OUTPUT_SLOT ==> r is Ok && final(self)@ == (RenderPassModel {
                clear_colors: old(self)@.clear_colors.update(slot as int, value),
                ..old(self)@
            }),
            !(0 <= slot < MAX_OUTPUT_SLOT) ==> r == Err::<(), ConfigError>(ConfigError::InvalidSlot)
                && final(self)@ == old(self)@,
    {
        if slot < 0 || slot >= MAX_OUTPUT_SLOT as i32 {
            return Err(ConfigError::InvalidSlot);
        }
        self.clear_colors[slot as usize] = value;
        Ok(())
    }

    /// Appends a uniform buffer to this pass's descriptor.
    pub fn add_uniform_buffer(&mut self, buffer: u64)
        ensures
            final(self)@ == (RenderPassModel {
                descriptor: DescriptorModel {
                    u_buffers: old(self)@.descriptor.u_buffers.push(buffer),
                    ..old(self)@.descriptor
                },
                ..old(self)@
            }),
    {
        self.descriptor.add_uniform_buffer(buffer);
    }

    /// Appends a texture mapping to this pass's descriptor.
    pub fn add_texture_mapping(&mut self, mapping: u64)
        ensures
            final(self)@ == (RenderPassModel {
                descriptor: DescriptorModel {
                    u_textures: old(self)@.descriptor.u_textures.push(mapping),
                    ..old(self)@.descriptor
                },
                ..old(self)@
            }),
    {
        self.descriptor.add_texture_mapping(mapping);
    }

    /// Lets `bindable` attach itself to this pass.
    pub fn add<B: RenderPassBindable>(&mut self, bindable: &B) {
        bindable.bind_renderpass(self);
    }

    /// Hands `pipeline` over to this pass, at draw order 0.
    pub fn own_pipeline(&mut self, pool: &mut Pool<Pipeline>, pipeline: Pipeline) -> (h: Handle)
        requires
            old(pool)@.len() < usize::MAX,
        ensures
            h.index == old(pool)@.len(),
            final(pool)@ == old(pool)@.push(Some(pipeline)),
            final(self)@ == (RenderPassModel {
                executer: ExecuterModel {
                    entries: old(self)@.executer.entries.push(ExecuteInfo { handle: h, order: 0 }),
                    owns: old(self)@.executer.owns.push(h),
                    need_sort: true,
                },
                ..old(self)@
            }),
    {
        self.executer.own(pool, pipeline, 0)
    }

    /// Hands `pipeline` over to this pass, at draw order `priority`.
    pub fn own_pipeline_with_priority(
        &mut self,
        pool: &mut Pool<Pipeline>,
        pipeline: Pipeline,
        priority: usize,
    ) -> (h: Handle)
        requires
            old(pool)@.len() < usize::MAX,
        ensures
            h.index == old(pool)@.len(),
            final(pool)@ == old(pool)@.push(Some(pipeline)),
            final(self)@ == (RenderPassModel {
                executer: ExecuterModel {
                    entries: old(self)@.executer.entries.push(
                        ExecuteInfo { handle: h, order: priority },
                    ),
                    owns: old(self)@.executer.owns.push(h),
                    need_sort: true,
                },
                ..old(self)@
            }),
    {
        self.executer.own(pool, pipeline, priority)
    }

    /// Drops the owning side of every pipeline handed over to this pass.
    pub fn drop_owned_pipelines(&mut self, pool: &mut Pool<Pipeline>)
        ensures
            final(pool)@ == without(old(pool)@, old(self)@.executer.owns),
            final(self)@ == (RenderPassModel {
                executer: ExecuterModel { owns: seq![], ..old(self)@.executer },
                ..old(self)@
            }),
    {
        self.executer.drop_owned(pool);
    }

    /// Registers a pipeline owned elsewhere, at draw order 0.
    pub fn add_pipeline(&mut self, pipeline: Handle)
        ensures
            final(self)@ == (RenderPassModel {
                executer: ExecuterModel {
                    entries: old(self)@.executer.entries.push(
                        ExecuteInfo { handle: pipeline, order: 0 },
                    ),
                    owns: old(self)@.executer.owns,
                    need_sort: true,
                },
                ..old(self)@
            }),
    {
        self.executer.add(pipeline, 0);
    }

    /// Registers a pipeline owned elsewhere, at draw order `priority`.
    pub fn add_pipeline_with_priority(&mut self, pipeline: Handle, priority: usize)
        ensures
            final(self)@ == (RenderPassModel {
                executer: ExecuterModel {
                    entries: old(self)@.executer.entries.push(
                        ExecuteInfo { handle: pipeline, order: priority },
                    ),
                    owns: old(self)@.executer.owns,
                    need_sort: true,
                },
                ..old(self)@
            }),
    {
        self.executer.add(pipeline, priority);
    }

    /// Adds (`disabled`) or withdraws reason `reason` to skip this pass.
    pub fn set_disabled(&mut self, disabled: bool, reason: usize)
        requires
            reason < BIT_COUNT,
        ensures
            final(self)@ == (RenderPassModel {
                disabled_reasons: if disabled {
                    old(self)@.disabled_reasons.insert(reason as int)
                } else {
                    old(self)@.disabled_reasons.remove(reason as int)
                },
                ..old(self)@
            }),
    {
        self.disabled_reasons.set(reason, disabled);
    }

    /// True while any reason to skip this pass is present.
    pub fn disabled(&self) -> (r: bool)
        ensures
            r == (self@.disabled_reasons != Set::<int>::empty()),
    {
        self.disabled_reasons.any()
    }

    /// The framebuffer setup record.
    pub fn buffer_setup_info(&self) -> (r: BufferSetupInfo)
        ensures
            r == self@.setup,
    {
        self.buffer_setup_info
    }

    pub fn renderpass_id(&self) -> (r: u64)
        ensures
            r == self@.renderpass_id,
    {
        self.renderpass_id
    }
}

/// Something that knows how to attach itself to a render pass.
pub trait RenderPassBindable {
    fn bind_renderpass(&self, renderpass: &mut RenderPass);
}

/// A handle to a pipeline attaches it, without ownership, at draw order 0.
impl RenderPassBindable for Handle {
    fn bind_renderpass(&self, renderpass: &mut RenderPass) {
        renderpass.add_pipeline(*self);
    }
}

} // verus!
