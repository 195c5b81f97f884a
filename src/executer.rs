use vstd::prelude::*;
use crate::descriptor::{draw_state, DescriptorContext, DescriptorModel, DrawState};
use crate::pipeline::{pipeline_draw, Pipeline};
use crate::order::{
    lemma_stable_sort, lemma_stable_sort_contains, sort_by_rank, sorted_by_rank, stable_sort,
    with_rank, Ranked,
};
use crate::pool::{live, without, Handle, Pool};
use crate::renderpass::{renderpass_after, renderpass_draw, RenderPass, RenderPassModel};
use crate::gpu::Command;
use crate::vao::Vao;

verus! {

broadcast use vstd::seq_lib::group_seq_properties;

/// A registry entry: a non-owning handle and its draw order (ascending).
#[derive(Clone, Copy, Debug, PartialEq, Eq, Structural)]
pub struct ExecuteInfo {
    pub handle: Handle,
    pub order: usize,
}

impl Ranked for ExecuteInfo {
    open spec fn rank(&self) -> int {
        self.order as int
    }

    fn ranks_above(&self, other: &Self) -> (r: bool) {
        self.order > other.order
    }
}

/// The entries whose handle still resolves in `slots`.
pub open spec fn live_entries<T>(s: Seq<ExecuteInfo>, slots: Seq<Option<T>>) -> Seq<ExecuteInfo> {
    s.filter(alive_in(slots))
}

/// Holds of an entry whose handle resolves in `slots`.
pub open spec fn alive_in<T>(slots: Seq<Option<T>>) -> spec_fn(ExecuteInfo) -> bool {
    |e: ExecuteInfo| live(slots, e.handle)
}

/// After an execution, an entry is still registered exactly when it was
/// registered before and its item is still alive, whatever the order of the
/// registrations and of the removals that came before.
pub proof fn lemma_execute_keeps_live<T>(m: ExecuterModel, slots: Seq<Option<T>>, e: ExecuteInfo)
    ensures
        live_entries(visit_order(m), slots).contains(e) <==> m.entries.contains(e) && live(
            slots,
            e.handle,
        ),
{
    broadcast use vstd::seq_lib::group_filter_ensures;

    let p = alive_in(slots);
    let v = visit_order(m);
    lemma_stable_sort_contains(m.entries, e);
    if v.contains(e) && live(slots, e.handle) {
        let i = choose|i: int| 0 <= i < v.len() && v[i] == e;
        v.lemma_filter_contains(p, i);
    }
    if v.filter(p).contains(e) {
        v.lemma_filter_contains_rev(p, e);
        let i = choose|i: int| 0 <= i < v.filter(p).len() && v.filter(p)[i] == e;
        v.lemma_filter_pred(p, i);
    }
}

/// An execution visits entries of equal order in the order they were
/// registered; after registrations it visits them by ascending order.
pub proof fn lemma_execute_order(m: ExecuterModel, k: usize)
    ensures
        with_rank(visit_order(m), k as int) == with_rank(m.entries, k as int),
        m.need_sort ==> sorted_by_rank(visit_order(m)),
{
    lemma_stable_sort(m.entries, k as int);
}

/// Drawing the entries of `entries` in turn: each one whose pipeline is
/// alive is drawn inside `outer`; the others are skipped silently.
pub open spec fn pipelines_draw(
    st: DrawState,
    slots: Seq<Option<Pipeline>>,
    entries: Seq<ExecuteInfo>,
    outer: Seq<DescriptorModel>,
) -> DrawState
    decreases entries.len(),
{
    if entries.len() == 0 {
        st
    } else {
        let st1 = pipelines_draw(st, slots, entries.drop_last(), outer);
        let h = entries.last().handle;
        if live(slots, h) {
            pipeline_draw(st1, slots[h.index as int]->0@, outer)
        } else {
            st1
        }
    }
}

/// Orders and draws pipelines. Entries hold non-owning handles; pipelines
/// handed over with `own` are also listed as owned.
pub struct PipelineExecuter {
    pipelines: Vec<ExecuteInfo>,
    owns: Vec<Handle>,
    need_sort: bool,
}

/// What an executer holds, as spec values.
pub struct ExecuterModel {
    pub entries: Seq<ExecuteInfo>,
    pub owns: Seq<Handle>,
    pub need_sort: bool,
}

impl View for PipelineExecuter {
    type V = ExecuterModel;

    closed spec fn view(&self) -> ExecuterModel {
        ExecuterModel { entries: self.pipelines@, owns: self.owns@, need_sort: self.need_sort }
    }
}

/// The entries in the order the next execution visits them.
pub open spec fn visit_order(m: ExecuterModel) -> Seq<ExecuteInfo> {
    if m.need_sort {
        stable_sort(m.entries)
    } else {
        m.entries
    }
}

impl PipelineExecuter {
    pub fn new() -> (r: PipelineExecuter)
        ensures
            r@ == (ExecuterModel { entries: seq![], owns: seq![], need_sort: false }),
    {
        PipelineExecuter { pipelines: Vec::new(), owns: Vec::new(), need_sort: false }
    }

    /// The registered entries, in their current order.
    pub fn entries(&self) -> (r: &Vec<ExecuteInfo>)
        ensures
            r@ == self@.entries,
    {
        &self.pipelines
    }

    /// Registers `pipeline`, without owning it, at draw order `order`.
    pub fn add(&mut self, pipeline: Handle, order: usize)
        ensures
            final(self)@ == (ExecuterModel {
                entries: old(self)@.entries.push(ExecuteInfo { handle: pipeline, order }),
                owns: old(self)@.owns,
                need_sort: true,
            }),
    {
        self.pipelines.push(ExecuteInfo { handle: pipeline, order });
        self.need_sort = true;
    }

    /// Takes `pipeline` into `pool` as owned by this executer and registers
    /// it at draw order `order`.
    pub fn own(&mut self, pool: &mut Pool<Pipeline>, pipeline: Pipeline, order: usize) -> (h: Handle)
        requires
            old(pool)@.len() < usize::MAX,
        ensures
            h.index == old(pool)@.len(),
            final(pool)@ == old(pool)@.push(Some(pipeline)),
            final(self)@ == (ExecuterModel {
                entries: old(self)@.entries.push(ExecuteInfo { handle: h, order }),
                owns: old(self)@.owns.push(h),
                need_sort: true,
            }),
    {
        let h = pool.insert(pipeline);
        self.add(h, order);
        self.owns.push(h);
        h
    }

    /// Drops the owning side of every pipeline this executer owns; their
    /// entries go at the next execution.
    pub fn drop_owned(&mut self, pool: &mut Pool<Pipeline>)
        ensures
            final(pool)@ == without(old(pool)@, old(self)@.owns),
            final(self)@ == (ExecuterModel { owns: seq![], ..old(self)@ }),
    {
        pool.remove_all(&self.owns);
        self.owns = Vec::new();
    }

    /// Sorts the entries if needed, draws each live pipeline in order inside
    /// `outer_ctx`, and drops the entries whose pipeline is gone.
    pub fn execute(
        &mut self,
        pool: &Pool<Pipeline>,
        vaos: &mut Pool<Vao>,
        cmd: &mut Command,
        outer_ctx: &DescriptorContext,
    )
        ensures
            final(self)@ == (ExecuterModel {
                entries: live_entries(visit_order(old(self)@), pool@),
                owns: old(self)@.owns,
                need_sort: false,
            }),
            draw_state(*final(vaos), *final(cmd)) == pipelines_draw(
                draw_state(*old(vaos), *old(cmd)),
                pool@,
                visit_order(old(self)@),
                outer_ctx.descriptors(),
            ),
    {
        if self.need_sort {
            sort_by_rank(&mut self.pipelines);
            self.need_sort = false;
        }
        let ghost order = self.pipelines@;
        let ghost st0 = draw_state(*vaos, *cmd);
        let mut kept: Vec<ExecuteInfo> = Vec::new();
        let mut i: usize = 0;
        while i < self.pipelines.len()
            invariant
                i <= self.pipelines.len(),
                self.pipelines@ == order,
                kept@ == live_entries(order.take(i as int), pool@),
                draw_state(*vaos, *cmd) == pipelines_draw(
                    st0,
                    pool@,
                    order.take(i as int),
                    outer_ctx.descriptors(),
                ),
            decreases self.pipelines.len() - i,
        {
            let e = self.pipelines[i];
            proof {
                assert(order.take(i + 1) =~= order.take(i as int).push(e));
                order.take(i as int).lemma_filter_push(e, alive_in(pool@));
                assert(order.take(i + 1).drop_last() =~= order.take(i as int));
            }
            match pool.get(e.handle) {
                Some(p) => {
                    p.draw(vaos, cmd, outer_ctx);
                    kept.push(e);
                },
                None => {},
            }
            i = i + 1;
        }
        assert(order.take(i as int) =~= order);
        self.pipelines = kept;
    }
}

/// The state that a frame changes: the render passes and the draw state.
pub struct FrameState {
    pub passes: Seq<Option<RenderPassModel>>,
    pub draw: DrawState,
}

pub open spec fn pass_models(slots: Seq<Option<RenderPass>>) -> Seq<Option<RenderPassModel>> {
    Seq::new(
        slots.len(),
        |i: int|
            match slots[i] {
                Some(p) => Some(p@),
                None => None,
            },
    )
}

pub open spec fn frame_state(passes: Pool<RenderPass>, vaos: Pool<Vao>, cmd: Command) -> FrameState {
    FrameState { passes: pass_models(passes@), draw: draw_state(vaos, cmd) }
}

/// Drawing the entries of `entries` in turn: each render pass that is alive
/// is drawn at the top level (no outer scope) and keeps the state its draw
/// left it in; the others are skipped silently.
pub open spec fn passes_draw(
    fs: FrameState,
    entries: Seq<ExecuteInfo>,
    pipelines: Seq<Option<Pipeline>>,
) -> FrameState
    decreases entries.len(),
{
    if entries.len() == 0 {
        fs
    } else {
        let f1 = passes_draw(fs, entries.drop_last(), pipelines);
        let h = entries.last().handle;
        if live(f1.passes, h) {
            let m = f1.passes[h.index as int]->0;
            FrameState {
                passes: f1.passes.update(h.index as int, Some(renderpass_after(m, pipelines))),
                draw: renderpass_draw(f1.draw, m, pipelines, seq![]),
            }
        } else {
            f1
        }
    }
}

proof fn lemma_passes_draw_keeps_live(
    fs: FrameState,
    entries: Seq<ExecuteInfo>,
    pipelines: Seq<Option<Pipeline>>,
)
    ensures
        passes_draw(fs, entries, pipelines).passes.len() == fs.passes.len(),
        forall|h: Handle| #[trigger]
            live(passes_draw(fs, entries, pipelines).passes, h) == live(fs.passes, h),
    decreases entries.len(),
{
    if entries.len() > 0 {
        lemma_passes_draw_keeps_live(fs, entries.drop_last(), pipelines);
        let f1 = passes_draw(fs, entries.drop_last(), pipelines);
        assert forall|h: Handle| #[trigger]
            live(passes_draw(fs, entries, pipelines).passes, h) == live(fs.passes, h) by {
            assert(live(f1.passes, h) == live(fs.passes, h));
        }
    }
}

/// Removing the render passes that the handles of `hs` reach, in turn,
/// each together with the pipelines that pass owns.
pub open spec fn cascade_drop(
    passes: Seq<Option<RenderPassModel>>,
    pipelines: Seq<Option<Pipeline>>,
    hs: Seq<Handle>,
) -> (Seq<Option<RenderPassModel>>, Seq<Option<Pipeline>>)
    decreases hs.len(),
{
    if hs.len() == 0 {
        (passes, pipelines)
    } else {
        let (p1, q1) = cascade_drop(passes, pipelines, hs.drop_last());
        let h = hs.last();
        if live(p1, h) {
            (p1.update(h.index as int, None), without(q1, p1[h.index as int]->0.executer.owns))
        } else {
            (p1, q1)
        }
    }
}

/// The frame's registry of render passes: orders them, draws the live ones
/// each frame, and drops the entries of passes that are gone.
pub struct RenderPassExecuterImpl {
    passes: Vec<ExecuteInfo>,
    owns: Vec<Handle>,
    need_sort: bool,
}

impl View for RenderPassExecuterImpl {
    type V = ExecuterModel;

    closed spec fn view(&self) -> ExecuterModel {
        ExecuterModel { entries: self.passes@, owns: self.owns@, need_sort: self.need_sort }
    }
}

impl RenderPassExecuterImpl {
    pub fn new() -> (r: RenderPassExecuterImpl)
        ensures
            r@ == (ExecuterModel { entries: seq![], owns: seq![], need_sort: false }),
    {
        RenderPassExecuterImpl { passes: Vec::new(), owns: Vec::new(), need_sort: false }
    }

    /// The registered entries, in their current order.
    pub fn entries(&self) -> (r: &Vec<ExecuteInfo>)
        ensures
            r@ == self@.entries,
    {
        &self.passes
    }

    /// Registers `pass`, without owning it, at draw order `order`.
    pub fn add(&mut self, pass: Handle, order: usize)
        ensures
            final(self)@ == (ExecuterModel {
                entries: old(self)@.entries.push(ExecuteInfo { handle: pass, order }),
                owns: old(self)@.owns,
                need_sort: true,
            }),
    {
        self.passes.push(ExecuteInfo { handle: pass, order });
        self.need_sort = true;
    }

    /// Takes `pass` into `pool` as owned by this registry and registers it
    /// at draw order `order`.
    pub fn own(&mut self, pool: &mut Pool<RenderPass>, pass: RenderPass, order: usize) -> (h: Handle)
        requires
            old(pool)@.len() < usize::MAX,
        ensures
            h.index == old(pool)@.len(),
            final(pool)@ == old(pool)@.push(Some(pass)),
            final(self)@ == (ExecuterModel {
                entries: old(self)@.entries.push(ExecuteInfo { handle: h, order }),
                owns: old(self)@.owns.push(h),
                need_sort: true,
            }),
    {
        let h = pool.insert(pass);
        self.add(h, order);
        self.owns.push(h);
        h
    }

    /// Drops the owning side of every render pass this registry owns, and
    /// with each pass the pipelines it owns; their entries go at the next
    /// execution.
    pub fn drop_owned(&mut self, passes: &mut Pool<RenderPass>, pipelines: &mut Pool<Pipeline>)
        ensures
            (pass_models(final(passes)@), final(pipelines)@) == cascade_drop(
                pass_models(old(passes)@),
                old(pipelines)@,
                old(self)@.owns,
            ),
            final(self)@ == (ExecuterModel { owns: seq![], ..old(self)@ }),
    {
        let mut k: usize = 0;
        while k < self.owns.len()
            invariant
                k <= self.owns.len(),
                self@ == old(self)@,
                (pass_models(passes@), pipelines@) == cascade_drop(
                    pass_models(old(passes)@),
                    old(pipelines)@,
                    self.owns@.take(k as int),
                ),
            decreases self.owns.len() - k,
        {
            let h = self.owns[k];
            let ghost before = passes@;
            proof {
                assert(self.owns@.take(k + 1).drop_last() =~= self.owns@.take(k as int));
                assert(live(pass_models(before), h) == live(before, h));
            }
            match passes.remove(h) {
                Some(mut pass) => {
                    pass.drop_owned_pipelines(pipelines);
                    assert(pass_models(passes@) =~= pass_models(before).update(h.index as int, None));
                },
                None => {},
            }
            k = k + 1;
        }
        assert(self.owns@.take(k as int) =~= self.owns@);
        self.owns = Vec::new();
    }

    /// Draws one frame: sorts the entries if needed, draws each live pass in
    /// order, and drops the entries whose pass is gone.
    pub fn execute(
        &mut self,
        passes: &mut Pool<RenderPass>,
        pipelines: &Pool<Pipeline>,
        vaos: &mut Pool<Vao>,
        cmd: &mut Command,
    )
        ensures
            final(self)@ == (ExecuterModel {
                entries: live_entries(visit_order(old(self)@), old(passes)@),
                owns: old(self)@.owns,
                need_sort: false,
            }),
            frame_state(*final(passes), *final(vaos), *final(cmd)) == passes_draw(
                frame_state(*old(passes), *old(vaos), *old(cmd)),
                visit_order(old(self)@),
                pipelines@,
            ),
    {
        if self.need_sort {
            sort_by_rank(&mut self.passes);
            self.need_sort = false;
        }
        let ghost order = self.passes@;
        let ghost slots0 = passes@;
        let ghost fs0 = frame_state(*passes, *vaos, *cmd);
        let nil = DescriptorContext::nil();
        let mut kept: Vec<ExecuteInfo> = Vec::new();
        let mut i: usize = 0;
        while i < self.passes.len()
            invariant
                i <= self.passes.len(),
                self.passes@ == order,
                nil.descriptors() == Seq::<DescriptorModel>::empty(),
                kept@ == live_entries(order.take(i as int), slots0),
                passes@.len() == slots0.len(),
                forall|h: Handle| #[trigger] live(passes@, h) == live(slots0, h),
                frame_state(*passes, *vaos, *cmd) == passes_draw(fs0, order.take(i as int), pipelines@),
            decreases self.passes.len() - i,
        {
            let e = self.passes[i];
            proof {
                assert(order.take(i + 1) =~= order.take(i as int).push(e));
                order.take(i as int).lemma_filter_push(e, alive_in(slots0));
                assert(order.take(i + 1).drop_last() =~= order.take(i as int));
                lemma_passes_draw_keeps_live(fs0, order.take(i as int), pipelines@);
            }
            if passes.contains(e.handle) {
                let ghost before = passes@;
                let p = passes.get_mut(e.handle);
                p.draw(pipelines, vaos, cmd, &nil);
                kept.push(e);
                proof {
                    assert(pass_models(passes@) =~= pass_models(before).update(
                        e.handle.index as int,
                        Some(passes@[e.handle.index as int]->0@),
                    ));
                    assert forall|h: Handle| #[trigger] live(passes@, h) == live(slots0, h) by {
                        assert(live(before, h) == live(slots0, h));
                    }
                }
            }
            i = i + 1;
        }
        assert(order.take(i as int) =~= order);
        self.passes = kept;
    }
}

} // verus!
