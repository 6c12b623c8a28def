//! The draw calls of one frame.
//!
//! The quads of a frame are drawn in the order in which they were submitted.
//! Quads that follow one another and share a shader are drawn together, a
//! bounded number at a time: a batch is such a run, with what has to happen
//! before its draw call.

use vstd::prelude::*;
use crate::primitive::Rectangle;

verus! {

/// One draw call: the instances `first .. first + count` of the frame.
#[derive(Clone, Copy, Debug, PartialEq, Eq, Structural)]
pub struct Batch {
    /// The index of the first instance of the batch.
    pub first: usize,
    /// The number of instances in the batch.
    pub count: u32,
    /// The identity of the shader that every instance of the batch uses.
    pub shader: u64,
    /// The module of the shader has not been compiled yet: it is to be
    /// compiled, from the source of the first instance, before it is bound.
    pub compile: bool,
    /// The bound pipeline object belongs to another shader: a new one is to
    /// be built from the module of this shader and bound before the draw.
    pub bind: bool,
    /// The scissor rectangle of the draw call.
    pub clip: Rectangle<u32>,
}

impl Batch {
    /// The index just after the last instance of the batch.
    pub open spec fn end(&self) -> int {
        self.first + self.count
    }
}

/// The batch is a run of `ids`: at least one and at most `max` instances that
/// all have the batch's shader, and as long as those two rules allow.
pub open spec fn is_run(ids: Seq<u64>, max: nat, batch: Batch) -> bool {
    &&& 0 <= batch.first < batch.end() <= ids.len()
    &&& batch.count <= max
    &&& forall|i: int| batch.first <= i < batch.end() ==> ids[i] == batch.shader
    &&& (batch.end() == ids.len() || batch.count == max || ids[batch.end()] != batch.shader)
}

/// No module of `shader` exists when the instance at `first` is reached: none
/// was cached before the frame, and no earlier instance of the frame uses it.
pub open spec fn is_first_use(ids: Seq<u64>, cached: Set<u64>, first: int, shader: u64) -> bool {
    &&& !cached.contains(shader)
    &&& forall|i: int| 0 <= i < first ==> ids[i] != shader
}

/// The shader whose pipeline object is bound when the instance at `first` is
/// reached: that of the instance before it, or what the frame began with.
pub open spec fn bound_at(ids: Seq<u64>, bound: Option<u64>, first: int) -> Option<u64> {
    if 0 < first <= ids.len() {
        Some(ids[first - 1])
    } else {
        bound
    }
}

/// The batch is what the frame needs at `batch.first`.
pub open spec fn batch_fits(
    ids: Seq<u64>,
    cached: Set<u64>,
    bound: Option<u64>,
    max: nat,
    clip: Rectangle<u32>,
    batch: Batch,
) -> bool {
    &&& is_run(ids, max, batch)
    &&& batch.compile == is_first_use(ids, cached, batch.first as int, batch.shader)
    &&& batch.bind == (bound_at(ids, bound, batch.first as int) != Some(batch.shader))
    &&& batch.clip == clip
}

/// The shaders of the first `upto` instances.
pub open spec fn shaders_used(ids: Seq<u64>, upto: int) -> Set<u64> {
    Set::new(|shader: u64| exists|i: int| 0 <= i < upto && i < ids.len() && ids[i] == shader)
}

/// The batches follow one another without a gap, from the instance 0 on.
pub open spec fn is_chain(batches: Seq<Batch>) -> bool {
    &&& batches.len() > 0 ==> batches[0].first == 0
    &&& forall|j: int, k: int|
        0 <= j && k == j + 1 && k < batches.len() ==> (#[trigger] batches[k]).first == (
        #[trigger] batches[j]).end()
}

/// The index that a chain of batches has reached.
pub open spec fn chain_end(batches: Seq<Batch>) -> int {
    if batches.len() == 0 {
        0
    } else {
        batches.last().end()
    }
}

/// `batches` is the plan of a frame whose instances have the shaders `ids`,
/// for a pipeline that has cached the modules `cached`, has bound the pipeline
/// object of `bound`, and draws at most `max` instances at a time.
pub open spec fn is_plan(
    ids: Seq<u64>,
    cached: Set<u64>,
    bound: Option<u64>,
    max: nat,
    clip: Rectangle<u32>,
    batches: Seq<Batch>,
) -> bool {
    &&& is_chain(batches)
    &&& chain_end(batches) == ids.len()
    &&& forall|k: int|
        0 <= k < batches.len() ==> batch_fits(ids, cached, bound, max, clip, #[trigger] batches[k])
}

/// A run is known by where it starts: two runs of one frame that start at the
/// same instance have the same length and the same shader.
pub proof fn lemma_run_determined(ids: Seq<u64>, max: nat, a: Batch, b: Batch)
    requires
        is_run(ids, max, a),
        is_run(ids, max, b),
        a.first == b.first,
    ensures
        a.count == b.count,
        a.shader == b.shader,
{
    assert(ids[a.first as int] == a.shader);
    assert(ids[b.first as int] == b.shader);
    if a.count < b.count {
        assert(ids[a.end()] == b.shader);
    } else if b.count < a.count {
        assert(ids[b.end()] == a.shader);
    }
}

/// In two plans of one frame the batches at one place are the same.
pub proof fn lemma_plans_agree(
    ids: Seq<u64>,
    cached: Set<u64>,
    bound: Option<u64>,
    max: nat,
    clip: Rectangle<u32>,
    a: Seq<Batch>,
    b: Seq<Batch>,
    k: int,
)
    requires
        is_plan(ids, cached, bound, max, clip, a),
        is_plan(ids, cached, bound, max, clip, b),
        0 <= k < a.len(),
        k < b.len(),
    ensures
        a[k] == b[k],
    decreases k,
{
    if k > 0 {
        lemma_plans_agree(ids, cached, bound, max, clip, a, b, k - 1);
        assert(a[k].first == a[k - 1].end());
        assert(b[k].first == b[k - 1].end());
    }
    assert(batch_fits(ids, cached, bound, max, clip, a[k]));
    assert(batch_fits(ids, cached, bound, max, clip, b[k]));
    lemma_run_determined(ids, max, a[k], b[k]);
}

/// A frame has one plan: the contract of the planner leaves no choice.
pub proof fn lemma_plan_unique(
    ids: Seq<u64>,
    cached: Set<u64>,
    bound: Option<u64>,
    max: nat,
    clip: Rectangle<u32>,
    a: Seq<Batch>,
    b: Seq<Batch>,
)
    requires
        is_plan(ids, cached, bound, max, clip, a),
        is_plan(ids, cached, bound, max, clip, b),
    ensures
        a == b,
{
    if a.len() < b.len() {
        let n = a.len() as int;
        assert(batch_fits(ids, cached, bound, max, clip, b[n]));
        if n > 0 {
            lemma_plans_agree(ids, cached, bound, max, clip, a, b, n - 1);
            assert(b[n].first == b[n - 1].end());
        }
        assert(false);
    }
    if b.len() < a.len() {
        let n = b.len() as int;
        assert(batch_fits(ids, cached, bound, max, clip, a[n]));
        if n > 0 {
            lemma_plans_agree(ids, cached, bound, max, clip, a, b, n - 1);
            assert(a[n].first == a[n - 1].end());
        }
        assert(false);
    }
    assert forall|k: int| 0 <= k < a.len() implies a[k] == b[k] by {
        lemma_plans_agree(ids, cached, bound, max, clip, a, b, k);
    }
    assert(a =~= b);
}

/// Every instance of a batch has the shader of the batch: two instances with
/// different shaders are never drawn by one draw call.
pub proof fn lemma_batch_has_one_shader(
    ids: Seq<u64>,
    cached: Set<u64>,
    bound: Option<u64>,
    max: nat,
    clip: Rectangle<u32>,
    batches: Seq<Batch>,
    k: int,
    i: int,
    j: int,
)
    requires
        is_plan(ids, cached, bound, max, clip, batches),
        0 <= k < batches.len(),
        batches[k].first <= i < batches[k].end(),
        batches[k].first <= j < batches[k].end(),
    ensures
        ids[i] == batches[k].shader,
        ids[j] == batches[k].shader,
        ids[i] == ids[j],
{
    assert(batch_fits(ids, cached, bound, max, clip, batches[k]));
}

/// In a plan an earlier batch ends before a later one begins.
proof fn lemma_batches_in_order(
    ids: Seq<u64>,
    cached: Set<u64>,
    bound: Option<u64>,
    max: nat,
    clip: Rectangle<u32>,
    batches: Seq<Batch>,
    j: int,
    k: int,
)
    requires
        is_plan(ids, cached, bound, max, clip, batches),
        0 <= j < k < batches.len(),
    ensures
        batches[j].end() <= batches[k].first,
    decreases k - j,
{
    assert(batches[k].first == batches[k - 1].end());
    if j < k - 1 {
        lemma_batches_in_order(ids, cached, bound, max, clip, batches, j, k - 1);
        assert(batch_fits(ids, cached, bound, max, clip, batches[k - 1]));
    }
}

/// Every instance before the end of the batch at `k` is in a batch up to `k`.
proof fn lemma_covered_up_to(
    ids: Seq<u64>,
    cached: Set<u64>,
    bound: Option<u64>,
    max: nat,
    clip: Rectangle<u32>,
    batches: Seq<Batch>,
    i: int,
    k: int,
)
    requires
        is_plan(ids, cached, bound, max, clip, batches),
        0 <= k < batches.len(),
        0 <= i < batches[k].end(),
    ensures
        exists|j: int| 0 <= j <= k && (#[trigger] batches[j]).first <= i < batches[j].end(),
    decreases k,
{
    if i < batches[k].first {
        assert(batches[k].first == batches[k - 1].end());
        lemma_covered_up_to(ids, cached, bound, max, clip, batches, i, k - 1);
    }
}

/// Every instance of a frame is drawn, once, and by a batch of its own
/// shader: the plan skips nothing and repeats nothing.
pub proof fn lemma_instance_drawn_once(
    ids: Seq<u64>,
    cached: Set<u64>,
    bound: Option<u64>,
    max: nat,
    clip: Rectangle<u32>,
    batches: Seq<Batch>,
    i: int,
)
    requires
        is_plan(ids, cached, bound, max, clip, batches),
        0 <= i < ids.len(),
    ensures
        exists|k: int|
            0 <= k < batches.len() && (#[trigger] batches[k]).first <= i < batches[k].end()
                && batches[k].shader == ids[i],
        forall|j: int, k: int|
            0 <= j < batches.len() && 0 <= k < batches.len() && (#[trigger] batches[j]).first <= i
                < batches[j].end() && (#[trigger] batches[k]).first <= i < batches[k].end() ==> j
                == k,
{
    lemma_covered_up_to(ids, cached, bound, max, clip, batches, i, batches.len() - 1);
    let k = choose|k: int|
        0 <= k <= batches.len() - 1 && (#[trigger] batches[k]).first <= i < batches[k].end();
    assert(batch_fits(ids, cached, bound, max, clip, batches[k]));
    assert forall|j: int, k: int|
        0 <= j < batches.len() && 0 <= k < batches.len() && (#[trigger] batches[j]).first <= i
            < batches[j].end() && (#[trigger] batches[k]).first <= i < batches[k].end() implies j
        == k by {
        if j < k {
            lemma_batches_in_order(ids, cached, bound, max, clip, batches, j, k);
        } else if k < j {
            lemma_batches_in_order(ids, cached, bound, max, clip, batches, k, j);
        }
    }
}

/// The number of places among the first `upto` instances where an instance
/// has another shader than the one before it.
pub open spec fn shader_changes(ids: Seq<u64>, upto: int) -> nat
    decreases upto,
{
    if upto <= 1 || upto > ids.len() {
        0
    } else if ids[upto - 2] != ids[upto - 1] {
        shader_changes(ids, upto - 1) + 1
    } else {
        shader_changes(ids, upto - 1)
    }
}

/// Instances that share a shader add no change.
proof fn lemma_no_change_in_run(ids: Seq<u64>, from: int, to: int)
    requires
        0 <= from < to <= ids.len(),
        forall|i: int| from <= i < to ==> ids[i] == ids[from],
    ensures
        shader_changes(ids, to) == shader_changes(ids, from + 1),
    decreases to - from,
{
    if to > from + 1 {
        lemma_no_change_in_run(ids, from, to - 1);
        assert(ids[to - 2] == ids[from]);
        assert(ids[to - 1] == ids[from]);
    }
}

/// Up to the end of the batch at `k` the shader has changed at most `k` times.
proof fn lemma_changes_up_to_batch(
    ids: Seq<u64>,
    cached: Set<u64>,
    bound: Option<u64>,
    max: nat,
    clip: Rectangle<u32>,
    batches: Seq<Batch>,
    k: int,
)
    requires
        is_plan(ids, cached, bound, max, clip, batches),
        0 <= k < batches.len(),
    ensures
        shader_changes(ids, batches[k].end()) <= k,
    decreases k,
{
    let batch = batches[k];
    assert(batch_fits(ids, cached, bound, max, clip, batch));
    assert(ids[batch.first as int] == batch.shader);
    lemma_no_change_in_run(ids, batch.first as int, batch.end());
    if k > 0 {
        lemma_changes_up_to_batch(ids, cached, bound, max, clip, batches, k - 1);
        assert(batch.first == batches[k - 1].end());
    }
}

/// Wherever the shader changes a new batch begins: a frame in which the shader
/// changes `c` times takes at least `c + 1` draw calls, however few shaders it
/// uses.
pub proof fn lemma_batches_follow_shader_changes(
    ids: Seq<u64>,
    cached: Set<u64>,
    bound: Option<u64>,
    max: nat,
    clip: Rectangle<u32>,
    batches: Seq<Batch>,
)
    requires
        is_plan(ids, cached, bound, max, clip, batches),
        ids.len() > 0,
    ensures
        batches.len() >= shader_changes(ids, ids.len() as int) + 1,
{
    lemma_changes_up_to_batch(ids, cached, bound, max, clip, batches, batches.len() - 1);
}

/// The number of batches that `total` instances of one shader take, `max` at a
/// time: `total / max`, rounded up.
pub open spec fn batches_needed(total: nat, max: nat) -> nat {
    ((total + max - 1) / (max as int)) as nat
}

proof fn lemma_rounded_up(full: int, rest: int, max: int)
    by (nonlinear_arith)
    requires
        0 <= full,
        1 <= rest <= max,
    ensures
        (full * max + rest + max - 1) / max == full + 1,
{
}

/// In a frame of one shader the batch at `k` starts at `k * max`, and every
/// batch but the last is full.
proof fn lemma_single_shader_batch(
    ids: Seq<u64>,
    cached: Set<u64>,
    bound: Option<u64>,
    max: nat,
    clip: Rectangle<u32>,
    batches: Seq<Batch>,
    k: int,
)
    requires
        is_plan(ids, cached, bound, max, clip, batches),
        forall|i: int, j: int| 0 <= i < ids.len() && 0 <= j < ids.len() ==> ids[i] == ids[j],
        0 <= k < batches.len(),
    ensures
        batches[k].first == k * max,
        k + 1 < batches.len() ==> batches[k].count == max,
        k + 1 == batches.len() ==> batches[k].end() == ids.len(),
    decreases k,
{
    let batch = batches[k];
    assert(batch_fits(ids, cached, bound, max, clip, batch));
    if k == 0 {
        assert(batch.first == 0);
        assert(0 * max == 0) by (nonlinear_arith);
    } else {
        let before = batches[k - 1];
        lemma_single_shader_batch(ids, cached, bound, max, clip, batches, k - 1);
        assert(batch.first == before.end());
        assert(before.first == (k - 1) * max);
        assert(before.count == max);
        assert((k - 1) * max + max == k * max) by (nonlinear_arith);
    }
    if k + 1 < batches.len() {
        let next = batches[k + 1];
        assert(batch_fits(ids, cached, bound, max, clip, next));
        assert(next.first == batch.end());
        assert(ids[batch.end()] == ids[batch.first as int]);
    }
}

/// A frame of `N` instances that all share one shader takes `N / max` draw
/// calls, rounded up; the batch at `k` draws the instances from `k * max` on,
/// `max` of them or, in the last batch, what is left.
pub proof fn lemma_single_shader_plan(
    ids: Seq<u64>,
    cached: Set<u64>,
    bound: Option<u64>,
    max: nat,
    clip: Rectangle<u32>,
    batches: Seq<Batch>,
)
    requires
        is_plan(ids, cached, bound, max, clip, batches),
        forall|i: int, j: int| 0 <= i < ids.len() && 0 <= j < ids.len() ==> ids[i] == ids[j],
        max >= 1,
    ensures
        batches.len() == batches_needed(ids.len(), max),
        forall|k: int|
            0 <= k < batches.len() ==> {
                &&& (#[trigger] batches[k]).first == k * max
                &&& 1 <= batches[k].count <= max
                &&& batches[k].end() == if k + 1 < batches.len() {
                    (k + 1) * max
                } else {
                    ids.len() as int
                }
            },
{
    assert forall|k: int| 0 <= k < batches.len() implies {
        &&& (#[trigger] batches[k]).first == k * max
        &&& 1 <= batches[k].count <= max
        &&& batches[k].end() == if k + 1 < batches.len() {
            (k + 1) * max
        } else {
            ids.len() as int
        }
    } by {
        lemma_single_shader_batch(ids, cached, bound, max, clip, batches, k);
        assert(batch_fits(ids, cached, bound, max, clip, batches[k]));
        assert(k * max + max == (k + 1) * max) by (nonlinear_arith);
    }
    if batches.len() == 0 {
        assert(ids.len() == 0);
        assert((max - 1) / (max as int) == 0) by (nonlinear_arith)
            requires
                max >= 1,
        ;
    } else {
        let last = batches.len() - 1;
        lemma_single_shader_batch(ids, cached, bound, max, clip, batches, last);
        assert(batch_fits(ids, cached, bound, max, clip, batches[last]));
        lemma_rounded_up(last, batches[last].count as int, max as int);
    }
}

/// The modules that exist once the batches have been carried out: those that
/// existed before, and one for every batch that asks for a compilation.
pub open spec fn cached_after(cached: Set<u64>, batches: Seq<Batch>) -> Set<u64>
    decreases batches.len(),
{
    if batches.len() == 0 {
        cached
    } else if batches.last().compile {
        cached_after(cached, batches.drop_last()).insert(batches.last().shader)
    } else {
        cached_after(cached, batches.drop_last())
    }
}

/// The shader whose pipeline object is bound once the batches have been
/// carried out: that of the last batch that asks for a binding.
pub open spec fn bound_after(bound: Option<u64>, batches: Seq<Batch>) -> Option<u64>
    decreases batches.len(),
{
    if batches.len() == 0 {
        bound
    } else if batches.last().bind {
        Some(batches.last().shader)
    } else {
        bound_after(bound, batches.drop_last())
    }
}

/// Carrying out the first `k` batches of a plan, compiling and binding where
/// they say so and nowhere else, leaves a module for every shader met so far
/// and the pipeline object of the latest one bound.
pub proof fn lemma_plan_carried_out(
    ids: Seq<u64>,
    cached: Set<u64>,
    bound: Option<u64>,
    max: nat,
    clip: Rectangle<u32>,
    batches: Seq<Batch>,
    k: int,
)
    requires
        is_plan(ids, cached, bound, max, clip, batches),
        0 <= k <= batches.len(),
    ensures
        cached_after(cached, batches.take(k)) == cached.union(
            shaders_used(ids, chain_end(batches.take(k))),
        ),
        bound_after(bound, batches.take(k)) == bound_at(ids, bound, chain_end(batches.take(k))),
    decreases k,
{
    let done = batches.take(k);
    if k == 0 {
        assert(cached =~= cached.union(shaders_used(ids, 0)));
    } else {
        let before = batches.take(k - 1);
        let batch = batches[k - 1];
        lemma_plan_carried_out(ids, cached, bound, max, clip, batches, k - 1);
        assert(done.drop_last() =~= before);
        assert(done.last() == batch);
        assert(batch_fits(ids, cached, bound, max, clip, batch));
        assert(ids[batch.first as int] == batch.shader);
        assert(ids[batch.end() - 1] == batch.shader);
        assert(chain_end(before) == batch.first) by {
            if k > 1 {
                assert(before.last() == batches[k - 2]);
                assert(batches[k - 1].first == batches[k - 2].end());
            }
        }
        let was = cached.union(shaders_used(ids, batch.first as int));
        let is = cached.union(shaders_used(ids, batch.end()));
        assert(shaders_used(ids, batch.end()).contains(batch.shader));
        assert forall|id: u64| is.contains(id) implies was.insert(batch.shader).contains(id) by {
            if !cached.contains(id) {
                let j = choose|j: int| 0 <= j < batch.end() && j < ids.len() && ids[j] == id;
                if j < batch.first {
                    assert(shaders_used(ids, batch.first as int).contains(id));
                }
            }
        }
        assert forall|id: u64| was.contains(id) implies is.contains(id) by {
            if !cached.contains(id) {
                let j = choose|j: int| 0 <= j < batch.first && j < ids.len() && ids[j] == id;
                assert(shaders_used(ids, batch.end()).contains(id));
            }
        }
        if batch.compile {
            assert(was.insert(batch.shader) =~= is);
        } else {
            assert(was.contains(batch.shader)) by {
                if !cached.contains(batch.shader) {
                    let i = choose|i: int| 0 <= i < batch.first && ids[i] == batch.shader;
                    assert(shaders_used(ids, batch.first as int).contains(batch.shader));
                }
            }
            assert(was =~= is);
        }
    }
}

/// Carrying out a whole plan leaves the pipeline as the planner has left its
/// record of it: with a module for every shader of the frame, and with the
/// pipeline object of the last instance bound.
pub proof fn lemma_frame_carried_out(
    ids: Seq<u64>,
    cached: Set<u64>,
    bound: Option<u64>,
    max: nat,
    clip: Rectangle<u32>,
    batches: Seq<Batch>,
)
    requires
        is_plan(ids, cached, bound, max, clip, batches),
    ensures
        cached_after(cached, batches) == cached.union(shaders_used(ids, ids.len() as int)),
        bound_after(bound, batches) == bound_at(ids, bound, ids.len() as int),
{
    lemma_plan_carried_out(ids, cached, bound, max, clip, batches, batches.len() as int);
    assert(batches.take(batches.len() as int) =~= batches);
}

/// A plan that is carried out draws nothing with a stale or missing pipeline
/// object: when the draw call of a batch is issued, the module of its shader
/// exists and the pipeline object of its shader is bound.
pub proof fn lemma_draws_with_its_shader(
    ids: Seq<u64>,
    cached: Set<u64>,
    bound: Option<u64>,
    max: nat,
    clip: Rectangle<u32>,
    batches: Seq<Batch>,
    k: int,
)
    requires
        is_plan(ids, cached, bound, max, clip, batches),
        0 <= k < batches.len(),
    ensures
        cached_after(cached, batches.take(k + 1)).contains(batches[k].shader),
        bound_after(bound, batches.take(k + 1)) == Some(batches[k].shader),
        batches[k].compile == !cached_after(cached, batches.take(k)).contains(batches[k].shader),
        batches[k].bind == (bound_after(bound, batches.take(k)) != Some(batches[k].shader)),
{
    let batch = batches[k];
    lemma_plan_carried_out(ids, cached, bound, max, clip, batches, k);
    lemma_plan_carried_out(ids, cached, bound, max, clip, batches, k + 1);
    assert(batch_fits(ids, cached, bound, max, clip, batch));
    assert(batches.take(k + 1).last() == batch);
    assert(ids[batch.end() - 1] == batch.shader);
    assert(shaders_used(ids, batch.end()).contains(batch.shader));
    assert(chain_end(batches.take(k)) == batch.first) by {
        if k > 0 {
            assert(batches.take(k).last() == batches[k - 1]);
            assert(batches[k].first == batches[k - 1].end());
        }
    }
    if !cached.contains(batch.shader) && !batch.compile {
        let i = choose|i: int| 0 <= i < batch.first && ids[i] == batch.shader;
        assert(shaders_used(ids, batch.first as int).contains(batch.shader));
    }
    if shaders_used(ids, batch.first as int).contains(batch.shader) {
        let j = choose|j: int| 0 <= j < batch.first && j < ids.len() && ids[j] == batch.shader;
        assert(ids[j] == batch.shader);
    }
}

} // verus!
