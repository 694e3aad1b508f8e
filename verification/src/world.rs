//! The simulation driver: the per-frame update pass, the pairwise hit
//! resolver, frame reconciliation, and render extraction, composed into
//! `ShipView::update`.
//!
//! Each frame runs in strict sequence: every entity's own update, one
//! resolver sweep that visits every unordered pair exactly once, one
//! reconciliation that folds all collected actions into the next frame's
//! entity list, and one render extraction.
use vstd::prelude::*;

use crate::asteroid::Asteroid;
use crate::entity::{
    action_objs, actions_wf_at, objs_wf_at, ActionModel, Context, Entity, GameAction,
};
use crate::events::GameTime;
use crate::geometry::{Dest, SUBPIXELS_PER_PIXEL};
use crate::ship::{BulletKind, Ship, ShipGun, SineGun, StandardGun, SHIP_EXTENT};
use crate::sprites::VisibleComponent;

verus! {

/// Milliseconds between asteroid spawns.
pub const ASTEROID_INTERVAL: u32 = 1000;

/// What one frame asks the outer loop to do: stop, or draw this list.
#[derive(Debug, PartialEq)]
pub enum Action {
    Quit,
    Render(Vec<(VisibleComponent, Dest)>),
}

/// An entity is valid at a later time if it was valid earlier: positions
/// drift no faster than the speed cap, and clocks only look backwards.
pub proof fn lemma_wf_monotonic(e: Entity, t1: int, t2: int)
    requires
        e.wf_at(t1),
        t1 <= t2,
    ensures
        e.wf_at(t2),
{
}

/// Sequence version of `lemma_wf_monotonic`.
pub proof fn lemma_objs_wf_monotonic(objs: Seq<Entity>, t1: int, t2: int)
    requires
        objs_wf_at(objs, t1),
        t1 <= t2,
    ensures
        objs_wf_at(objs, t2),
{
    assert forall|j: int| 0 <= j < objs.len() implies (#[trigger] objs[j]).wf_at(t2) by {
        lemma_wf_monotonic(objs[j], t1, t2);
    }
}

/// Bounds produced by a valid entity are well-formed shapes.
pub proof fn lemma_bounds_wf(e: Entity, now: int)
    requires
        e.wf_at(now),
        0 <= now <= u32::MAX,
    ensures
        e.bounds_spec() matches Some(b) ==> b.wf(),
{
}

// ------------------------------------------------------------------
// Update pass
// ------------------------------------------------------------------

/// Every entity's own update, pointwise.
pub open spec fn update_all_spec(ents: Seq<Entity>, ctx: Context, time: GameTime) -> (
    Seq<Entity>,
    Seq<Seq<ActionModel>>,
) {
    (
        Seq::new(ents.len(), |i: int| ents[i].update_spec(ctx, time).0),
        Seq::new(ents.len(), |i: int| ents[i].update_spec(ctx, time).1),
    )
}

/// Every action list in the table only spawns entities valid at `now`.
pub open spec fn acts_wf_at(aa: Seq<Seq<ActionModel>>, now: int) -> bool {
    forall|i: int| 0 <= i < aa.len() ==> actions_wf_at(#[trigger] aa[i], now)
}

/// Run each entity's update in place and collect the action list each one
/// produced, index-aligned with the entity list.
pub fn update_all(ents: &mut Vec<Entity>, ctx: &Context, time: GameTime) -> (acts: Vec<
    Vec<GameAction>,
>)
    requires
        ctx.wf(),
        time.wf(),
        objs_wf_at(old(ents)@, time.total as int),
        crate::entity::objs_pos_at(old(ents)@, time.total as int - time.elapsed as int),
    ensures
        (final(ents)@, acts.deep_view()) == update_all_spec(old(ents)@, *ctx, time),
        objs_wf_at(final(ents)@, time.total as int),
        acts_wf_at(acts.deep_view(), time.total as int),
{
    let ghost orig = ents@;
    let mut acts: Vec<Vec<GameAction>> = Vec::new();
    let n = ents.len();
    let mut i: usize = 0;
    while i < n
        invariant
            ctx.wf(),
            time.wf(),
            i <= n,
            n == orig.len(),
            ents@.len() == n,
            acts@.len() == i,
            objs_wf_at(orig, time.total as int),
            crate::entity::objs_pos_at(orig, time.total as int - time.elapsed as int),
            forall|k: int| i <= k < n ==> ents@[k] == orig[k],
            forall|k: int|
                0 <= k < i ==> (#[trigger] ents@[k], acts@[k].deep_view()) == orig[k].update_spec(
                    *ctx,
                    time,
                ),
            forall|k: int| 0 <= k < i ==> (#[trigger] ents@[k]).wf_at(time.total as int),
            forall|k: int|
                0 <= k < i ==> actions_wf_at(#[trigger] acts@[k].deep_view(), time.total as int),
        decreases n - i,
    {
        proof {
            assert(ents@[i as int] == orig[i as int]);
            assert(orig[i as int].wf_at(time.total as int));
            assert(orig[i as int].pos_at(time.total as int - time.elapsed as int));
        }
        let e = &mut ents[i];
        let a = e.update(ctx, time);
        acts.push(a);
        i = i + 1;
    }
    proof {
        let spec_pair = update_all_spec(orig, *ctx, time);
        assert forall|k: int| 0 <= k < n implies acts.deep_view()[k] == spec_pair.1[k] by {
            assert((ents@[k], acts@[k].deep_view()) == orig[k].update_spec(*ctx, time));
            assert(acts.deep_view()[k] == acts@[k].deep_view());
        }
        assert(ents@ =~= spec_pair.0);
        assert(acts.deep_view() =~= spec_pair.1);
    }
    acts
}

// ------------------------------------------------------------------
// Pairwise interaction resolver
// ------------------------------------------------------------------

/// Whether two entities physically interact this frame: both have bounds
/// and the bounds overlap.
pub open spec fn pair_overlaps(a: Entity, b: Entity) -> bool {
    match (a.bounds_spec(), b.bounds_spec()) {
        (Some(x), Some(y)) => x.overlaps(y),
        _ => false,
    }
}

/// Deliver the source's hit message, if it defines one, to the target,
/// appending whatever actions the target's reaction produced.
pub open spec fn deliver_spec(
    target: Entity,
    tacts: Seq<ActionModel>,
    source: Entity,
    ctx: Context,
    time: GameTime,
) -> (Entity, Seq<ActionModel>) {
    match source.on_hit_spec() {
        Some(m) => {
            let (t2, extra) = target.receive_spec(ctx, time, m);
            (t2, tacts + extra)
        },
        None => (target, tacts),
    }
}

/// One unordered pair: if the bounds overlap, the tail entity reacts to the
/// head's message first, then the head reacts to the (already reacted)
/// tail entity's message. The overlap test uses the pre-reaction bounds.
pub open spec fn pair_spec(
    h: Entity,
    hacts: Seq<ActionModel>,
    o: Entity,
    oacts: Seq<ActionModel>,
    ctx: Context,
    time: GameTime,
) -> (Entity, Seq<ActionModel>, Entity, Seq<ActionModel>) {
    if pair_overlaps(h, o) {
        let (o2, oacts2) = deliver_spec(o, oacts, h, ctx, time);
        let (h2, hacts2) = deliver_spec(h, hacts, o2, ctx, time);
        (h2, hacts2, o2, oacts2)
    } else {
        (h, hacts, o, oacts)
    }
}

/// Apply one pair interaction inside the indexed lists.
pub open spec fn sweep_pair_at(
    ents: Seq<Entity>,
    aa: Seq<Seq<ActionModel>>,
    i: int,
    j: int,
    ctx: Context,
    time: GameTime,
) -> (Seq<Entity>, Seq<Seq<ActionModel>>) {
    let (h2, ha2, o2, oa2) = pair_spec(ents[i], aa[i], ents[j], aa[j], ctx, time);
    (ents.update(i, h2).update(j, o2), aa.update(i, ha2).update(j, oa2))
}

/// Sweep entity `i` against entities `j .. n` in order.
pub open spec fn sweep_from(
    ents: Seq<Entity>,
    aa: Seq<Seq<ActionModel>>,
    i: int,
    j: int,
    n: int,
    ctx: Context,
    time: GameTime,
) -> (Seq<Entity>, Seq<Seq<ActionModel>>)
    decreases n - j,
{
    if j >= n {
        (ents, aa)
    } else {
        let st = sweep_pair_at(ents, aa, i, j, ctx, time);
        sweep_from(st.0, st.1, i, j + 1, n, ctx, time)
    }
}

/// Visit every unordered pair `(i, j)` with `i < j < n` exactly once, in
/// outer-index order, sweeping each head against its tail.
pub open spec fn resolve_from(
    ents: Seq<Entity>,
    aa: Seq<Seq<ActionModel>>,
    i: int,
    n: int,
    ctx: Context,
    time: GameTime,
) -> (Seq<Entity>, Seq<Seq<ActionModel>>)
    decreases n - i,
{
    if i >= n {
        (ents, aa)
    } else {
        let st = sweep_from(ents, aa, i, i + 1, n, ctx, time);
        resolve_from(st.0, st.1, i + 1, n, ctx, time)
    }
}

/// The resolver pass over the whole entity list.
pub open spec fn resolve_spec(
    ents: Seq<Entity>,
    aa: Seq<Seq<ActionModel>>,
    ctx: Context,
    time: GameTime,
) -> (Seq<Entity>, Seq<Seq<ActionModel>>) {
    resolve_from(ents, aa, 0, ents.len() as int, ctx, time)
}

/// Run the resolver pass in place: for each head index, test overlap
/// against each later entity using both pre-reaction bounds, deliver the
/// head's message to the tail entity and then the tail entity's message to
/// the head, accumulating reaction actions next to each entity's own.
pub fn resolve_collisions(
    ents: &mut Vec<Entity>,
    acts: &mut Vec<Vec<GameAction>>,
    ctx: &Context,
    time: GameTime,
)
    requires
        ctx.wf(),
        time.wf(),
        old(ents)@.len() == old(acts)@.len(),
        objs_wf_at(old(ents)@, time.total as int),
        acts_wf_at(old(acts).deep_view(), time.total as int),
    ensures
        (final(ents)@, final(acts).deep_view()) == resolve_spec(
            old(ents)@,
            old(acts).deep_view(),
            *ctx,
            time,
        ),
        final(ents)@.len() == old(ents)@.len(),
        final(acts)@.len() == old(acts)@.len(),
        objs_wf_at(final(ents)@, time.total as int),
        acts_wf_at(final(acts).deep_view(), time.total as int),
{
    let ghost goal = resolve_spec(ents@, acts.deep_view(), *ctx, time);
    let n = ents.len();
    let mut i: usize = 0;
    while i < n
        invariant
            ctx.wf(),
            time.wf(),
            i <= n,
            ents@.len() == n,
            acts@.len() == n,
            objs_wf_at(ents@, time.total as int),
            acts_wf_at(acts.deep_view(), time.total as int),
            resolve_from(ents@, acts.deep_view(), i as int, n as int, *ctx, time) == goal,
        decreases n - i,
    {
        let ghost se = ents@;
        let ghost sa = acts.deep_view();
        let mut j: usize = i + 1;
        while j < n
            invariant
                ctx.wf(),
                time.wf(),
                i < n,
                i < j <= n,
                ents@.len() == n,
                acts@.len() == n,
                objs_wf_at(ents@, time.total as int),
                acts_wf_at(acts.deep_view(), time.total as int),
                sweep_from(ents@, acts.deep_view(), i as int, j as int, n as int, *ctx, time)
                    == sweep_from(se, sa, i as int, i as int + 1, n as int, *ctx, time),
                resolve_from(se, sa, i as int, n as int, *ctx, time) == goal,
            decreases n - j,
        {
            let ghost pe = ents@;
            let ghost pa = acts.deep_view();
            let head = ents[i];
            let other = ents[j];
            proof {
                lemma_bounds_wf(head, time.total as int);
                lemma_bounds_wf(other, time.total as int);
            }
            let hb = head.bounds(time.total);
            let ob = other.bounds(time.total);
            let overlap: bool = match (hb, ob) {
                (Some(a), Some(b)) => a.intersects(&b),
                _ => false,
            };
            if overlap {
                if let Some(m) = head.on_hit() {
                    let er = &mut ents[j];
                    let mut extra = er.receive_message(ctx, time, m);
                    let ar = &mut acts[j];
                    ar.append(&mut extra);
                }
                let other_now = ents[j];
                if let Some(m) = other_now.on_hit() {
                    let er = &mut ents[i];
                    let mut extra = er.receive_message(ctx, time, m);
                    let ar = &mut acts[i];
                    ar.append(&mut extra);
                }
            }
            proof {
                assert(ents@ =~= sweep_pair_at(pe, pa, i as int, j as int, *ctx, time).0);
                assert(acts.deep_view() =~~= sweep_pair_at(pe, pa, i as int, j as int, *ctx, time).1);
            }
            j = j + 1;
        }
        i = i + 1;
    }
}

// ------------------------------------------------------------------
// Frame reconciliation
// ------------------------------------------------------------------

/// Whether an action list contains a delete directive.
pub open spec fn has_delete(acts: Seq<ActionModel>) -> bool {
    exists|k: int| 0 <= k < acts.len() && acts[k] is Delete
}

/// The entities from index `i` on that survive their own action lists, in
/// order.
pub open spec fn survivors_from(ents: Seq<Entity>, aa: Seq<Seq<ActionModel>>, i: int) -> Seq<
    Entity,
>
    decreases ents.len() - i,
{
    if i >= ents.len() {
        Seq::empty()
    } else {
        let rest = survivors_from(ents, aa, i + 1);
        if has_delete(aa[i]) {
            rest
        } else {
            seq![ents[i]] + rest
        }
    }
}

/// The entities spawned by the actions from index `k` on, in order.
pub open spec fn spawns_from(acts: Seq<ActionModel>, k: int) -> Seq<Entity>
    decreases acts.len() - k,
{
    if k >= acts.len() {
        Seq::empty()
    } else {
        action_objs(acts[k]) + spawns_from(acts, k + 1)
    }
}

/// All spawned entities across the table, in entity order then action
/// order.
pub open spec fn all_spawns_from(aa: Seq<Seq<ActionModel>>, i: int) -> Seq<Entity>
    decreases aa.len() - i,
{
    if i >= aa.len() {
        Seq::empty()
    } else {
        spawns_from(aa[i], 0) + all_spawns_from(aa, i + 1)
    }
}

/// The next frame's entity list: the surviving originals in their original
/// order, then every spawned entity, in the order of the entities that
/// spawned them. An entity with a delete directive is dropped, but its
/// spawned entities are still honoured.
pub open spec fn reconcile_spec(ents: Seq<Entity>, aa: Seq<Seq<ActionModel>>) -> Seq<Entity> {
    survivors_from(ents, aa, 0) + all_spawns_from(aa, 0)
}

/// Fold the collected actions into the next frame's entity list.
pub fn reconcile(ents: &Vec<Entity>, acts: &Vec<Vec<GameAction>>) -> (out: Vec<Entity>)
    requires
        ents@.len() == acts@.len(),
    ensures
        out@ == reconcile_spec(ents@, acts.deep_view()),
{
    let ghost dv = acts.deep_view();
    let n = ents.len();
    let mut survivors: Vec<Entity> = Vec::new();
    let mut spawned: Vec<Entity> = Vec::new();
    let mut i: usize = 0;
    while i < n
        invariant
            i <= n,
            n == ents@.len(),
            n == acts@.len(),
            dv == acts.deep_view(),
            survivors@ + survivors_from(ents@, dv, i as int) == survivors_from(ents@, dv, 0),
            spawned@ + all_spawns_from(dv, i as int) == all_spawns_from(dv, 0),
        decreases n - i,
    {
        let a = &acts[i];
        let m = a.len();
        let mut deleted: bool = false;
        let mut k: usize = 0;
        while k < m
            invariant
                k <= m,
                m == a@.len(),
                a@ == acts@[i as int]@,
                i < n == acts@.len(),
                dv == acts.deep_view(),
                deleted == exists|t: int| 0 <= t < k && dv[i as int][t] is Delete,
            decreases m - k,
        {
            if matches!(a[k], GameAction::Delete) {
                deleted = true;
                proof {
                    assert(dv[i as int][k as int] is Delete);
                }
            } else {
                proof {
                    assert(!(dv[i as int][k as int] is Delete));
                }
            }
            k = k + 1;
        }
        if !deleted {
            survivors.push(ents[i]);
        }
        let ghost sp0 = spawned@;
        let mut k2: usize = 0;
        while k2 < m
            invariant
                k2 <= m,
                m == a@.len(),
                a@ == acts@[i as int]@,
                i < n == acts@.len(),
                dv == acts.deep_view(),
                spawned@ + spawns_from(dv[i as int], k2 as int) == sp0 + spawns_from(
                    dv[i as int],
                    0,
                ),
            decreases m - k2,
        {
            match &a[k2] {
                GameAction::AddObjects(v) => {
                    let ghost spk = spawned@;
                    let vm = v.len();
                    let mut t: usize = 0;
                    while t < vm
                        invariant
                            t <= vm,
                            vm == v@.len(),
                            spawned@ == spk + v@.take(t as int),
                        decreases vm - t,
                    {
                        spawned.push(v[t]);
                        proof {
                            assert(spawned@ =~= spk + v@.take(t as int + 1));
                        }
                        t = t + 1;
                    }
                    proof {
                        assert(v@.take(vm as int) =~= v@);
                        assert(v.deep_view() =~= v@);
                        assert(action_objs(dv[i as int][k2 as int]) == v@);
                        assert(spawned@ + spawns_from(dv[i as int], k2 as int + 1) =~= sp0
                            + spawns_from(dv[i as int], 0));
                    }
                },
                GameAction::Delete => {
                    proof {
                        assert(action_objs(dv[i as int][k2 as int]) =~= Seq::<Entity>::empty());
                        assert(spawned@ + spawns_from(dv[i as int], k2 as int + 1) =~= sp0
                            + spawns_from(dv[i as int], 0));
                    }
                },
            }
            k2 = k2 + 1;
        }
        proof {
            assert(deleted == has_delete(dv[i as int]));
            if deleted {
                assert(survivors@ + survivors_from(ents@, dv, i as int + 1) =~= survivors_from(
                    ents@,
                    dv,
                    0,
                ));
            } else {
                assert(survivors@ + survivors_from(ents@, dv, i as int + 1) =~= survivors_from(
                    ents@,
                    dv,
                    0,
                ));
            }
            assert(spawns_from(dv[i as int], m as int) =~= Seq::<Entity>::empty());
            assert(spawned@ + all_spawns_from(dv, i as int + 1) =~= all_spawns_from(dv, 0));
        }
        i = i + 1;
    }
    let mut out = survivors;
    out.append(&mut spawned);
    proof {
        assert(survivors_from(ents@, dv, n as int) =~= Seq::<Entity>::empty());
        assert(all_spawns_from(dv, n as int) =~= Seq::<Entity>::empty());
        assert(out@ =~= reconcile_spec(ents@, dv));
    }
    out
}

/// Two valid sequences concatenate to a valid sequence.
proof fn lemma_objs_wf_concat(a: Seq<Entity>, b: Seq<Entity>, now: int)
    requires
        objs_wf_at(a, now),
        objs_wf_at(b, now),
    ensures
        objs_wf_at(a + b, now),
{
    assert forall|j: int| 0 <= j < (a + b).len() implies (#[trigger] (a + b)[j]).wf_at(now) by {
        if j < a.len() {
            assert((a + b)[j] == a[j]);
        } else {
            assert((a + b)[j] == b[j - a.len()]);
        }
    }
}

/// Reconciliation keeps every entity valid: survivors come from the input
/// list and spawns from its action lists.
pub proof fn lemma_reconcile_wf(ents: Seq<Entity>, aa: Seq<Seq<ActionModel>>, now: int)
    requires
        objs_wf_at(ents, now),
        acts_wf_at(aa, now),
    ensures
        objs_wf_at(reconcile_spec(ents, aa), now),
{
    lemma_survivors_wf(ents, aa, 0, now);
    lemma_all_spawns_wf(aa, 0, now);
    lemma_objs_wf_concat(survivors_from(ents, aa, 0), all_spawns_from(aa, 0), now);
}

proof fn lemma_survivors_wf(ents: Seq<Entity>, aa: Seq<Seq<ActionModel>>, i: int, now: int)
    requires
        0 <= i,
        objs_wf_at(ents, now),
    ensures
        objs_wf_at(survivors_from(ents, aa, i), now),
    decreases ents.len() - i,
{
    if i < ents.len() {
        lemma_survivors_wf(ents, aa, i + 1, now);
        let rest = survivors_from(ents, aa, i + 1);
        if !has_delete(aa[i]) {
            let one = seq![ents[i]];
            assert(ents[i].wf_at(now));
            assert forall|j: int| 0 <= j < one.len() implies (#[trigger] one[j]).wf_at(now) by {
                assert(one[j] == ents[i]);
            }
            lemma_objs_wf_concat(one, rest, now);
        }
    }
}

proof fn lemma_spawns_wf(acts: Seq<ActionModel>, k: int, now: int)
    requires
        0 <= k,
        actions_wf_at(acts, now),
    ensures
        objs_wf_at(spawns_from(acts, k), now),
    decreases acts.len() - k,
{
    if k < acts.len() {
        lemma_spawns_wf(acts, k + 1, now);
        assert(objs_wf_at(action_objs(acts[k]), now));
        lemma_objs_wf_concat(action_objs(acts[k]), spawns_from(acts, k + 1), now);
    }
}

proof fn lemma_all_spawns_wf(aa: Seq<Seq<ActionModel>>, i: int, now: int)
    requires
        0 <= i,
        acts_wf_at(aa, now),
    ensures
        objs_wf_at(all_spawns_from(aa, i), now),
    decreases aa.len() - i,
{
    if i < aa.len() {
        lemma_all_spawns_wf(aa, i + 1, now);
        assert(actions_wf_at(aa[i], now));
        lemma_spawns_wf(aa[i], 0, now);
        lemma_objs_wf_concat(spawns_from(aa[i], 0), all_spawns_from(aa, i + 1), now);
    }
}

// ------------------------------------------------------------------
// Render extraction
// ------------------------------------------------------------------

/// The render list of entities from index `i` on: each entity's placements
/// in order, or the first conversion failure.
pub open spec fn render_from(ents: Seq<Entity>, i: int, time: GameTime) -> Result<
    Seq<(VisibleComponent, Dest)>,
    (),
>
    decreases ents.len() - i,
{
    if i >= ents.len() {
        Ok(Seq::empty())
    } else {
        match ents[i].sprites_spec(time) {
            Err(e) => Err(e),
            Ok(s) => match render_from(ents, i + 1, time) {
                Err(e) => Err(e),
                Ok(rest) => Ok(s + rest),
            },
        }
    }
}

/// The frame's full render list.
pub open spec fn render_spec(ents: Seq<Entity>, time: GameTime) -> Result<
    Seq<(VisibleComponent, Dest)>,
    (),
> {
    render_from(ents, 0, time)
}

/// Flatten the entity list into renderable placements; a bounds value that
/// cannot convert to a destination rectangle surfaces as an error.
pub fn render_list(ents: &Vec<Entity>, time: GameTime) -> (r: Result<
    Vec<(VisibleComponent, Dest)>,
    (),
>)
    requires
        objs_wf_at(ents@, time.total as int),
    ensures
        match render_spec(ents@, time) {
            Ok(s) => r matches Ok(v) && v@ == s,
            Err(_) => r is Err,
        },
{
    let n = ents.len();
    let mut out: Vec<(VisibleComponent, Dest)> = Vec::new();
    let mut i: usize = 0;
    while i < n
        invariant
            i <= n,
            n == ents@.len(),
            objs_wf_at(ents@, time.total as int),
            render_from(ents@, 0, time) == match render_from(ents@, i as int, time) {
                Ok(rest) => Ok::<Seq<(VisibleComponent, Dest)>, ()>(out@ + rest),
                Err(e) => Err::<Seq<(VisibleComponent, Dest)>, ()>(e),
            },
        decreases n - i,
    {
        let e = &ents[i];
        let ghost prev = out@;
        match e.sprites(time) {
            Ok(mut v) => {
                let ghost s = v@;
                out.append(&mut v);
                proof {
                    match render_from(ents@, i as int + 1, time) {
                        Ok(rest) => {
                            assert(prev + (s + rest) =~= out@ + rest);
                        },
                        Err(_) => {},
                    }
                }
            },
            Err(()) => {
                return Err(());
            },
        }
        i = i + 1;
    }
    Ok(out)
}

// ------------------------------------------------------------------
// The frame driver
// ------------------------------------------------------------------

/// The whole simulation: the live entities, the spawn clock and the total
/// clock.
#[derive(Debug)]
pub struct ShipView {
    pub objects: Vec<Entity>,
    pub last_asteroid_time: u32,
    pub total_time: u32,
}

/// The asteroid a frame spawns from a raw random value: at the right edge
/// of the screen, at a random row that keeps its square on screen.
pub open spec fn asteroid_spawn_spec(ctx: Context, rv: u32, total: u32) -> Entity {
    Entity::Asteroid(
        Asteroid::new_spec(
            ctx.asteroid_sheet,
            total,
            (ctx.screen_w as int * (SUBPIXELS_PER_PIXEL as int)) as i64,
            (((rv as int) % ((ctx.screen_h - 96) as int)) * (SUBPIXELS_PER_PIXEL as int)) as i64,
        ),
    )
}

/// The post-update, post-resolver, post-reconciliation entity list.
pub open spec fn frame_objects_spec(ents: Seq<Entity>, ctx: Context, time: GameTime) -> Seq<
    Entity,
> {
    let up = update_all_spec(ents, ctx, time);
    let rs = resolve_spec(up.0, up.1, ctx, time);
    reconcile_spec(rs.0, rs.1)
}

/// What one frame leaves behind, given the entity list after the spawn
/// step: on quit, the state is kept and the frame asks to stop; otherwise
/// the pipeline runs and the frame asks to render, unless some bounds
/// failed to convert.
pub open spec fn frame_result_ok(
    ents1: Seq<Entity>,
    post: ShipView,
    r: Result<Action, ()>,
    ctx: Context,
    time: GameTime,
) -> bool {
    if ctx.events.down.quit {
        &&& post.objects@ == ents1
        &&& r == Ok::<Action, ()>(Action::Quit)
    } else {
        let fo = frame_objects_spec(ents1, ctx, time);
        &&& post.objects@ == fo
        &&& match render_spec(fo, time) {
            Ok(s) => r matches Ok(a) && a matches Action::Render(list) && list@ == s,
            Err(_) => r is Err,
        }
    }
}

impl ShipView {
    /// All entities are valid at the current clock, and the spawn clock is
    /// not ahead of it.
    pub open spec fn wf(self) -> bool {
        &&& objs_wf_at(self.objects@, self.total_time as int)
        &&& self.last_asteroid_time <= self.total_time
    }

    /// The simulation at its start: the ship alone, centred vertically at
    /// the left edge, with the standard gun selected and full sine ammo.
    pub fn new(ctx: &Context) -> (r: ShipView)
        requires
            ctx.wf(),
        ensures
            r.total_time == 0,
            r.last_asteroid_time == 0,
            r.objects@.len() == 1,
            r.objects@[0] matches Entity::Ship(s) && {
                &&& s.bounds.x == 0
                &&& s.bounds.y == (ctx.screen_h as int / 2) * (SUBPIXELS_PER_PIXEL as int) - 25_000
                &&& s.bounds.width == SHIP_EXTENT
                &&& s.bounds.height == SHIP_EXTENT
                &&& s.gun.kind is Standard
                &&& s.gun.standard.last_shot_at == 0
                &&& s.gun.sine.ammo == 10
                &&& s.gun.sine.max_ammo == 10
                &&& s.sheet == ctx.ship_sheet
            },
            r.wf(),
    {
        let ship = Ship {
            bounds: crate::geometry::Rectangle {
                x: 0,
                y: (ctx.screen_h / 2) as i64 * SUBPIXELS_PER_PIXEL - 25_000,
                width: SHIP_EXTENT,
                height: SHIP_EXTENT,
            },
            gun: ShipGun {
                kind: BulletKind::Standard,
                standard: StandardGun::new(0),
                sine: SineGun::new(0),
            },
            dir: (crate::ship::Direction::Zero, crate::ship::Direction::Zero),
            sheet: ctx.ship_sheet,
        };
        let objects: Vec<Entity> = vec![Entity::Ship(ship)];
        ShipView { objects, last_asteroid_time: 0, total_time: 0 }
    }

    /// One frame: advance the clock, spawn an asteroid when the spawn
    /// interval has passed, honour quit, then run the update pass, the
    /// resolver, reconciliation and render extraction in strict sequence.
    pub fn update(&mut self, ctx: &Context, elapsed: u32) -> (r: Result<Action, ()>)
        requires
            ctx.wf(),
            old(self).wf(),
            old(self).total_time + elapsed <= u32::MAX,
        ensures
            ({
                let total2 = (old(self).total_time + elapsed) as u32;
                let time = GameTime { elapsed, total: total2 };
                let spawn = total2 - old(self).last_asteroid_time > ASTEROID_INTERVAL;
                &&& final(self).total_time == total2
                &&& final(self).last_asteroid_time == if spawn {
                    total2
                } else {
                    old(self).last_asteroid_time
                }
                &&& if spawn {
                    exists|rv: u32|
                        #[trigger] frame_result_ok(
                            old(self).objects@.push(asteroid_spawn_spec(*ctx, rv, total2)),
                            *final(self),
                            r,
                            *ctx,
                            time,
                        )
                } else {
                    frame_result_ok(old(self).objects@, *final(self), r, *ctx, time)
                }
                &&& final(self).wf()
            }),
    {
        self.total_time = self.total_time + elapsed;
        let total2 = self.total_time;
        let ghost mut rv_used: u32 = 0;
        let ghost spawn = total2 - old(self).last_asteroid_time > ASTEROID_INTERVAL;
        if self.total_time - self.last_asteroid_time > ASTEROID_INTERVAL {
            let rv = crate::rng::random_u32();
            let y_px: u32 = rv % (ctx.screen_h - 96);
            let x: i64 = ctx.screen_w as i64 * SUBPIXELS_PER_PIXEL;
            let y: i64 = y_px as i64 * SUBPIXELS_PER_PIXEL;
            let ast = Asteroid::new(ctx.asteroid_sheet, self.total_time, x, y);
            self.objects.push(Entity::Asteroid(ast));
            self.last_asteroid_time = self.total_time;
            proof {
                rv_used = rv;
                assert(self.objects@ =~= old(self).objects@.push(
                    asteroid_spawn_spec(*ctx, rv, total2),
                ));
            }
        }
        let ghost ents1 = self.objects@;
        let time = GameTime { elapsed, total: total2 };
        proof {
            lemma_objs_wf_monotonic(
                old(self).objects@,
                old(self).total_time as int,
                total2 as int,
            );
            assert forall|k: int| 0 <= k < ents1.len() implies (#[trigger] ents1[k]).wf_at(
                total2 as int,
            ) by {
                if k < old(self).objects@.len() {
                    assert(ents1[k] == old(self).objects@[k]);
                }
            }
            assert forall|k: int| 0 <= k < ents1.len() implies (#[trigger] ents1[k]).pos_at(
                total2 as int - elapsed as int,
            ) by {
                if k < old(self).objects@.len() {
                    assert(ents1[k] == old(self).objects@[k]);
                    assert(old(self).objects@[k].wf_at(old(self).total_time as int));
                }
            }
        }
        if ctx.events.down.quit {
            let r: Result<Action, ()> = Ok(Action::Quit);
            proof {
                if spawn {
                    assert(frame_result_ok(
                        old(self).objects@.push(asteroid_spawn_spec(*ctx, rv_used, total2)),
                        *self,
                        r,
                        *ctx,
                        time,
                    ));
                }
            }
            return r;
        }
        let mut acts = update_all(&mut self.objects, ctx, time);
        proof {
            assert(self.objects@ == update_all_spec(ents1, *ctx, time).0);
            assert(acts.deep_view() == update_all_spec(ents1, *ctx, time).1);
            assert(self.objects@.len() == ents1.len());
            assert(acts@.len() == acts.deep_view().len());
        }
        resolve_collisions(&mut self.objects, &mut acts, ctx, time);
        let next = reconcile(&self.objects, &acts);
        proof {
            lemma_reconcile_wf(self.objects@, acts.deep_view(), time.total as int);
        }
        self.objects = next;
        let rendered = render_list(&self.objects, time);
        match rendered {
            Ok(list) => {
                let r: Result<Action, ()> = Ok(Action::Render(list));
                proof {
                    if spawn {
                        assert(frame_result_ok(
                            old(self).objects@.push(asteroid_spawn_spec(*ctx, rv_used, total2)),
                            *self,
                            r,
                            *ctx,
                            time,
                        ));
                    }
                }
                r
            },
            Err(()) => {
                let r: Result<Action, ()> = Err(());
                proof {
                    if spawn {
                        assert(frame_result_ok(
                            old(self).objects@.push(asteroid_spawn_spec(*ctx, rv_used, total2)),
                            *self,
                            r,
                            *ctx,
                            time,
                        ));
                    }
                }
                r
            },
        }
    }
}

// ------------------------------------------------------------------
// Laws of the resolver
// ------------------------------------------------------------------

/// Two entities with overlapping bounds, where only the first defines a
/// hit message: after one pair interaction the second has received the
/// first's message exactly once, and the first is untouched.
pub proof fn lemma_one_sided_hit(
    a: Entity,
    aacts: Seq<ActionModel>,
    b: Entity,
    bacts: Seq<ActionModel>,
    ctx: Context,
    time: GameTime,
)
    requires
        pair_overlaps(a, b),
        a.on_hit_spec() is Some,
        b.on_hit_spec() is None,
    ensures
        ({
            let (a2, aa2, b2, ba2) = pair_spec(a, aacts, b, bacts, ctx, time);
            let (b3, extra) = b.receive_spec(ctx, time, a.on_hit_spec()->Some_0);
            &&& b2 == b3
            &&& ba2 == bacts + extra
            &&& a2 == a
            &&& aa2 == aacts
        }),
{
    let (b3, extra) = b.receive_spec(ctx, time, a.on_hit_spec()->Some_0);
    assert(b3.on_hit_spec() is None);
}

/// A resolver pass over exactly two entities is one pair interaction: the
/// pair-level laws above transfer to the whole pass.
pub proof fn lemma_resolver_pass_pair(
    a: Entity,
    aacts: Seq<ActionModel>,
    b: Entity,
    bacts: Seq<ActionModel>,
    ctx: Context,
    time: GameTime,
)
    ensures
        ({
            let (a2, aa2, b2, ba2) = pair_spec(a, aacts, b, bacts, ctx, time);
            resolve_spec(seq![a, b], seq![aacts, bacts], ctx, time) == (
                seq![a2, b2],
                seq![aa2, ba2],
            )
        }),
{
    let ents = seq![a, b];
    let aa = seq![aacts, bacts];
    let (a2, aa2, b2, ba2) = pair_spec(a, aacts, b, bacts, ctx, time);
    let st = sweep_pair_at(ents, aa, 0, 1, ctx, time);
    assert(st.0 =~= seq![a2, b2]);
    assert(st.1 =~= seq![aa2, ba2]);
    assert(sweep_from(st.0, st.1, 0, 2, 2, ctx, time) == st);
    assert(sweep_from(ents, aa, 0, 1, 2, ctx, time) == st);
    assert(sweep_from(st.0, st.1, 1, 2, 2, ctx, time) == st);
    assert(resolve_from(st.0, st.1, 2, 2, ctx, time) == st);
    assert(resolve_from(st.0, st.1, 1, 2, ctx, time) == st);
    assert(resolve_from(ents, aa, 0, 2, ctx, time) == st);
}

/// Two entities whose bounds do not overlap (or that have none) exchange
/// no messages: a pair interaction leaves both, and their action lists,
/// untouched.
pub proof fn lemma_disjoint_no_exchange(
    a: Entity,
    aacts: Seq<ActionModel>,
    b: Entity,
    bacts: Seq<ActionModel>,
    ctx: Context,
    time: GameTime,
)
    requires
        !pair_overlaps(a, b),
    ensures
        pair_spec(a, aacts, b, bacts, ctx, time) == (a, aacts, b, bacts),
{
}

/// The one-sided law over a whole resolver pass: with overlapping bounds
/// and a hit message on the first entity only, the pass leaves the first
/// entity untouched and applies the first's message to the second exactly
/// once.
pub proof fn lemma_resolver_one_sided(
    a: Entity,
    aacts: Seq<ActionModel>,
    b: Entity,
    bacts: Seq<ActionModel>,
    ctx: Context,
    time: GameTime,
)
    requires
        pair_overlaps(a, b),
        a.on_hit_spec() is Some,
        b.on_hit_spec() is None,
    ensures
        ({
            let (b3, extra) = b.receive_spec(ctx, time, a.on_hit_spec()->Some_0);
            resolve_spec(seq![a, b], seq![aacts, bacts], ctx, time) == (
                seq![a, b3],
                seq![aacts, bacts + extra],
            )
        }),
{
    lemma_one_sided_hit(a, aacts, b, bacts, ctx, time);
    lemma_resolver_pass_pair(a, aacts, b, bacts, ctx, time);
}

/// The disjointness law over a whole resolver pass: entities whose bounds
/// do not overlap come out of the pass exactly as they went in.
pub proof fn lemma_resolver_disjoint(
    a: Entity,
    aacts: Seq<ActionModel>,
    b: Entity,
    bacts: Seq<ActionModel>,
    ctx: Context,
    time: GameTime,
)
    requires
        !pair_overlaps(a, b),
    ensures
        resolve_spec(seq![a, b], seq![aacts, bacts], ctx, time) == (
            seq![a, b],
            seq![aacts, bacts],
        ),
{
    lemma_disjoint_no_exchange(a, aacts, b, bacts, ctx, time);
    lemma_resolver_pass_pair(a, aacts, b, bacts, ctx, time);
}

} // verus!
