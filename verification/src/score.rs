//! Score pipeline: the score-up queue of pending "+N" feedback events and the
//! transient floating visuals spawned from it, each aging independently of
//! the queue and of the score itself.

use vstd::prelude::*;
use crate::platform::COORD_CAP;

verus! {

/// Points awarded per successful landing.
pub const SCORE_INC: u64 = 1;

/// Ticks a spawned score-up visual lives before it self-destructs.
pub const EFFECT_LIFETIME: i64 = 30;

/// Units a score-up visual drifts upward per tick of its age.
pub const EFFECT_DRIFT: i64 = 1;

/// A pending "+N" feedback event: where it was earned and its value.
#[derive(Clone, Copy, PartialEq, Eq, Structural, Debug)]
pub struct ScoreUpEntry {
    pub x: i64,
    pub y: i64,
    pub value: u64,
}

/// A live floating score-up visual: the spawn position, the value shown, and
/// its own age. Its displayed position drifts upward with age.
#[derive(Clone, Copy, PartialEq, Eq, Structural, Debug)]
pub struct ScoreUpEffect {
    pub x: i64,
    pub base_y: i64,
    pub value: u64,
    pub age: i64,
}

/// The visual freshly spawned from a queue entry.
pub open spec fn fresh_effect(e: ScoreUpEntry) -> ScoreUpEffect {
    ScoreUpEffect { x: e.x, base_y: e.y, value: e.value, age: 0 }
}

/// A visual after `dt` more ticks of age, saturating at the lifetime.
pub open spec fn aged_effect(e: ScoreUpEffect, dt: i64) -> ScoreUpEffect {
    ScoreUpEffect {
        age: if e.age + dt < EFFECT_LIFETIME {
            (e.age + dt) as i64
        } else {
            EFFECT_LIFETIME
        },
        ..e
    }
}

/// The visuals spawned from a whole queue, in queue order.
pub open spec fn spawned(q: Seq<ScoreUpEntry>) -> Seq<ScoreUpEffect>
    decreases q.len(),
{
    if q.len() == 0 {
        Seq::empty()
    } else {
        spawned(q.drop_last()).push(fresh_effect(q.last()))
    }
}

/// A list of visuals after one tick: each ages by `dt`, and those that have
/// lived out their lifetime are dropped, order otherwise kept.
pub open spec fn age_filter(s: Seq<ScoreUpEffect>, dt: i64) -> Seq<ScoreUpEffect>
    decreases s.len(),
{
    if s.len() == 0 {
        Seq::empty()
    } else {
        let aged = aged_effect(s.last(), dt);
        age_filter(s.drop_last(), dt) + (if aged.age < EFFECT_LIFETIME {
            seq![aged]
        } else {
            Seq::empty()
        })
    }
}

/// All ages in a list of visuals lie within the lifetime.
pub open spec fn ages_wf(s: Seq<ScoreUpEffect>) -> bool {
    forall|i: int| 0 <= i < s.len() ==> 0 <= #[trigger] s[i].age < EFFECT_LIFETIME
}

/// Aging keeps every surviving age within the lifetime.
pub proof fn lemma_age_filter_wf(s: Seq<ScoreUpEffect>, dt: i64)
    requires
        dt >= 0,
        ages_wf(s),
    ensures
        ages_wf(age_filter(s, dt)),
    decreases s.len(),
{
    if s.len() > 0 {
        assert(ages_wf(s.drop_last()));
        lemma_age_filter_wf(s.drop_last(), dt);
    }
}

/// Spawning keeps every age within the lifetime: fresh visuals start at zero.
pub proof fn lemma_spawned_wf(q: Seq<ScoreUpEntry>)
    ensures
        ages_wf(spawned(q)),
        spawned(q).len() == q.len(),
    decreases q.len(),
{
    if q.len() > 0 {
        lemma_spawned_wf(q.drop_last());
    }
}

/// One tick of the visual pipeline: age the live visuals, drop the expired
/// ones, then spawn one visual per pending queue entry and empty the queue.
pub fn step_effects(effects: &mut Vec<ScoreUpEffect>, queue: &mut Vec<ScoreUpEntry>, dt: i64)
    requires
        dt >= 0,
        ages_wf(old(effects)@),
    ensures
        final(effects)@ == age_filter(old(effects)@, dt) + spawned(old(queue)@),
        final(queue)@ == Seq::<ScoreUpEntry>::empty(),
        ages_wf(final(effects)@),
{
    let ghost e0 = effects@;
    let ghost q0 = queue@;
    let mut out: Vec<ScoreUpEffect> = Vec::new();
    let mut i: usize = 0;
    while i < effects.len()
        invariant
            i <= effects.len(),
            effects@ == e0,
            ages_wf(e0),
            dt >= 0,
            out@ == age_filter(e0.take(i as int), dt),
        decreases effects.len() - i,
    {
        let e = effects[i];
        let new_age: i64 = if dt < EFFECT_LIFETIME - e.age {
            e.age + dt
        } else {
            EFFECT_LIFETIME
        };
        if new_age < EFFECT_LIFETIME {
            out.push(ScoreUpEffect { age: new_age, ..e });
        }
        proof {
            assert(e0.take(i + 1).drop_last() =~= e0.take(i as int));
            assert(e0.take(i + 1).last() == e0[i as int]);
        }
        i = i + 1;
    }
    proof {
        assert(e0.take(e0.len() as int) =~= e0);
    }
    let mut j: usize = 0;
    while j < queue.len()
        invariant
            j <= queue.len(),
            queue@ == q0,
            out@ == age_filter(e0, dt) + spawned(q0.take(j as int)),
        decreases queue.len() - j,
    {
        let q = queue[j];
        out.push(ScoreUpEffect { x: q.x, base_y: q.y, value: q.value, age: 0 });
        proof {
            assert(q0.take(j + 1).drop_last() =~= q0.take(j as int));
            assert(q0.take(j + 1).last() == q0[j as int]);
            assert(age_filter(e0, dt) + spawned(q0.take(j + 1)) =~= (age_filter(e0, dt)
                + spawned(q0.take(j as int))).push(fresh_effect(q0[j as int])));
        }
        j = j + 1;
    }
    proof {
        assert(q0.take(q0.len() as int) =~= q0);
        lemma_age_filter_wf(e0, dt);
        lemma_spawned_wf(q0);
        assert forall|k: int| 0 <= k < out@.len() implies 0 <= #[trigger] out@[k].age
            < EFFECT_LIFETIME by {
            if k < age_filter(e0, dt).len() {
                assert(out@[k] == age_filter(e0, dt)[k]);
            } else {
                assert(out@[k] == spawned(q0)[k - age_filter(e0, dt).len()]);
            }
        }
    }
    queue.clear();
    *effects = out;
}

/// Displayed vertical position of a visual: its spawn height plus the upward
/// drift its age has earned.
pub open spec fn effect_pos_y(e: ScoreUpEffect) -> int {
    e.base_y + e.age * EFFECT_DRIFT as int
}

/// Where a score-up visual is drawn this tick.
pub fn effect_y(e: &ScoreUpEffect) -> (y: i64)
    requires
        0 <= e.age <= EFFECT_LIFETIME,
        -COORD_CAP <= e.base_y <= COORD_CAP,
    ensures
        y == effect_pos_y(*e),
{
    e.base_y + e.age * EFFECT_DRIFT
}

} // verus!
