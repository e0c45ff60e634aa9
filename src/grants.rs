use vstd::prelude::*;

use crate::types::Address;

verus! {

/// A user's delegation letting `runner` open and settle runs of `agent_id`
/// on the user's behalf, until `expires_at` if it has one.
#[derive(Clone, Copy, Debug, PartialEq, Eq, Structural)]
pub struct RunnerGrant {
    pub runner: Address,
    pub agent_id: u32,
    pub issued_at: u64,
    pub expires_at: Option<u64>,
}

/// A grant is live at `now` unless it has an expiry that is not after `now`.
pub open spec fn is_live(g: RunnerGrant, now: u64) -> bool {
    match g.expires_at {
        Some(expiry) => expiry > now,
        None => true,
    }
}

pub open spec fn is_grant_for(g: RunnerGrant, runner: Address, agent_id: u32) -> bool {
    g.runner == runner && g.agent_id == agent_id
}

/// Whether `grants` holds a grant for `runner` on `agent_id`.
pub open spec fn has_grant(grants: Seq<RunnerGrant>, runner: Address, agent_id: u32) -> bool {
    exists|i: int| 0 <= i < grants.len() && is_grant_for(#[trigger] grants[i], runner, agent_id)
}

/// The grants of `grants` that are live at `now`, in their order.
pub open spec fn live_grants(grants: Seq<RunnerGrant>, now: u64) -> Seq<RunnerGrant>
    decreases grants.len(),
{
    if grants.len() == 0 {
        grants
    } else {
        let prev = live_grants(grants.drop_last(), now);
        if is_live(grants.last(), now) {
            prev.push(grants.last())
        } else {
            prev
        }
    }
}

/// `grants` without those for `runner` on `agent_id`, in their order.
pub open spec fn without_grant(grants: Seq<RunnerGrant>, runner: Address, agent_id: u32) -> Seq<
    RunnerGrant,
>
    decreases grants.len(),
{
    if grants.len() == 0 {
        grants
    } else {
        let prev = without_grant(grants.drop_last(), runner, agent_id);
        if is_grant_for(grants.last(), runner, agent_id) {
            prev
        } else {
            prev.push(grants.last())
        }
    }
}

/// What pruning keeps: exactly the live grants.
pub proof fn lemma_live_grants_members(grants: Seq<RunnerGrant>, now: u64)
    ensures
        forall|g: RunnerGrant|
            #![trigger live_grants(grants, now).contains(g)]
            live_grants(grants, now).contains(g) <==> grants.contains(g) && is_live(g, now),
        live_grants(grants, now).len() <= grants.len(),
    decreases grants.len(),
{
    if grants.len() > 0 {
        let prev = grants.drop_last();
        lemma_live_grants_members(prev, now);
        assert(grants =~= prev.push(grants.last()));
        assert forall|g: RunnerGrant|
            #![trigger live_grants(grants, now).contains(g)]
            live_grants(grants, now).contains(g) <==> grants.contains(g) && is_live(g, now) by {
            let lp = live_grants(prev, now);
            if is_live(grants.last(), now) {
                assert(live_grants(grants, now) == lp.push(grants.last()));
                if lp.push(grants.last()).contains(g) {
                    let j = choose|j: int| 0 <= j < lp.len() + 1 && lp.push(grants.last())[j] == g;
                    if j < lp.len() {
                        assert(lp.contains(g));
                    }
                }
                if lp.contains(g) {
                    let j = choose|j: int| 0 <= j < lp.len() && lp[j] == g;
                    assert(lp.push(grants.last())[j] == g);
                }
                assert(lp.push(grants.last())[lp.len() as int] == grants.last());
            }
            if grants.contains(g) {
                let j = choose|j: int| 0 <= j < grants.len() && grants[j] == g;
                if j < prev.len() {
                    assert(prev[j] == g);
                }
            }
            if prev.contains(g) {
                let j = choose|j: int| 0 <= j < prev.len() && prev[j] == g;
                assert(grants[j] == g);
            }
        }
    }
}

/// A grant for `runner` on `agent_id` survives pruning exactly when a live one was there.
pub proof fn lemma_has_live_grant(
    grants: Seq<RunnerGrant>,
    now: u64,
    runner: Address,
    agent_id: u32,
)
    ensures
        has_grant(live_grants(grants, now), runner, agent_id) <==> exists|i: int|
            0 <= i < grants.len() && is_grant_for(#[trigger] grants[i], runner, agent_id)
                && is_live(grants[i], now),
{
    lemma_live_grants_members(grants, now);
    let lg = live_grants(grants, now);
    if has_grant(lg, runner, agent_id) {
        let i = choose|i: int|
            0 <= i < lg.len() && is_grant_for(#[trigger] lg[i], runner, agent_id);
        assert(lg.contains(lg[i]));
        let j = choose|j: int| 0 <= j < grants.len() && grants[j] == lg[i];
        assert(is_grant_for(grants[j], runner, agent_id) && is_live(grants[j], now));
    }
    if exists|i: int|
        0 <= i < grants.len() && is_grant_for(#[trigger] grants[i], runner, agent_id) && is_live(
            grants[i],
            now,
        ) {
        let i = choose|i: int|
            0 <= i < grants.len() && is_grant_for(#[trigger] grants[i], runner, agent_id)
                && is_live(grants[i], now);
        assert(grants.contains(grants[i]));
        assert(lg.contains(grants[i]));
        let j = choose|j: int| 0 <= j < lg.len() && lg[j] == grants[i];
        assert(is_grant_for(lg[j], runner, agent_id));
    }
}

/// Every grant that `without_grant` keeps was in the list and is not for the pair.
pub proof fn lemma_without_grant_members(grants: Seq<RunnerGrant>, runner: Address, agent_id: u32)
    ensures
        forall|g: RunnerGrant|
            #![trigger without_grant(grants, runner, agent_id).contains(g)]
            without_grant(grants, runner, agent_id).contains(g) <==> grants.contains(g)
                && !is_grant_for(g, runner, agent_id),
    decreases grants.len(),
{
    if grants.len() > 0 {
        let prev = grants.drop_last();
        lemma_without_grant_members(prev, runner, agent_id);
        assert forall|g: RunnerGrant|
            #![trigger without_grant(grants, runner, agent_id).contains(g)]
            without_grant(grants, runner, agent_id).contains(g) <==> grants.contains(g)
                && !is_grant_for(g, runner, agent_id) by {
            let wp = without_grant(prev, runner, agent_id);
            if !is_grant_for(grants.last(), runner, agent_id) {
                if wp.push(grants.last()).contains(g) {
                    let j = choose|j: int| 0 <= j < wp.len() + 1 && wp.push(grants.last())[j] == g;
                    if j < wp.len() {
                        assert(wp.contains(g));
                    }
                }
                if wp.contains(g) {
                    let j = choose|j: int| 0 <= j < wp.len() && wp[j] == g;
                    assert(wp.push(grants.last())[j] == g);
                }
                assert(wp.push(grants.last())[wp.len() as int] == grants.last());
            }
            if grants.contains(g) {
                let j = choose|j: int| 0 <= j < grants.len() && grants[j] == g;
                if j < prev.len() {
                    assert(prev[j] == g);
                }
            }
            if prev.contains(g) {
                let j = choose|j: int| 0 <= j < prev.len() && prev[j] == g;
                assert(grants[j] == g);
            }
        }
    }
}

/// The grants of `grants` that are live at `now`.
pub fn prune_expired_grants(grants: &Vec<RunnerGrant>, now: u64) -> (r: Vec<RunnerGrant>)
    ensures
        r@ == live_grants(grants@, now),
{
    let mut filtered: Vec<RunnerGrant> = Vec::new();
    let mut i: usize = 0;
    while i < grants.len()
        invariant
            i <= grants.len(),
            filtered@ == live_grants(grants@.subrange(0, i as int), now),
        decreases grants.len() - i,
    {
        let grant = grants[i];
        proof {
            assert(grants@.subrange(0, i + 1).drop_last() =~= grants@.subrange(0, i as int));
        }
        let keep = match grant.expires_at {
            Some(expiry) => expiry > now,
            None => true,
        };
        if keep {
            filtered.push(grant);
        }
        i = i + 1;
    }
    proof {
        assert(grants@.subrange(0, grants@.len() as int) =~= grants@);
    }
    filtered
}

/// `grants` without those for `runner` on `agent_id`, and whether any was there.
pub fn remove_runner_grant(grants: &Vec<RunnerGrant>, runner: Address, agent_id: u32) -> (r: (
    Vec<RunnerGrant>,
    bool,
))
    ensures
        r.0@ == without_grant(grants@, runner, agent_id),
        r.1 == has_grant(grants@, runner, agent_id),
{
    let mut filtered: Vec<RunnerGrant> = Vec::new();
    let mut removed = false;
    let mut i: usize = 0;
    while i < grants.len()
        invariant
            i <= grants.len(),
            filtered@ == without_grant(grants@.subrange(0, i as int), runner, agent_id),
            removed == has_grant(grants@.subrange(0, i as int), runner, agent_id),
        decreases grants.len() - i,
    {
        let grant = grants[i];
        proof {
            let s = grants@.subrange(0, i + 1);
            assert(s.drop_last() =~= grants@.subrange(0, i as int));
            if has_grant(grants@.subrange(0, i as int), runner, agent_id) {
                let j = choose|j: int|
                    0 <= j < i && is_grant_for(
                        #[trigger] grants@.subrange(0, i as int)[j],
                        runner,
                        agent_id,
                    );
                assert(is_grant_for(s[j], runner, agent_id));
            }
            if is_grant_for(grant, runner, agent_id) {
                assert(is_grant_for(s[i as int], runner, agent_id));
            }
            if has_grant(s, runner, agent_id) && !is_grant_for(grant, runner, agent_id) {
                let j = choose|j: int|
                    0 <= j < i + 1 && is_grant_for(#[trigger] s[j], runner, agent_id);
                assert(j < i);
                assert(is_grant_for(grants@.subrange(0, i as int)[j], runner, agent_id));
            }
        }
        if grant.runner == runner && grant.agent_id == agent_id {
            removed = true;
        } else {
            filtered.push(grant);
        }
        i = i + 1;
    }
    proof {
        assert(grants@.subrange(0, grants@.len() as int) =~= grants@);
    }
    (filtered, removed)
}

/// Whether `grants` holds a grant for `runner` on `agent_id`.
pub fn find_grant(grants: &Vec<RunnerGrant>, runner: Address, agent_id: u32) -> (r: bool)
    ensures
        r == has_grant(grants@, runner, agent_id),
{
    let mut i: usize = 0;
    while i < grants.len()
        invariant
            i <= grants.len(),
            forall|j: int| 0 <= j < i ==> !is_grant_for(#[trigger] grants@[j], runner, agent_id),
        decreases grants.len() - i,
    {
        if grants[i].runner == runner && grants[i].agent_id == agent_id {
            assert(is_grant_for(grants@[i as int], runner, agent_id));
            return true;
        }
        i = i + 1;
    }
    false
}

} // verus!
