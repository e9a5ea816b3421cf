//! Autonomous route: a named sequence of [`Action`]s, and the wait plan the
//! route executor follows when it runs one.

use vstd::prelude::*;
use crate::auton::action::Action;

verus! {

/// Longest wait (ms) the executor spends on a drive or lift action.
pub const MOTION_WAIT_CAP_MS: u64 = 3000;

/// Longest wait (ms) the executor spends on a turn action.
pub const TURN_WAIT_CAP_MS: u64 = 2000;

pub open spec fn cap(timeout_ms: u64, limit: u64) -> u64 {
    if timeout_ms < limit { timeout_ms } else { limit }
}

/// Total time (ms) of a list of waits.
pub open spec fn total(s: Seq<u64>) -> int
    decreases s.len(),
{
    if s.len() == 0 {
        0
    } else {
        total(s.drop_last()) + s.last()
    }
}

/// A duration in milliseconds, saturated at the largest wait a `u64` holds
/// (totals are never negative).
pub open spec fn saturate(x: int) -> u64 {
    if x > u64::MAX {
        u64::MAX
    } else if x < 0 {
        0
    } else {
        x as u64
    }
}

/// The waits, in order, that the executor performs for one action.
///
/// Timed actions wait their duration; drive and lift actions wait their
/// timeout capped at [`MOTION_WAIT_CAP_MS`]; turns wait their timeout capped
/// at [`TURN_WAIT_CAP_MS`]; a sequence performs the waits of its actions in
/// order. A parallel pair finishes when both branches have: one wait as long
/// as the longer branch. A race finishes when the first branch does: one
/// wait as long as the shorter branch. Instant actions wait nothing.
pub open spec fn action_sleeps<N>(a: Action<N>) -> Seq<u64>
    decreases a,
{
    match a {
        Action::Wait { duration_ms } => seq![duration_ms],
        Action::IntakeFor { duration_ms } => seq![duration_ms],
        Action::OuttakeFor { duration_ms } => seq![duration_ms],
        Action::DriveForward { timeout_ms, .. } => seq![cap(timeout_ms, MOTION_WAIT_CAP_MS)],
        Action::DriveBackward { timeout_ms, .. } => seq![cap(timeout_ms, MOTION_WAIT_CAP_MS)],
        Action::TurnToHeading { timeout_ms, .. } => seq![cap(timeout_ms, TURN_WAIT_CAP_MS)],
        Action::TurnByAngle { timeout_ms, .. } => seq![cap(timeout_ms, TURN_WAIT_CAP_MS)],
        Action::LiftTo { timeout_ms, .. } => seq![cap(timeout_ms, MOTION_WAIT_CAP_MS)],
        Action::Sequence(v) => route_sleeps(v@),
        Action::Parallel(x, y) => {
            let tx = total(action_sleeps(*x));
            let ty = total(action_sleeps(*y));
            seq![saturate(if tx >= ty { tx } else { ty })]
        },
        Action::Race(x, y) => {
            let tx = total(action_sleeps(*x));
            let ty = total(action_sleeps(*y));
            seq![saturate(if tx <= ty { tx } else { ty })]
        },
        _ => seq![],
    }
}

/// The waits, in order, that the executor performs for a list of actions.
pub open spec fn route_sleeps<N>(s: Seq<Action<N>>) -> Seq<u64>
    decreases s,
{
    if s.len() == 0 {
        seq![]
    } else {
        route_sleeps(s.drop_last()) + action_sleeps(s.last())
    }
}

/// Running two action lists one after the other waits exactly as running
/// the first list and then the second.
pub proof fn lemma_route_sleeps_concat<N>(s1: Seq<Action<N>>, s2: Seq<Action<N>>)
    ensures
        route_sleeps(s1 + s2) == route_sleeps(s1) + route_sleeps(s2),
    decreases s2.len(),
{
    if s2.len() == 0 {
        assert(s1 + s2 =~= s1);
        assert(route_sleeps(s1) + route_sleeps(s2) =~= route_sleeps(s1));
    } else {
        let t = s1 + s2;
        assert(t.drop_last() =~= s1 + s2.drop_last());
        assert(t.last() == s2.last());
        lemma_route_sleeps_concat(s1, s2.drop_last());
        assert(route_sleeps(s1) + route_sleeps(s2) =~= route_sleeps(s1) + route_sleeps(
            s2.drop_last(),
        ) + action_sleeps(s2.last()));
    }
}

/// A [`Action::Sequence`] step runs its actions in place: appending
/// `Sequence(v)` to a route waits as appending every action of `v` in order.
pub proof fn lemma_sequence_inlines<N>(s: Seq<Action<N>>, v: Vec<Action<N>>)
    ensures
        route_sleeps(s.push(Action::Sequence(v))) == route_sleeps(s + v@),
{
    let t = s.push(Action::Sequence(v));
    assert(t.drop_last() =~= s);
    assert(t.last() == Action::Sequence(v));
    assert(action_sleeps(Action::Sequence(v)) == route_sleeps(v@));
    assert(route_sleeps(t) == route_sleeps(s) + route_sleeps(v@));
    lemma_route_sleeps_concat(s, v@);
}

/// What the executor waits for each kind of step: a timed step waits its
/// duration; drives and lifts wait their timeout but never more than 3 s;
/// turns (to a heading or by an angle) wait their timeout but never more
/// than 2 s; instant steps wait nothing. Each waiting step is one wait.
pub proof fn lemma_step_waits<N>(d: u64, t: u64, a: N, b: N, id: u8)
    ensures
        action_sleeps(Action::<N>::Wait { duration_ms: d }) == seq![d],
        action_sleeps(Action::<N>::IntakeFor { duration_ms: d }) == seq![d],
        action_sleeps(Action::<N>::OuttakeFor { duration_ms: d }) == seq![d],
        action_sleeps(Action::DriveForward { distance_mm: a, power: b, timeout_ms: t })
            == seq![if t <= 3000 { t } else { 3000u64 }],
        action_sleeps(Action::DriveBackward { distance_mm: a, power: b, timeout_ms: t })
            == seq![if t <= 3000 { t } else { 3000u64 }],
        action_sleeps(Action::LiftTo { ticks: a, timeout_ms: t })
            == seq![if t <= 3000 { t } else { 3000u64 }],
        action_sleeps(Action::TurnToHeading { heading_deg: a, timeout_ms: t })
            == seq![if t <= 2000 { t } else { 2000u64 }],
        action_sleeps(Action::TurnByAngle { angle_deg: a, timeout_ms: t })
            == seq![if t <= 2000 { t } else { 2000u64 }],
        action_sleeps(Action::<N>::IntakeStart).len() == 0,
        action_sleeps(Action::<N>::IntakeStop).len() == 0,
        action_sleeps(Action::<N>::OuttakeStart).len() == 0,
        action_sleeps(Action::<N>::ClawOpen).len() == 0,
        action_sleeps(Action::<N>::ClawClose).len() == 0,
        action_sleeps(Action::<N>::ClawToggle).len() == 0,
        action_sleeps(Action::<N>::SolenoidExtend { id }).len() == 0,
        action_sleeps(Action::<N>::SolenoidRetract { id }).len() == 0,
        action_sleeps(Action::<N>::SolenoidToggle { id }).len() == 0,
{
}

/// Totals of waits add up: a single wait totals itself, nothing totals
/// zero, and joining two lists adds their totals; totals are never negative.
pub proof fn lemma_total_additive(s1: Seq<u64>, s2: Seq<u64>, w: u64)
    ensures
        total(seq![w]) == w,
        total(Seq::<u64>::empty()) == 0,
        total(s1 + s2) == total(s1) + total(s2),
        total(s1) >= 0,
    decreases s2.len(),
{
    assert(seq![w].drop_last() =~= Seq::<u64>::empty());
    assert(total(Seq::<u64>::empty()) == 0);
    assert(seq![w].last() == w);
    assert(total(seq![w]) == total(seq![w].drop_last()) + seq![w].last());
    if s2.len() == 0 {
        assert(s1 + s2 =~= s1);
    } else {
        assert((s1 + s2).drop_last() =~= s1 + s2.drop_last());
        lemma_total_additive(s1, s2.drop_last(), w);
    }
    lemma_total_nonneg(s1);
}

proof fn lemma_total_nonneg(s: Seq<u64>)
    ensures
        total(s) >= 0,
    decreases s.len(),
{
    if s.len() > 0 {
        lemma_total_nonneg(s.drop_last());
    }
}

/// A parallel pair is one wait as long as its longer branch, a race one wait
/// as long as its shorter branch (a total past `u64::MAX` ms waits
/// `u64::MAX` ms). In particular a parallel pair waits at least as long as
/// each branch (up to that limit) and a race no longer than either.
pub proof fn lemma_pair_waits<N>(x: Action<N>, y: Action<N>)
    ensures
        ({
            let tx = total(action_sleeps(x));
            let ty = total(action_sleeps(y));
            let longer = if tx >= ty { tx } else { ty };
            let shorter = if tx <= ty { tx } else { ty };
            &&& action_sleeps(Action::Parallel(Box::new(x), Box::new(y))).len() == 1
            &&& action_sleeps(Action::Parallel(Box::new(x), Box::new(y)))[0] as int == (if longer
                > u64::MAX { u64::MAX as int } else { longer })
            &&& action_sleeps(Action::Race(Box::new(x), Box::new(y))).len() == 1
            &&& action_sleeps(Action::Race(Box::new(x), Box::new(y)))[0] as int == (if shorter
                > u64::MAX { u64::MAX as int } else { shorter })
            &&& tx >= 0 && ty >= 0
        }),
{
    lemma_total_nonneg(action_sleeps(x));
    lemma_total_nonneg(action_sleeps(y));
}

/// A route's waits are its steps' waits one after the other: an empty route
/// waits nothing and a one-step route waits what that step waits.
pub proof fn lemma_route_of_steps<N>(a: Action<N>)
    ensures
        route_sleeps(Seq::<Action<N>>::empty()).len() == 0,
        route_sleeps(seq![a]) == action_sleeps(a),
{
    assert(seq![a].drop_last() =~= Seq::<Action<N>>::empty());
    assert(route_sleeps(Seq::<Action<N>>::empty()) =~= Seq::<u64>::empty());
    assert(seq![a].last() == a);
    assert(route_sleeps(seq![a]) =~= Seq::<u64>::empty() + action_sleeps(a));
}

/// A named autonomous route: a list of actions run in order.
pub struct Route<N> {
    pub name: String,
    pub actions: Vec<Action<N>>,
}

impl<N> Route<N> {
    /// Create an empty route with the given name.
    pub fn new(name: &str) -> (r: Self)
        ensures
            r.name@ == name@,
            r.actions@.len() == 0,
    {
        Route { name: name.to_owned(), actions: Vec::new() }
    }

    /// Append an action and return `self` for chaining.
    pub fn then(self, action: Action<N>) -> (r: Self)
        ensures
            r.name == self.name,
            r.actions@ == self.actions@.push(action),
    {
        let mut actions = self.actions;
        actions.push(action);
        Route { name: self.name, actions }
    }

    /// Append multiple actions, keeping their order.
    pub fn then_all(self, more: Vec<Action<N>>) -> (r: Self)
        ensures
            r.name == self.name,
            r.actions@ == self.actions@ + more@,
    {
        let mut actions = self.actions;
        let mut more = more;
        actions.append(&mut more);
        Route { name: self.name, actions }
    }

    /// Returns the number of actions in this route.
    pub fn len(&self) -> (n: usize)
        ensures
            n == self.actions@.len(),
    {
        self.actions.len()
    }

    pub fn is_empty(&self) -> (b: bool)
        ensures
            b == (self.actions@.len() == 0),
    {
        self.actions.len() == 0
    }

    /// The waits, in order, that the route executor performs when it runs
    /// this route.
    pub fn sleep_plan(&self) -> (plan: Vec<u64>)
        ensures
            plan@ == route_sleeps(self.actions@),
    {
        let mut plan: Vec<u64> = Vec::new();
        push_sleeps(&mut plan, &self.actions);
        assert(plan@ =~= route_sleeps(self.actions@));
        plan
    }
}

fn push_sleeps<N>(plan: &mut Vec<u64>, actions: &Vec<Action<N>>)
    ensures
        final(plan)@ == old(plan)@ + route_sleeps(actions@),
    decreases actions@, 0nat,
{
    let ghost start = plan@;
    let n = actions.len();
    let mut i: usize = 0;
    assert(actions@.take(0) =~= Seq::<Action<N>>::empty());
    while i < n
        invariant
            n == actions@.len(),
            0 <= i <= n,
            plan@ == start + route_sleeps(actions@.take(i as int)),
        decreases n - i,
    {
        assert(actions@.take(i + 1).drop_last() =~= actions@.take(i as int));
        assert(actions@.take(i + 1).last() == actions@[i as int]);
        assert(decreases_to!(actions@ => actions@[i as int]));
        push_action(plan, &actions[i]);
        assert(route_sleeps(actions@.take(i + 1)) =~= route_sleeps(actions@.take(i as int))
            + action_sleeps(actions@[i as int]));
        i = i + 1;
    }
    assert(actions@.take(n as int) =~= actions@);
}

fn push_action<N>(plan: &mut Vec<u64>, action: &Action<N>)
    ensures
        final(plan)@ == old(plan)@ + action_sleeps(*action),
    decreases *action, 0nat,
{
    let ghost start = plan@;
    match action {
        Action::Wait { duration_ms } => plan.push(*duration_ms),
        Action::IntakeFor { duration_ms } => plan.push(*duration_ms),
        Action::OuttakeFor { duration_ms } => plan.push(*duration_ms),
        Action::DriveForward { timeout_ms, .. } => plan.push(min_u64(*timeout_ms, MOTION_WAIT_CAP_MS)),
        Action::DriveBackward { timeout_ms, .. } => plan.push(min_u64(*timeout_ms, MOTION_WAIT_CAP_MS)),
        Action::TurnToHeading { timeout_ms, .. } => plan.push(min_u64(*timeout_ms, TURN_WAIT_CAP_MS)),
        Action::TurnByAngle { timeout_ms, .. } => plan.push(min_u64(*timeout_ms, TURN_WAIT_CAP_MS)),
        Action::LiftTo { timeout_ms, .. } => plan.push(min_u64(*timeout_ms, MOTION_WAIT_CAP_MS)),
        Action::Sequence(inner) => {
            push_sleeps(plan, inner);
        },
        Action::Parallel(x, y) => {
            let tx = branch_total(&**x);
            let ty = branch_total(&**y);
            let w = if tx >= ty { tx } else { ty };
            proof {
                lemma_saturate_monotone(total(action_sleeps(**x)), total(action_sleeps(**y)));
            }
            plan.push(w);
        },
        Action::Race(x, y) => {
            let tx = branch_total(&**x);
            let ty = branch_total(&**y);
            let w = if tx <= ty { tx } else { ty };
            proof {
                lemma_saturate_monotone(total(action_sleeps(**x)), total(action_sleeps(**y)));
            }
            plan.push(w);
        },
        _ => {},
    }
    assert(plan@ =~= start + action_sleeps(*action));
}

proof fn lemma_saturate_monotone(a: int, b: int)
    ensures
        a <= b ==> saturate(a) <= saturate(b),
        saturate(a) < saturate(b) ==> a < b,
        saturate(a) == saturate(b) ==> saturate(if a >= b { a } else { b }) == saturate(a)
            && saturate(if a <= b { a } else { b }) == saturate(a),
{
}

/// The total wait of one branch of a concurrent pair.
fn branch_total<N>(action: &Action<N>) -> (t: u64)
    ensures
        t == saturate(total(action_sleeps(*action))),
    decreases *action, 1nat,
{
    let mut p: Vec<u64> = Vec::new();
    push_action(&mut p, action);
    assert(p@ =~= action_sleeps(*action));
    plan_total(&p)
}

/// Sum of a list of waits, saturated at `u64::MAX`.
fn plan_total(plan: &Vec<u64>) -> (t: u64)
    ensures
        t == saturate(total(plan@)),
{
    let mut acc: u64 = 0;
    let mut i: usize = 0;
    assert(plan@.take(0) =~= Seq::<u64>::empty());
    while i < plan.len()
        invariant
            0 <= i <= plan@.len(),
            acc == saturate(total(plan@.take(i as int))),
            total(plan@.take(i as int)) >= 0,
        decreases plan@.len() - i,
    {
        assert(plan@.take(i + 1).drop_last() =~= plan@.take(i as int));
        acc = acc.saturating_add(plan[i]);
        i = i + 1;
    }
    assert(plan@.take(plan@.len() as int) =~= plan@);
    acc
}

fn min_u64(a: u64, b: u64) -> (r: u64)
    ensures
        r == cap(a, b),
{
    if a < b { a } else { b }
}

} // verus!
