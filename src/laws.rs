use vstd::prelude::*;
use crate::address::Family;
use crate::join::{
    InterfaceRecord, JoinOutcome, JoinStep, JoinTarget, eligible, fallback, is_logged_failure,
    planned, target_for,
};
use crate::session::{SessionModel, after, run, start_model, step_of};

verus! {

/// Whether one of the first `n` outcomes is a success.
pub open spec fn any_joined(outs: Seq<JoinOutcome>, n: int) -> bool {
    exists|i: int| 0 <= i < n && #[trigger] outs[i] == JoinOutcome::Joined
}

/// Whether `t` is the join of an eligible interface among `ifaces`.
pub open spec fn joins_eligible(f: Family, ifaces: Seq<InterfaceRecord>, t: JoinTarget) -> bool {
    exists|i: int| 0 <= i < ifaces.len() && eligible(f, #[trigger] ifaces[i]) && t == target_for(ifaces[i])
}

/// The joins of a whole procedure on a successful enumeration.
pub open spec fn full_run(
    f: Family,
    ifaces: Seq<InterfaceRecord>,
    outs: Seq<JoinOutcome>,
) -> Seq<JoinTarget> {
    run(start_model(f, Some(ifaces)), outs)
}

/// From a state in the per-interface phase, a run attempts the remaining
/// per-interface joins and then the wildcard join only where none of the
/// per-interface joins succeeded.
proof fn lemma_run_from(m: SessionModel, outs: Seq<JoinOutcome>)
    requires
        m.enumerated,
        !m.fallback_tried,
        m.next <= m.targets.len(),
        outs.len() > m.targets.len() - m.next,
    ensures
        run(m, outs) == m.targets.subrange(m.next as int, m.targets.len() as int) + (if m.joined
            || any_joined(outs, m.targets.len() - m.next) {
            Seq::<JoinTarget>::empty()
        } else {
            seq![fallback(m.family)]
        }),
    decreases m.targets.len() - m.next,
{
    let len = m.targets.len() as int;
    if m.next == len {
        assert(m.targets.subrange(len, len) =~= Seq::<JoinTarget>::empty());
        assert(!any_joined(outs, 0));
        if !m.joined {
            let m1 = after(m, outs[0]);
            assert(step_of(m1) == JoinStep::Finished);
            assert(run(m1, outs.drop_first()) == Seq::<JoinTarget>::empty());
            assert(run(m, outs) =~= seq![fallback(m.family)]);
        }
    } else {
        let m1 = after(m, outs[0]);
        let rest = outs.drop_first();
        lemma_run_from(m1, rest);
        let n = len - m.next;
        assert(any_joined(outs, n) == (outs[0] == JoinOutcome::Joined || any_joined(rest, n - 1)))
            by {
            if any_joined(rest, n - 1) {
                let i = choose|i: int| 0 <= i < n - 1 && #[trigger] rest[i] == JoinOutcome::Joined;
                assert(outs[i + 1] == JoinOutcome::Joined);
            }
            if any_joined(outs, n) && outs[0] != JoinOutcome::Joined {
                let i = choose|i: int| 0 <= i < n && #[trigger] outs[i] == JoinOutcome::Joined;
                assert(rest[i - 1] == JoinOutcome::Joined);
            }
        }
        assert(m.targets.subrange(m.next as int, len) =~= seq![m.targets[m.next as int]]
            + m.targets.subrange((m.next + 1) as int, len));
        assert(run(m, outs) =~= m.targets.subrange(m.next as int, len) + (if m.joined
            || any_joined(outs, n) {
            Seq::<JoinTarget>::empty()
        } else {
            seq![fallback(m.family)]
        }));
    }
}

/// On a successful enumeration the procedure attempts every per-interface
/// join, in order, and then the wildcard join if and only if none of the
/// per-interface joins succeeded; it makes no other attempt, so it ends
/// after at most one join more than there are eligible interfaces.
pub proof fn law_fallback_exactly_when_nothing_joined(f: Family, ifaces: Seq<InterfaceRecord>, outs: Seq<JoinOutcome>)
    requires
        outs.len() > planned(f, ifaces).len(),
    ensures
        full_run(f, ifaces, outs) == planned(f, ifaces) + (if any_joined(
            outs,
            planned(f, ifaces).len() as int,
        ) {
            Seq::<JoinTarget>::empty()
        } else {
            seq![fallback(f)]
        }),
        full_run(f, ifaces, outs).len() <= planned(f, ifaces).len() + 1,
{
    let p = planned(f, ifaces);
    lemma_run_from(start_model(f, Some(ifaces)), outs);
    assert(p.subrange(0, p.len() as int) =~= p);
}

/// Each planned join is the join of an eligible interface, and each
/// eligible interface has its join planned.
proof fn lemma_planned_members(f: Family, ifaces: Seq<InterfaceRecord>)
    ensures
        forall|i: int|
            0 <= i < ifaces.len() && eligible(f, #[trigger] ifaces[i]) ==> planned(
                f,
                ifaces,
            ).contains(target_for(ifaces[i])),
        forall|j: int|
            0 <= j < planned(f, ifaces).len() ==> joins_eligible(
                f,
                ifaces,
                #[trigger] planned(f, ifaces)[j],
            ),
    decreases ifaces.len(),
{
    if ifaces.len() > 0 {
        let init = ifaces.drop_last();
        lemma_planned_members(f, init);
        let rest = planned(f, init);
        let p = planned(f, ifaces);
        assert forall|i: int|
            0 <= i < ifaces.len() && eligible(f, #[trigger] ifaces[i]) implies p.contains(
            target_for(ifaces[i]),
        ) by {
            if i < ifaces.len() - 1 {
                assert(init[i] == ifaces[i]);
                let k = choose|k: int| 0 <= k < rest.len() && rest[k] == target_for(init[i]);
                assert(p[k] == rest[k]);
            } else {
                assert(p[p.len() - 1] == target_for(ifaces[i]));
            }
        }
        assert forall|j: int| 0 <= j < p.len() implies joins_eligible(f, ifaces, #[trigger] p[j]) by {
            if j < rest.len() {
                assert(joins_eligible(f, init, rest[j]));
                let i = choose|i: int|
                    0 <= i < init.len() && eligible(f, #[trigger] init[i]) && rest[j] == target_for(
                        init[i],
                    );
                assert(ifaces[i] == init[i]);
            } else {
                assert(eligible(f, ifaces[ifaces.len() - 1]));
            }
        }
    }
}

/// Every interface of the socket's family that is not loopback gets a join
/// attempt, whatever the outcomes; and every attempt is either the join of
/// such an interface or the wildcard join, so no loopback interface is
/// ever targeted.
pub proof fn law_each_eligible_interface_is_tried(
    f: Family,
    ifaces: Seq<InterfaceRecord>,
    outs: Seq<JoinOutcome>,
)
    requires
        outs.len() > planned(f, ifaces).len(),
    ensures
        forall|i: int|
            0 <= i < ifaces.len() && eligible(f, #[trigger] ifaces[i]) ==> full_run(
                f,
                ifaces,
                outs,
            ).contains(target_for(ifaces[i])),
        forall|t: JoinTarget|
            #[trigger] full_run(f, ifaces, outs).contains(t) ==> t == fallback(f) || joins_eligible(
                f,
                ifaces,
                t,
            ),
{
    law_fallback_exactly_when_nothing_joined(f, ifaces, outs);
    lemma_planned_members(f, ifaces);
    let p = planned(f, ifaces);
    let r = full_run(f, ifaces, outs);
    assert forall|i: int|
        0 <= i < ifaces.len() && eligible(f, #[trigger] ifaces[i]) implies r.contains(
        target_for(ifaces[i]),
    ) by {
        let k = choose|k: int| 0 <= k < p.len() && p[k] == target_for(ifaces[i]);
        assert(r[k] == p[k]);
    }
    assert forall|t: JoinTarget| #[trigger] r.contains(t) implies t == fallback(f) || joins_eligible(
        f,
        ifaces,
        t,
    ) by {
        let k = choose|k: int| 0 <= k < r.len() && r[k] == t;
        if k < p.len() {
            assert(p[k] == t);
        }
    }
}

/// Where no interface is eligible, the procedure attempts exactly one join:
/// the wildcard join.
pub proof fn law_no_eligible_interface_one_fallback(
    f: Family,
    ifaces: Seq<InterfaceRecord>,
    outs: Seq<JoinOutcome>,
)
    requires
        planned(f, ifaces).len() == 0,
        outs.len() >= 1,
    ensures
        full_run(f, ifaces, outs) == seq![fallback(f)],
{
    law_fallback_exactly_when_nothing_joined(f, ifaces, outs);
    assert(!any_joined(outs, 0));
    assert(planned(f, ifaces) + seq![fallback(f)] =~= seq![fallback(f)]);
}

/// Where a per-interface join succeeds, the wildcard join is not attempted:
/// the attempts are exactly the per-interface joins.
pub proof fn law_success_skips_fallback(
    f: Family,
    ifaces: Seq<InterfaceRecord>,
    outs: Seq<JoinOutcome>,
)
    requires
        outs.len() > planned(f, ifaces).len(),
        any_joined(outs, planned(f, ifaces).len() as int),
    ensures
        full_run(f, ifaces, outs) == planned(f, ifaces),
{
    law_fallback_exactly_when_nothing_joined(f, ifaces, outs);
    assert(planned(f, ifaces) + Seq::<JoinTarget>::empty() =~= planned(f, ifaces));
}

/// "Address in use" is no failure to log, and no outcome keeps the later
/// interfaces from being tried: the per-interface joins come first, in
/// order, whatever their outcomes.
pub proof fn law_failures_do_not_stop_later_joins(
    f: Family,
    ifaces: Seq<InterfaceRecord>,
    outs: Seq<JoinOutcome>,
)
    requires
        outs.len() > planned(f, ifaces).len(),
    ensures
        !is_logged_failure(JoinOutcome::AddrInUse),
        full_run(f, ifaces, outs).len() >= planned(f, ifaces).len(),
        full_run(f, ifaces, outs).subrange(0, planned(f, ifaces).len() as int) == planned(
            f,
            ifaces,
        ),
{
    law_fallback_exactly_when_nothing_joined(f, ifaces, outs);
    let p = planned(f, ifaces);
    assert(full_run(f, ifaces, outs).subrange(0, p.len() as int) =~= p);
}

/// Where the interfaces cannot be enumerated, no join at all is attempted,
/// not even the wildcard one.
pub proof fn law_enumeration_failure_joins_nothing(f: Family, outs: Seq<JoinOutcome>)
    ensures
        run(start_model(f, None), outs) == Seq::<JoinTarget>::empty(),
{
    if outs.len() > 0 {
        assert(step_of(start_model(f, None)) == JoinStep::Finished);
    }
}

} // verus!
