use crate::acquire::{advance_spec, AcquireView, Step};
use crate::permits::granted;
use vstd::prelude::*;

verus! {

/// The permits of one semaphore as accounted over its lifetime: those
/// available, those granted to callers and not given back, and those added
/// since it was created.
pub struct Ledger {
    pub available: nat,
    pub held: nat,
    pub supplied: nat,
}

/// One operation on the permit count, as the count sees it.
pub enum PermitOp {
    /// A fast-path attempt for this many permits.
    Take(nat),
    /// `add_permits` with this many new permits.
    Supply(nat),
    /// An abandoned request handing back this many of the permits it held.
    Refund(nat),
}

pub open spec fn ledger_step(l: Ledger, op: PermitOp) -> Ledger {
    match op {
        PermitOp::Take(request) => {
            let g = granted(l.available, request);
            Ledger { available: (l.available - g) as nat, held: l.held + g, ..l }
        },
        PermitOp::Supply(n) => Ledger {
            available: l.available + n,
            supplied: l.supplied + n,
            ..l
        },
        PermitOp::Refund(n) => {
            let m = if n <= l.held { n } else { l.held };
            Ledger { available: l.available + m, held: (l.held - m) as nat, ..l }
        },
    }
}

/// The ledger after `ops` were applied to `l` in order.
pub open spec fn ledger_run(l: Ledger, ops: Seq<PermitOp>) -> Ledger
    decreases ops.len(),
{
    if ops.len() == 0 {
        l
    } else {
        ledger_run(ledger_step(l, ops[0]), ops.drop_first())
    }
}

/// A semaphore created with `initial` permits.
pub open spec fn fresh_ledger(initial: nat) -> Ledger {
    Ledger { available: initial, held: 0, supplied: 0 }
}

proof fn lemma_run_keeps_total(l: Ledger, ops: Seq<PermitOp>)
    ensures
        ledger_run(l, ops).available + ledger_run(l, ops).held + l.supplied == l.available
            + l.held + ledger_run(l, ops).supplied,
    decreases ops.len(),
{
    if ops.len() > 0 {
        lemma_run_keeps_total(ledger_step(l, ops[0]), ops.drop_first());
    }
}

/// Conservation: after any sequence of takes, additions and refunds, the
/// permits available plus those held equal the initial permits plus all
/// that were added.
pub proof fn lemma_conservation(initial: nat, ops: Seq<PermitOp>)
    ensures
        ledger_run(fresh_ledger(initial), ops).available + ledger_run(
            fresh_ledger(initial),
            ops,
        ).held == initial + ledger_run(fresh_ledger(initial), ops).supplied,
{
    lemma_run_keeps_total(fresh_ledger(initial), ops);
}

/// No double grant: of two attempts made one after the other on `balance`
/// permits, together they never get more than `balance`; in particular,
/// with a single permit left, two attempts for one permit do not both
/// succeed.
pub proof fn lemma_no_double_grant(balance: nat, first: nat, second: nat)
    ensures
        granted(balance, first) + granted((balance - granted(balance, first)) as nat, second)
            <= balance,
        balance == 1 && first == 1 && second == 1 ==> !(granted(balance, first) == 1
            && granted((balance - granted(balance, first)) as nat, second) == 1),
{
}

/// The pool and the request after `polls` attempts by `v` alone on a pool of
/// `available` permits, each one taking what it can of the rest of `v`.
pub open spec fn solo_polls(available: nat, v: AcquireView, polls: nat) -> (nat, AcquireView)
    decreases polls,
{
    if polls == 0 {
        (available, v)
    } else {
        let g = granted(available, v.remaining());
        solo_polls((available - g) as nat, advance_spec(v, g).0, (polls - 1) as nat)
    }
}

proof fn lemma_solo_polls_keep_sum(available: nat, v: AcquireView, polls: nat)
    requires
        v.wf(),
    ensures
        solo_polls(available, v, polls).1.wf(),
        solo_polls(available, v, polls).1.requested == v.requested,
        solo_polls(available, v, polls).0 + solo_polls(available, v, polls).1.acquired
            == available + v.acquired,
    decreases polls,
{
    if polls > 0 {
        let g = granted(available, v.remaining());
        lemma_solo_polls_keep_sum((available - g) as nat, advance_spec(v, g).0, (polls - 1) as nat);
    }
}

/// Timeout refund: a request for `requested` permits that polls any number
/// of times on a pool of `available` permits with nothing else going on,
/// and is then abandoned before it is met, refunds what it held and leaves
/// the pool exactly as it found it.
pub proof fn lemma_timeout_refund(available: nat, requested: nat, polls: nat)
    ensures
        ({
            let (rest, v) = solo_polls(
                available,
                AcquireView { requested, acquired: 0, listening: false },
                polls,
            );
            !v.is_complete() ==> rest + v.acquired == available
        }),
{
    lemma_solo_polls_keep_sum(
        available,
        AcquireView { requested, acquired: 0, listening: false },
        polls,
    );
}

/// Wake correctness: once the pool holds at least what a waiting request
/// still needs, its next attempt meets it.
pub proof fn lemma_wake_completes(v: AcquireView, available: nat)
    requires
        v.wf(),
        available >= v.remaining(),
    ensures
        advance_spec(v, granted(available, v.remaining())).1 == Step::Done,
        advance_spec(v, granted(available, v.remaining())).0.is_complete(),
{
}

} // verus!
