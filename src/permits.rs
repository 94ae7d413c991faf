use vstd::prelude::*;

verus! {

/// How many permits one fast-path attempt hands out from `balance` when
/// `request` are asked for: all of them if they are there, else what is left.
pub open spec fn granted(balance: nat, request: nat) -> nat {
    if balance < request {
        balance
    } else {
        request
    }
}

/// One atomic change of the permit count.
#[derive(Clone, Copy, Debug, PartialEq, Eq, Structural)]
pub enum CountChange {
    /// Take up to this many permits; nothing changes when none are left.
    Take(usize),
    /// Return this many permits to the pool.
    Give(usize),
}

/// The count that replaces `balance` under `change`, or `None` when the
/// count is to be left as it is. Returned permits saturate at `usize::MAX`
/// rather than wrapping.
pub open spec fn next_count(balance: usize, change: CountChange) -> Option<usize> {
    match change {
        CountChange::Take(n) => if balance == 0 {
            None
        } else {
            Some((balance - granted(balance as nat, n as nat)) as usize)
        },
        CountChange::Give(n) => if balance + n > usize::MAX {
            Some(usize::MAX)
        } else {
            Some((balance + n) as usize)
        },
    }
}

/// Computes the count that follows `balance` under `change`.
pub fn apply_change(balance: usize, change: CountChange) -> (r: Option<usize>)
    ensures
        r == next_count(balance, change),
        change is Take ==> (r matches Some(next) ==> next <= balance),
{
    match change {
        CountChange::Take(n) => {
            if balance == 0 {
                None
            } else if balance >= n {
                Some(balance - n)
            } else {
                Some(0)
            }
        },
        CountChange::Give(n) => {
            if n > usize::MAX - balance {
                Some(usize::MAX)
            } else {
                Some(balance + n)
            }
        },
    }
}

/// The number of permits a successful take of `request` permits obtained,
/// given the count `previous` that it replaced. It never exceeds what was
/// there, so the count cannot go below zero.
pub fn grant_from(previous: usize, request: usize) -> (r: usize)
    ensures
        r == granted(previous as nat, request as nat),
        r <= previous,
        r <= request,
{
    if previous < request {
        previous
    } else {
        request
    }
}

} // verus!
