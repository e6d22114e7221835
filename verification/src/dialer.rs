//! The proxy dialer's decision rule: first reachable candidate wins,
//! exhaustion is a single error.

use vstd::prelude::*;

use crate::error::Error;

verus! {

/// The least index whose connection attempt succeeded, if any.
pub open spec fn spec_first_success(tried: Seq<bool>) -> Option<int>
    decreases tried.len(),
{
    if tried.len() == 0 {
        None
    } else if tried[0] {
        Some(0)
    } else {
        match spec_first_success(tried.drop_first()) {
            Some(i) => Some(i + 1),
            None => None,
        }
    }
}

/// Picks the candidate the dialer settles on: the first whose transport
/// connection succeeded. Exhaustion without a success is exactly
/// `ProxyServerUnreachable`; individual failures are discarded.
pub fn select_candidate(tried: &Vec<bool>) -> (r: Result<usize, Error>)
    ensures
        match r {
            Result::Ok(i) => spec_first_success(tried@) == Some(i as int) && i < tried@.len()
                && tried@[i as int],
            Result::Err(e) => spec_first_success(tried@) is None && e
                == Error::ProxyServerUnreachable,
        },
{
    let n = tried.len();
    proof {
        assert(tried@.skip(0) =~= tried@);
    }
    let mut i: usize = 0;
    while i < n
        invariant
            i <= n == tried@.len(),
            spec_first_success(tried@) == match spec_first_success(tried@.skip(i as int)) {
                Some(k) => Some(k + i),
                None => None,
            },
            forall|k: int| 0 <= k < i ==> !tried@[k],
        decreases n - i,
    {
        proof {
            assert(tried@.skip(i as int)[0] == tried@[i as int]);
            assert(tried@.skip(i as int).drop_first() =~= tried@.skip(i + 1));
        }
        if tried[i] {
            return Ok(i);
        }
        i = i + 1;
    }
    proof {
        assert(tried@.skip(n as int).len() == 0);
    }
    Err(Error::ProxyServerUnreachable)
}

/// Exhaustion law: a source that yields any number of unreachable
/// endpoints and then ends settles on no candidate, so the dialer
/// surfaces exactly `ProxyServerUnreachable`.
pub proof fn lemma_dialer_exhaustion(tried: Seq<bool>)
    requires
        forall|k: int| 0 <= k < tried.len() ==> !tried[k],
    ensures
        spec_first_success(tried) is None,
    decreases tried.len(),
{
    if tried.len() > 0 {
        assert(!tried[0]);
        assert(forall|k: int|
            0 <= k < tried.drop_first().len() ==> !(#[trigger] tried.drop_first()[k]));
        lemma_dialer_exhaustion(tried.drop_first());
    }
}

} // verus!
