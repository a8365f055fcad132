//! A local and a remote candidate, paired for connectivity checks.

use std::sync::Arc;
use vstd::prelude::*;
use crate::candidate::candidate_base::CandidateBase;
use crate::candidate::candidate_base::CandidateView;
use crate::decimal::decimal;
use crate::decimal::decimal_string;

verus! {

/// A local candidate and a remote candidate considered together.
#[derive(Debug)]
pub struct CandidatePair {
    /// Whether the local agent is the controlling one.
    pub ice_role_controlling: bool,
    /// The candidate of the peer.
    pub remote: Arc<CandidateBase>,
    /// The candidate of the local agent.
    pub local: Arc<CandidateBase>,
}

/// What a candidate pair holds.
pub struct CandidatePairView {
    /// Whether the local agent is the controlling one.
    pub controlling: bool,
    /// The candidate of the peer.
    pub remote: CandidateView,
    /// The candidate of the local agent.
    pub local: CandidateView,
}

impl View for CandidatePair {
    type V = CandidatePairView;

    open spec fn view(&self) -> CandidatePairView {
        CandidatePairView {
            controlling: self.ice_role_controlling,
            remote: self.remote@,
            local: self.local@,
        }
    }
}

/// The priority of a pair whose candidate of the controlling agent has
/// priority `g` and whose candidate of the controlled agent has priority `d`:
/// `(2^32 - 1) * min(g, d) + 2 * max(g, d)`, and one more where `g` is the
/// larger. With the factor `2^32 - 1` the priority of every pair fits in 64
/// bits.
pub open spec fn pair_priority(g: nat, d: nat) -> nat {
    let low = if g < d {
        g
    } else {
        d
    };
    let high = if g < d {
        d
    } else {
        g
    };
    let tie_break: nat = if g > d {
        1
    } else {
        0
    };
    4294967295 * low + 2 * high + tie_break
}

impl CandidatePairView {
    /// The priority of the pair: the local candidate counts as the one of the
    /// controlling agent exactly if the local agent is controlling.
    pub open spec fn priority(self) -> nat {
        if self.controlling {
            pair_priority(self.local.priority(), self.remote.priority())
        } else {
            pair_priority(self.remote.priority(), self.local.priority())
        }
    }

    /// Whether two pairs count as the same pair: their local candidates count
    /// as the same candidate, and so do their remote ones. Which agent
    /// controls plays no part.
    pub open spec fn equal(self, other: CandidatePairView) -> bool {
        self.local.equal(other.local) && self.remote.equal(other.remote)
    }

    /// The text that describes the pair in diagnostics.
    pub open spec fn description(self) -> Seq<char> {
        "prio "@ + decimal(self.priority()) + " (local, prio "@ + decimal(
            self.local.priority(),
        ) + ") "@ + self.local.description() + " <-> "@ + self.remote.description()
            + " (remote, prio "@ + decimal(self.remote.priority()) + ")"@
    }
}

/// Computes the priority of a pair whose candidate of the controlling agent
/// has priority `g` and whose candidate of the controlled agent has priority
/// `d`.
pub fn pair_priority_of(g: u32, d: u32) -> (p: u64)
    ensures
        p == pair_priority(g as nat, d as nat),
{
    let (low, high) = if g < d {
        (g, d)
    } else {
        (d, g)
    };
    let tie_break: u64 = if g > d {
        1
    } else {
        0
    };
    4294967295 * (low as u64) + 2 * (high as u64) + tie_break
}

impl PartialEq for CandidatePair {
    fn eq(&self, other: &CandidatePair) -> (b: bool) {
        self.local.equal(&other.local) && self.remote.equal(&other.remote)
    }
}

impl vstd::std_specs::cmp::PartialEqSpecImpl for CandidatePair {
    open spec fn obeys_eq_spec() -> bool {
        true
    }

    open spec fn eq_spec(&self, other: &CandidatePair) -> bool {
        self@.equal(other@)
    }
}

impl CandidatePair {
    /// Pairs the local candidate `local` with the remote candidate `remote`.
    pub fn new(local: Arc<CandidateBase>, remote: Arc<CandidateBase>, controlling: bool) -> (p:
        CandidatePair)
        ensures
            p@ == (CandidatePairView { controlling, remote: remote@, local: local@ }),
    {
        CandidatePair { ice_role_controlling: controlling, remote, local }
    }

    /// The priority of the pair, by which pairs are ordered for checks.
    pub fn priority(&self) -> (p: u64)
        ensures
            p == self@.priority(),
    {
        let local = self.local.priority();
        let remote = self.remote.priority();
        if self.ice_role_controlling {
            pair_priority_of(local, remote)
        } else {
            pair_priority_of(remote, local)
        }
    }

    /// Describes the pair for diagnostics: its priority, and each candidate
    /// with its own priority.
    pub fn to_string(&self) -> (s: String)
        ensures
            s@ == self@.description(),
    {
        let mut val = String::from_str("prio ");
        val.append(decimal_string(self.priority()).as_str());
        val.append(" (local, prio ");
        val.append(decimal_string(self.local.priority() as u64).as_str());
        val.append(") ");
        val.append(self.local.to_string().as_str());
        val.append(" <-> ");
        val.append(self.remote.to_string().as_str());
        val.append(" (remote, prio ");
        val.append(decimal_string(self.remote.priority() as u64).as_str());
        val.append(")");
        val
    }
}

/// The priority of every pair fits in 64 bits.
pub proof fn lemma_pair_priority_bounds(g: nat, d: nat)
    requires
        g <= u32::MAX,
        d <= u32::MAX,
    ensures
        pair_priority(g, d) <= u64::MAX,
{
}

/// Which side the higher priority is on shows in the last bit alone: with
/// the priorities swapped, the pair priority is one lower where the
/// controlling agent had the higher one, one higher where it had the lower
/// one, and the same where the two are equal.
pub proof fn lemma_pair_priority_swapped(g: nat, d: nat)
    ensures
        g > d ==> pair_priority(g, d) == pair_priority(d, g) + 1,
        g < d ==> pair_priority(g, d) + 1 == pair_priority(d, g),
        g == d ==> pair_priority(g, d) == pair_priority(d, g),
{
}

/// Which agent controls plays no part in whether two pairs count as the
/// same: a pair equals the pair of the same candidates under the other role.
pub proof fn lemma_pair_equality_ignores_role(
    local: CandidateView,
    remote: CandidateView,
    controlling: bool,
)
    ensures
        (CandidatePairView { controlling, remote, local }).equal(
            CandidatePairView { controlling: !controlling, remote, local },
        ),
{
}

/// Two pairs of candidates that count as the same candidates count as the
/// same pair, whatever the role of each.
pub proof fn lemma_pair_equality_by_candidates(a: CandidatePairView, b: CandidatePairView)
    ensures
        a.equal(b) <==> a.local.equal(b.local) && a.remote.equal(b.remote),
{
}

} // verus!
