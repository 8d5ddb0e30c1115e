//! The process launcher's decisions. Spawning is the caller's (it is
//! process I/O); what is verified here is the policy: every spec in the
//! given order gets its own independent attempt — no failure or
//! invalidity of one spec withholds the attempt on any other — and the
//! ordered-alternatives policy that takes the first success.

use vstd::prelude::*;

verus! {

/// One executable to launch: its name or path, its arguments, and an
/// optional working directory. Immutable; consumed by one spawn
/// attempt with no output capture and no reaping.
#[derive(PartialEq, Debug)]
pub struct LaunchSpec {
    pub program: String,
    pub args: Vec<String>,
    pub cwd: Option<String>,
}

impl LaunchSpec {
    /// Whether the spec can name a process at all: a spec with an
    /// empty program text is attempted, but cannot succeed.
    pub fn viable(&self) -> (r: bool)
        ensures
            r == (self.program@.len() != 0),
    {
        self.program.as_str().unicode_len() != 0
    }
}

/// The launch plan for a sequence of specs: one attempt per spec, in
/// the given order, each independent of every other spec's content or
/// outcome — the attempt list is the index sequence itself, whatever
/// the specs hold.
pub fn attempt_order(specs: &Vec<LaunchSpec>) -> (r: Vec<usize>)
    ensures
        r@.len() == specs@.len(),
        forall|i: int| 0 <= i < r@.len() ==> r@[i] == i,
{
    let mut r: Vec<usize> = Vec::new();
    let n = specs.len();
    let mut i: usize = 0;
    while i < n
        invariant
            0 <= i <= n,
            r@.len() == i,
            forall|j: int| 0 <= j < i ==> r@[j] == j,
        decreases n - i,
    {
        r.push(i);
        i = i + 1;
    }
    r
}

/// The least index at which an attempt succeeded, if any.
pub open spec fn spec_first_success(outcomes: Seq<bool>) -> Option<int>
    decreases outcomes.len(),
{
    if outcomes.len() == 0 {
        None
    } else if outcomes[0] {
        Some(0)
    } else {
        match spec_first_success(outcomes.skip(1)) {
            Some(i) => Some(i + 1),
            None => None,
        }
    }
}

proof fn lemma_first_success(outcomes: Seq<bool>)
    ensures
        match spec_first_success(outcomes) {
            Some(i) => 0 <= i < outcomes.len() && outcomes[i] && (forall|j: int|
                0 <= j < i ==> !outcomes[j]),
            None => forall|j: int| 0 <= j < outcomes.len() ==> !outcomes[j],
        },
    decreases outcomes.len(),
{
    if outcomes.len() != 0 && !outcomes[0] {
        let t = outcomes.skip(1);
        lemma_first_success(t);
        match spec_first_success(t) {
            Some(i) => {
                assert(outcomes[i + 1] == t[i]);
                assert forall|j: int| 0 <= j < i + 1 implies !outcomes[j] by {
                    if j > 0 {
                        assert(t[j - 1] == outcomes[j]);
                    }
                }
            },
            None => {
                assert forall|j: int| 0 <= j < outcomes.len() implies !outcomes[j] by {
                    if j > 0 {
                        assert(t[j - 1] == outcomes[j]);
                    }
                }
            },
        }
    }
}

/// The ordered-alternatives policy: given the outcomes of the attempts
/// on a sequence of alternatives, the winner is the first success; a
/// run with no success has no winner (and needs none — launching is
/// best effort).
pub fn first_success(outcomes: &Vec<bool>) -> (r: Option<usize>)
    ensures
        match r {
            Some(i) => spec_first_success(outcomes@) == Some(i as int),
            None => spec_first_success(outcomes@) is None,
        },
{
    let n = outcomes.len();
    let mut i: usize = 0;
    while i < n
        invariant
            0 <= i <= n,
            n == outcomes@.len(),
            forall|j: int| 0 <= j < i ==> !outcomes@[j],
        decreases n - i,
    {
        if outcomes[i] {
            proof {
                lemma_first_success(outcomes@);
                match spec_first_success(outcomes@) {
                    Some(k) => {
                        if k < i as int {
                            assert(!outcomes@[k]);
                        }
                        if k > i as int {
                            assert(!outcomes@[i as int]);
                        }
                    },
                    None => {
                        assert(!outcomes@[i as int]);
                    },
                }
            }
            return Some(i);
        }
        i = i + 1;
    }
    proof {
        lemma_first_success(outcomes@);
        match spec_first_success(outcomes@) {
            Some(k) => {
                assert(!outcomes@[k]);
            },
            None => {},
        }
    }
    None
}

} // verus!
