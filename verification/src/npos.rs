//! Data model of a proportional election: stake assignments, their
//! index-compressed form, aggregated support, and the solver's result and
//! error vocabulary.

use vstd::prelude::*;

verus! {

/// The errors that can arise while computing or converting an election
/// solution.
#[derive(Clone, Copy, Debug, PartialEq, Eq, Structural)]
pub enum Error {
    /// While going from solution indices to ratio, the weight of all the edges
    /// has gone above the total.
    SolutionWeightOverflow,
    /// The solution type has a voter whose number of targets is out of bound.
    SolutionTargetOverflow,
    /// One of the index lookups returned none.
    SolutionInvalidIndex,
    /// One of the page indices was invalid.
    SolutionInvalidPageIndex,
    /// An error occurred in some arithmetic operation.
    ArithmeticError,
    /// The data provided to create the support map was invalid.
    InvalidSupportEdge,
    /// The number of voters is bigger than the allowed bound.
    TooManyVoters,
    /// Some bounds were exceeded when converting election types.
    BoundsExceeded,
    /// A duplicate voter was detected.
    DuplicateVoter,
    /// A duplicate target was detected.
    DuplicateTarget,
}

/// A type used as the numeric weight of a vote, most often the stake of the
/// voter.
pub type VoteWeight = u64;

/// The type used as the balance of an election's backing computations.
pub type ExtendedBalance = u128;

/// A voter's stake assignment among a set of targets, represented as ratios.
/// The proportion type `P` is carried through opaquely: this crate never
/// computes with proportions, only copies them.
#[derive(Clone, Debug, PartialEq, Eq)]
pub struct Assignment<AccountId, P> {
    /// Voter's identifier.
    pub who: AccountId,
    /// The distribution of the voter's stake.
    pub distribution: Vec<(AccountId, P)>,
}

/// A position-compressed rewrite of an [`Assignment`]: voter and target
/// identifiers are replaced by their position in the canonical voter and
/// target lists built once per election. Proportions are carried through
/// unchanged.
#[derive(Clone, Debug, PartialEq, Eq)]
pub struct IndexAssignment<P> {
    /// Index of the voter among the canonical voter list.
    pub who: usize,
    /// The distribution of the voter's stake among winning targets, each
    /// identified by its index in the canonical target list.
    pub distribution: Vec<(usize, P)>,
}

/// Finds the first position of `x` in `v`.
fn find_position(v: &Vec<u64>, x: u64) -> (r: Option<usize>)
    ensures
        r matches Some(i) ==> Some(i as int) == v@.index_of_first(x) && i < v@.len()
            && v@[i as int] == x,
        r is None ==> v@.index_of_first(x) is None,
        r is None <==> !v@.contains(x),
{
    proof {
        v@.index_of_first_ensures(x);
    }
    let mut i: usize = 0;
    while i < v.len()
        invariant
            0 <= i <= v@.len(),
            forall|j: int| 0 <= j < i ==> v@[j] != x,
            v@.index_of_first(x) matches Some(p) ==> 0 <= p < v@.len() && v@[p] == x,
            v@.index_of_first(x) matches Some(p) ==> forall|j: int| 0 <= j < p ==> v@[j] != x,
            v@.index_of_first(x) is None ==> !v@.contains(x),
        decreases v@.len() - i,
    {
        if v[i] == x {
            return Some(i);
        }
        i += 1;
    }
    assert(forall|j: int| 0 <= j < v@.len() ==> v@[j] != x);
    assert(!v@.contains(x));
    None
}

impl<P: Copy> IndexAssignment<P> {
    /// Compresses `assignment` against the canonical `voters` and `targets`
    /// lists of the current election: the voter and every target in the
    /// distribution are replaced by the first position at which they occur in
    /// the respective list, and the proportions are copied verbatim. Any
    /// identifier absent from its list fails the whole construction with
    /// [`Error::SolutionInvalidIndex`]; no partially-built result is ever
    /// returned.
    pub fn new(assignment: &Assignment<u64, P>, voters: &Vec<u64>, targets: &Vec<u64>) -> (r:
        Result<Self, Error>)
        ensures
            r is Ok <==> voters@.contains(assignment.who) && (forall|i: int|
                0 <= i < assignment.distribution@.len() ==> targets@.contains(
                    #[trigger] assignment.distribution@[i].0,
                )),
            r matches Ok(ia) ==> {
                &&& Some(ia.who as int) == voters@.index_of_first(assignment.who)
                &&& ia.distribution@.len() == assignment.distribution@.len()
                &&& forall|i: int|
                    0 <= i < assignment.distribution@.len() ==> Some(
                        #[trigger] ia.distribution@[i].0 as int,
                    ) == targets@.index_of_first(assignment.distribution@[i].0)
                &&& forall|i: int|
                    0 <= i < assignment.distribution@.len() ==> (
                    #[trigger] ia.distribution@[i].1) == assignment.distribution@[i].1
            },
            r matches Err(e) ==> e == Error::SolutionInvalidIndex,
    {
        let who = match find_position(voters, assignment.who) {
            Some(i) => i,
            None => {
                return Err(Error::SolutionInvalidIndex);
            },
        };
        let mut distribution: Vec<(usize, P)> = Vec::new();
        let mut k: usize = 0;
        while k < assignment.distribution.len()
            invariant
                0 <= k <= assignment.distribution@.len(),
                distribution@.len() == k,
                forall|i: int|
                    0 <= i < k ==> targets@.contains(#[trigger] assignment.distribution@[i].0),
                forall|i: int|
                    0 <= i < k ==> Some(#[trigger] distribution@[i].0 as int)
                        == targets@.index_of_first(assignment.distribution@[i].0),
                forall|i: int|
                    0 <= i < k ==> (#[trigger] distribution@[i].1)
                        == assignment.distribution@[i].1,
            decreases assignment.distribution@.len() - k,
        {
            let (target, proportion) = assignment.distribution[k];
            match find_position(targets, target) {
                Some(idx) => distribution.push((idx, proportion)),
                None => {
                    return Err(Error::SolutionInvalidIndex);
                },
            }
            k += 1;
        }
        Ok(IndexAssignment { who, distribution })
    }
}

/// An aggregated backing record of an elected target: the total stake behind
/// it and the voters contributing to that stake.
#[derive(Clone, Debug, PartialEq, Eq)]
pub struct Support<AccountId> {
    /// Total support.
    pub total: ExtendedBalance,
    /// Support from voters.
    pub voters: Vec<(AccountId, ExtendedBalance)>,
}

impl<AccountId> Support<AccountId> {
    /// An empty support: no backing at all.
    pub fn new_empty() -> (r: Self)
        ensures
            r.total == 0,
            r.voters@.len() == 0,
    {
        Support { total: 0, voters: Vec::new() }
    }
}

/// A list of elected targets, each with its aggregated backing.
pub type Supports<AccountId> = Vec<(AccountId, Support<AccountId>)>;

/// The result of a proportional election: the winners zipped with their
/// approval stake, and the per-voter stake assignments.
#[derive(Clone, Debug, PartialEq, Eq)]
pub struct ElectionResult<AccountId, P> {
    /// The winners, each with its approval stake.
    pub winners: Vec<(AccountId, ExtendedBalance)>,
    /// Individual assignments: for each, a voter and the distribution of its
    /// stake among the candidates it supports.
    pub assignments: Vec<Assignment<AccountId, P>>,
}

/// A bounded iterative refinement pass improving the evenness of the stake
/// distribution after a solve.
#[derive(Clone, Copy, Debug, PartialEq, Eq, Structural)]
pub struct BalancingConfig {
    /// How many refinement iterations to run at most.
    pub iterations: usize,
    /// Stop early once a pass moves less than this much stake.
    pub tolerance: ExtendedBalance,
}

} // verus!
