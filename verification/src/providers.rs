//! The election data provider and election provider protocol.
//!
//! An [`ElectionProvider`] orchestrates an election: it pulls voters, targets
//! and the desired winner count from its associated [`ElectionDataProvider`]
//! under bounds, and returns the winners as bounded support. [`NoElection`] is
//! the null provider used as a safe default wiring when no real election logic
//! is configured.

use vstd::prelude::*;

use crate::bounds::{CountBound, DataProviderBounds};
use crate::npos::{Error, Support, Supports, VoteWeight};

verus! {

/// Something that gives a constant configuration value.
pub trait Get<V> {
    /// The value handed out.
    spec fn get_spec() -> V;

    /// Gets the value.
    fn get() -> (r: V)
        ensures
            r == Self::get_spec(),
    ;
}

/// A compile-time constant `u32` configuration value.
#[derive(Clone, Copy, Debug, PartialEq, Eq)]
pub struct ConstU32<const N: u32>;

impl<const N: u32> Get<u32> for ConstU32<N> {
    open spec fn get_spec() -> u32 {
        N
    }

    fn get() -> u32 {
        N
    }
}

/// A voter: its identifier, its stake weight, and the targets it votes for.
pub type Voter<AccountId> = (AccountId, VoteWeight, Vec<AccountId>);

/// Same as [`Voter`], but parameterized by an [`ElectionDataProvider`].
pub type VoterOf<D> = Voter<<D as ElectionDataProvider>::AccountId>;

/// Same as [`BoundedSupports`], but parameterized by an
/// [`ElectionProviderBase`].
pub type BoundedSupportsOf<E> = BoundedSupports<
    <E as ElectionProviderBase>::AccountId,
    <E as ElectionProviderBase>::MaxWinners,
>;

/// Something that can provide the data to an [`ElectionProvider`].
///
/// The fetching functions must self-limit their output to the bounds they are
/// handed; a violation is the implementation's fault, not the caller's.
pub trait ElectionDataProvider {
    /// The account identifier type.
    type AccountId;

    /// The block number type.
    type BlockNumber;

    /// Maximum number of votes per voter that this data provider is providing.
    type MaxVotesPerVoter: Get<u32>;

    /// All possible targets for the election, i.e. the targets that could
    /// become elected, thus "electable". Self-limits to `bounds`.
    fn electable_targets(bounds: DataProviderBounds) -> (r: Result<
        Vec<Self::AccountId>,
        &'static str,
    >)
        ensures
            r matches Ok(targets) ==> !bounds.count_exhausted_spec(
                CountBound(targets@.len() as u32),
            ) && targets@.len() <= u32::MAX,
    ;

    /// All the voters that participate in the election, thus "electing".
    /// Self-limits to `bounds`, and hands out no voter with more votes than
    /// `MaxVotesPerVoter`.
    fn electing_voters(bounds: DataProviderBounds) -> (r: Result<
        Vec<Voter<Self::AccountId>>,
        &'static str,
    >)
        ensures
            r matches Ok(voters) ==> !bounds.count_exhausted_spec(CountBound(voters@.len() as u32))
                && voters@.len() <= u32::MAX,
            r matches Ok(voters) ==> forall|i: int|
                0 <= i < voters@.len() ==> (#[trigger] voters@[i]).2@.len()
                    <= Self::MaxVotesPerVoter::get_spec(),
    ;

    /// The number of targets to elect.
    fn desired_targets() -> Result<u32, &'static str>;

    /// Provide a best effort prediction about when the next election is about
    /// to happen. Purely advisory.
    fn next_election_prediction(now: Self::BlockNumber) -> Self::BlockNumber;
}

/// Applies the `max_winners` ceiling to a reported desired-targets value: a
/// reported value within the ceiling passes through unchanged, one above it is
/// rejected, and a report error propagates verbatim.
pub fn check_desired_targets(desired: Result<u32, &'static str>, max_winners: u32) -> (r: Result<
    u32,
    &'static str,
>)
    ensures
        r == match desired {
            Ok(dt) => if dt <= max_winners {
                Ok::<u32, &'static str>(dt)
            } else {
                Err::<u32, &'static str>("desired_targets must not be greater than MaxWinners.")
            },
            Err(e) => Err::<u32, &'static str>(e),
        },
{
    match desired {
        Ok(dt) => if dt <= max_winners {
            Ok(dt)
        } else {
            Err("desired_targets must not be greater than MaxWinners.")
        },
        Err(e) => Err(e),
    }
}

/// A bounded list of elected targets with their aggregated backing: it never
/// holds more winners than the ceiling `M`.
#[derive(Debug, PartialEq, Eq)]
pub struct BoundedSupports<AccountId, M: Get<u32>> {
    supports: Vec<(AccountId, Support<AccountId>)>,
    _bound: core::marker::PhantomData<M>,
}

impl<AccountId, M: Get<u32>> View for BoundedSupports<AccountId, M> {
    type V = Seq<(AccountId, Support<AccountId>)>;

    closed spec fn view(&self) -> Seq<(AccountId, Support<AccountId>)> {
        self.supports@
    }
}

impl<AccountId, M: Get<u32>> BoundedSupports<AccountId, M> {
    /// The winner count never exceeds the ceiling.
    pub open spec fn wf(&self) -> bool {
        self@.len() <= M::get_spec()
    }

    /// An empty bounded support list.
    pub fn new_empty() -> (r: Self)
        ensures
            r.wf(),
            r@.len() == 0,
    {
        BoundedSupports { supports: Vec::new(), _bound: core::marker::PhantomData }
    }

    /// Bounds `supports` by the ceiling: accepted unchanged iff it does not
    /// hold more winners than the ceiling, rejected otherwise.
    pub fn try_from_supports(supports: Supports<AccountId>) -> (r: Result<Self, Error>)
        ensures
            r is Ok <==> supports@.len() <= M::get_spec(),
            r matches Ok(bounded) ==> bounded@ == supports@ && bounded.wf(),
            r matches Err(e) ==> e == Error::BoundsExceeded,
    {
        if supports.len() <= M::get() as usize {
            Ok(BoundedSupports { supports, _bound: core::marker::PhantomData })
        } else {
            Err(Error::BoundsExceeded)
        }
    }

    /// The number of winners held.
    pub fn len(&self) -> (r: usize)
        ensures
            r == self@.len(),
    {
        self.supports.len()
    }

    /// Hands the winners back out as a plain list.
    pub fn into_supports(self) -> (r: Supports<AccountId>)
        ensures
            r@ == self@,
    {
        self.supports
    }
}

/// Base trait for types that can provide an election.
pub trait ElectionProviderBase {
    /// The account identifier type.
    type AccountId;

    /// The block number type.
    type BlockNumber;

    /// The error type that is returned by the provider.
    type Error;

    /// The upper bound on election winners that can be returned.
    type MaxWinners: Get<u32>;

    /// The data provider of the election.
    type DataProvider: ElectionDataProvider<
        AccountId = Self::AccountId,
        BlockNumber = Self::BlockNumber,
    >;

    /// Checked call to `Self::DataProvider::desired_targets()` ensuring the
    /// value never exceeds `Self::MaxWinners`.
    fn desired_targets_checked() -> (r: Result<u32, &'static str>)
        ensures
            r matches Ok(dt) ==> dt <= Self::MaxWinners::get_spec(),
    {
        check_desired_targets(Self::DataProvider::desired_targets(), Self::MaxWinners::get())
    }
}

/// Elect a new set of winners, bounded by `MaxWinners`.
///
/// The provider must always use its [`ElectionProviderBase::DataProvider`] to
/// fetch the data it needs: `elect` takes no arguments. The provider may
/// function asynchronously, preparing a stateful election over several steps;
/// `ongoing` reports whether such a computation is pending.
pub trait ElectionProvider: ElectionProviderBase {
    /// Indicates whether this election provider is currently preparing an
    /// asynchronous election.
    fn ongoing() -> bool;

    /// Performs the election, returning the winners as a bounded mapping from
    /// target to aggregated backing, capped at `MaxWinners`.
    fn elect() -> (r: Result<BoundedSupports<Self::AccountId, Self::MaxWinners>, Self::Error>)
        ensures
            r matches Ok(supports) ==> supports.wf(),
    ;
}

/// A synchronous election provider for emergency or fallback use: the caller
/// may override the bounds that would otherwise be derived internally.
pub trait InstantElectionProvider: ElectionProviderBase {
    /// Performs an immediate election under the forced bounds.
    fn instant_elect(
        forced_input_voters_bound: DataProviderBounds,
        forced_input_targets_bound: DataProviderBounds,
    ) -> (r: Result<BoundedSupports<Self::AccountId, Self::MaxWinners>, Self::Error>)
        ensures
            r matches Ok(supports) ==> supports.wf(),
    ;
}

/// An election provider that does nothing whatsoever: it is never ongoing and
/// every election call fails with a fixed reason.
pub struct NoElection<X>(core::marker::PhantomData<X>);

impl<AccountId, BlockNumber, DataProvider, MaxWinners> ElectionProviderBase for NoElection<
    (AccountId, BlockNumber, DataProvider, MaxWinners),
> where
    DataProvider: ElectionDataProvider<AccountId = AccountId, BlockNumber = BlockNumber>,
    MaxWinners: Get<u32>,
 {
    type AccountId = AccountId;

    type BlockNumber = BlockNumber;

    type Error = &'static str;

    type MaxWinners = MaxWinners;

    type DataProvider = DataProvider;
}

impl<AccountId, BlockNumber, DataProvider, MaxWinners> ElectionProvider for NoElection<
    (AccountId, BlockNumber, DataProvider, MaxWinners),
> where
    DataProvider: ElectionDataProvider<AccountId = AccountId, BlockNumber = BlockNumber>,
    MaxWinners: Get<u32>,
 {
    /// The null provider is never preparing anything.
    fn ongoing() -> (r: bool)
        ensures
            !r,
    {
        false
    }

    /// The null provider fails for every possible data-provider content.
    fn elect() -> (r: Result<BoundedSupports<AccountId, MaxWinners>, &'static str>)
        ensures
            r matches Err(e) && e@ == "`NoElection` cannot do anything."@,
    {
        Err("`NoElection` cannot do anything.")
    }
}

impl<AccountId, BlockNumber, DataProvider, MaxWinners> InstantElectionProvider for NoElection<
    (AccountId, BlockNumber, DataProvider, MaxWinners),
> where
    DataProvider: ElectionDataProvider<AccountId = AccountId, BlockNumber = BlockNumber>,
    MaxWinners: Get<u32>,
 {
    /// The null provider fails for every forced bound.
    fn instant_elect(
        _forced_input_voters_bound: DataProviderBounds,
        _forced_input_targets_bound: DataProviderBounds,
    ) -> (r: Result<BoundedSupports<AccountId, MaxWinners>, &'static str>)
        ensures
            r matches Err(e) && e@ == "`NoElection` cannot do anything."@,
    {
        Err("`NoElection` cannot do anything.")
    }
}

/// A data provider with a fixed snapshot: no voters, no targets, and a
/// compile-time desired winner count. Useful as a deterministic wiring for a
/// provider stack that pulls nothing from chain state.
#[derive(Clone, Copy, Debug, PartialEq, Eq)]
pub struct FixedDesiredTargets<const D: u32>;

impl<const D: u32> ElectionDataProvider for FixedDesiredTargets<D> {
    type AccountId = u64;

    type BlockNumber = u32;

    type MaxVotesPerVoter = ConstU32<16>;

    fn electable_targets(_bounds: DataProviderBounds) -> (r: Result<Vec<u64>, &'static str>)
        ensures
            r matches Ok(targets) && targets@.len() == 0,
    {
        Ok(Vec::new())
    }

    fn electing_voters(_bounds: DataProviderBounds) -> (r: Result<Vec<Voter<u64>>, &'static str>)
        ensures
            r matches Ok(voters) && voters@.len() == 0,
    {
        Ok(Vec::new())
    }

    fn desired_targets() -> (r: Result<u32, &'static str>)
        ensures
            r == Ok::<u32, &'static str>(D),
    {
        Ok(D)
    }

    fn next_election_prediction(now: u32) -> u32 {
        now
    }
}

} // verus!
