//! Pluggable NPoS solver strategies.
//!
//! [`NposSolver`] is the uniform solve/cost interface over an external
//! proportional-apportionment engine; [`SequentialPhragmen`] and [`PhragMMS`]
//! are its two adapters, selecting the engine's sequential or iterative
//! algorithm with an optional balancing configuration. The adapters expose
//! identical interfaces so the active strategy is swappable by configuration
//! alone. Proportions come back as the parts of a parts-per-billion ratio.

use vstd::prelude::*;

use crate::npos::{Assignment, BalancingConfig, ElectionResult, Error};
use crate::providers::{Get, Voter};

verus! {

/// The execution cost predicted for a computation, in abstract reference time
/// and proof size units.
#[derive(Clone, Copy, Debug, PartialEq, Eq, Structural)]
pub struct Weight {
    /// The weight of computational time used.
    pub ref_time: u64,
    /// The weight of storage proof size used.
    pub proof_size: u64,
}

/// Cost tables predicting the execution cost of the solver strategies,
/// supplied by whoever measured them: `voters` and `targets` count the
/// participants, `vote_degree` is the maximum number of votes per voter.
pub trait WeightInfo {
    /// The cost the table holds for a sequential Phragmen solve.
    spec fn phragmen_spec(voters: u32, targets: u32, vote_degree: u32) -> Weight;

    /// The cost the table holds for a PhragMMS solve.
    spec fn phragmms_spec(voters: u32, targets: u32, vote_degree: u32) -> Weight;

    /// The predicted cost of a sequential Phragmen solve.
    fn phragmen(voters: u32, targets: u32, vote_degree: u32) -> (r: Weight)
        ensures
            r == Self::phragmen_spec(voters, targets, vote_degree),
    ;

    /// The predicted cost of a PhragMMS solve.
    fn phragmms(voters: u32, targets: u32, vote_degree: u32) -> (r: Weight)
        ensures
            r == Self::phragmms_spec(voters, targets, vote_degree),
    ;
}

/// The cost table used where no measured one is configured: it predicts a zero
/// cost for every input.
impl WeightInfo for () {
    open spec fn phragmen_spec(voters: u32, targets: u32, vote_degree: u32) -> Weight {
        Weight { ref_time: 0, proof_size: 0 }
    }

    open spec fn phragmms_spec(voters: u32, targets: u32, vote_degree: u32) -> Weight {
        Weight { ref_time: 0, proof_size: 0 }
    }

    fn phragmen(voters: u32, targets: u32, vote_degree: u32) -> Weight {
        Weight { ref_time: 0, proof_size: 0 }
    }

    fn phragmms(voters: u32, targets: u32, vote_degree: u32) -> Weight {
        Weight { ref_time: 0, proof_size: 0 }
    }
}

/// The mathematical view of an election result: the winners with their
/// approval stake, and per voter the distribution of its stake, each
/// proportion as the parts of a parts-per-billion ratio.
pub struct ElectionModel {
    /// The winners, each with its approval stake.
    pub winners: Seq<(u64, u128)>,
    /// Each voter with the distribution of its stake.
    pub assignments: Seq<(u64, Seq<(u64, u32)>)>,
}

/// The view of an executable election result.
pub open spec fn result_model(r: ElectionResult<u64, u32>) -> ElectionModel {
    ElectionModel {
        winners: r.winners@,
        assignments: r.assignments@.map_values(
            |a: Assignment<u64, u32>| (a.who, a.distribution@),
        ),
    }
}

/// The view of an executable solve outcome.
pub open spec fn solve_model(r: Result<ElectionResult<u64, u32>, Error>) -> Result<
    ElectionModel,
    Error,
> {
    match r {
        Ok(res) => Ok(result_model(res)),
        Err(e) => Err(e),
    }
}

/// The view of an executable voter list.
pub open spec fn voters_model(voters: Seq<(u64, u64, Vec<u64>)>) -> Seq<(u64, u64, Seq<u64>)> {
    voters.map_values(|v: (u64, u64, Vec<u64>)| (v.0, v.1, v.2@))
}

/// What the sequential Phragmen apportionment returns for the given winner
/// count, candidates, voters and balancing configuration: a function of its
/// arguments alone.
pub uninterp spec fn seq_phragmen_model(
    to_elect: int,
    targets: Seq<u64>,
    voters: Seq<(u64, u64, Seq<u64>)>,
    balancing: Option<BalancingConfig>,
) -> Result<ElectionModel, Error>;

/// What the PhragMMS apportionment returns for the given winner count,
/// candidates, voters and balancing configuration: a function of its arguments
/// alone.
pub uninterp spec fn phragmms_model(
    to_elect: int,
    targets: Seq<u64>,
    voters: Seq<(u64, u64, Seq<u64>)>,
    balancing: Option<BalancingConfig>,
) -> Result<ElectionModel, Error>;

/// Relies on `sp_npos_elections::seq_phragmen`, instantiated at ratios of a
/// billion parts: the algorithm is deterministic in its arguments, it takes at
/// most `to_elect` elected candidates into the winner list, and the arithmetic
/// error is the only error its source produces.
#[verifier::external_body]
fn seq_phragmen_call(
    to_elect: usize,
    targets: Vec<u64>,
    voters: Vec<(u64, u64, Vec<u64>)>,
    balancing: Option<BalancingConfig>,
) -> (r: Result<ElectionResult<u64, u32>, Error>)
    ensures
        solve_model(r) == seq_phragmen_model(
            to_elect as int,
            targets@,
            voters_model(voters@),
            balancing,
        ),
        r matches Ok(res) ==> res.winners@.len() <= to_elect,
        r matches Err(e) ==> e == Error::ArithmeticError,
{
    let config = balancing.map(|c: BalancingConfig| sp_npos_elections::BalancingConfig { iterations: c.iterations, tolerance: c.tolerance });
    match sp_npos_elections::seq_phragmen::<u64, sp_arithmetic::Perbill>(to_elect, targets, voters, config) {
        Ok(res) => Ok(ElectionResult {
            winners: res.winners,
            assignments: res.assignments.into_iter().map(|a| Assignment {
                who: a.who,
                distribution: a.distribution.into_iter().map(|(t, p)| (t, p.deconstruct())).collect(),
            }).collect(),
        }),
        Err(_) => Err(Error::ArithmeticError),
    }
}

/// Relies on `sp_npos_elections::phragmms`, instantiated at ratios of a
/// billion parts: the algorithm is deterministic in its arguments, it elects
/// at most one winner per round over `to_elect` rounds, and the arithmetic
/// error is the only error its source produces.
#[verifier::external_body]
fn phragmms_call(
    to_elect: usize,
    targets: Vec<u64>,
    voters: Vec<(u64, u64, Vec<u64>)>,
    balancing: Option<BalancingConfig>,
) -> (r: Result<ElectionResult<u64, u32>, Error>)
    ensures
        solve_model(r) == phragmms_model(
            to_elect as int,
            targets@,
            voters_model(voters@),
            balancing,
        ),
        r matches Ok(res) ==> res.winners@.len() <= to_elect,
        r matches Err(e) ==> e == Error::ArithmeticError,
{
    let config = balancing.map(|c: BalancingConfig| sp_npos_elections::BalancingConfig { iterations: c.iterations, tolerance: c.tolerance });
    match sp_npos_elections::phragmms::<u64, sp_arithmetic::Perbill>(to_elect, targets, voters, config) {
        Ok(res) => Ok(ElectionResult {
            winners: res.winners,
            assignments: res.assignments.into_iter().map(|a| Assignment {
                who: a.who,
                distribution: a.distribution.into_iter().map(|(t, p)| (t, p.deconstruct())).collect(),
            }).collect(),
        }),
        Err(_) => Err(Error::ArithmeticError),
    }
}

/// Something that can compute the result of an NPoS solution over plain
/// account ids, stake weights, and parts-per-billion proportions.
pub trait NposSolver {
    /// The error type of this implementation.
    type Error;

    /// Solves an NPoS solution with the given `voters` and `targets`,
    /// selecting `to_elect` of the targets.
    fn solve(to_elect: usize, targets: Vec<u64>, voters: Vec<Voter<u64>>) -> (r: Result<
        ElectionResult<u64, u32>,
        Self::Error,
    >);

    /// Measures the weight used in the calculation of the solver, for
    /// admission control before invocation: this solver's entry of the cost
    /// table `T`. Each adapter pins which of the two entries it reads.
    fn weight<T: WeightInfo>(voters: u32, targets: u32, vote_degree: u32) -> (r: Weight)
        ensures
            r == T::phragmen_spec(voters, targets, vote_degree) || r == T::phragmms_spec(
                voters,
                targets,
                vote_degree,
            ),
    ;
}

/// A configuration that applies no balancing pass after a solve.
#[derive(Clone, Copy, Debug, PartialEq, Eq)]
pub struct NoBalancing;

impl Get<Option<BalancingConfig>> for NoBalancing {
    open spec fn get_spec() -> Option<BalancingConfig> {
        None
    }

    fn get() -> Option<BalancingConfig> {
        None
    }
}

/// A configuration that runs at most `ITERATIONS` balancing passes after a
/// solve, without an early-stop tolerance.
#[derive(Clone, Copy, Debug, PartialEq, Eq)]
pub struct ConstBalancing<const ITERATIONS: usize>;

impl<const ITERATIONS: usize> Get<Option<BalancingConfig>> for ConstBalancing<ITERATIONS> {
    open spec fn get_spec() -> Option<BalancingConfig> {
        Some(BalancingConfig { iterations: ITERATIONS, tolerance: 0 })
    }

    fn get() -> Option<BalancingConfig> {
        Some(BalancingConfig { iterations: ITERATIONS, tolerance: 0 })
    }
}

/// A solver adapter forwarding to the engine's sequential Phragmen algorithm,
/// with the balancing configuration chosen by the type parameter.
pub struct SequentialPhragmen<Balancing>(core::marker::PhantomData<Balancing>);

impl<Balancing: Get<Option<BalancingConfig>>> NposSolver for SequentialPhragmen<Balancing> {
    type Error = Error;

    fn solve(to_elect: usize, targets: Vec<u64>, voters: Vec<Voter<u64>>) -> (r: Result<
        ElectionResult<u64, u32>,
        Error,
    >)
        ensures
            solve_model(r) == seq_phragmen_model(
                to_elect as int,
                targets@,
                voters_model(voters@),
                Balancing::get_spec(),
            ),
            r matches Ok(res) ==> res.winners@.len() <= to_elect,
            r matches Err(e) ==> e == Error::ArithmeticError,
    {
        seq_phragmen_call(to_elect, targets, voters, Balancing::get())
    }

    fn weight<T: WeightInfo>(voters: u32, targets: u32, vote_degree: u32) -> (r: Weight)
        ensures
            r == T::phragmen_spec(voters, targets, vote_degree),
    {
        T::phragmen(voters, targets, vote_degree)
    }
}

/// A solver adapter forwarding to the engine's PhragMMS algorithm, with the
/// balancing configuration chosen by the type parameter.
pub struct PhragMMS<Balancing>(core::marker::PhantomData<Balancing>);

impl<Balancing: Get<Option<BalancingConfig>>> NposSolver for PhragMMS<Balancing> {
    type Error = Error;

    fn solve(to_elect: usize, targets: Vec<u64>, voters: Vec<Voter<u64>>) -> (r: Result<
        ElectionResult<u64, u32>,
        Error,
    >)
        ensures
            solve_model(r) == phragmms_model(
                to_elect as int,
                targets@,
                voters_model(voters@),
                Balancing::get_spec(),
            ),
            r matches Ok(res) ==> res.winners@.len() <= to_elect,
            r matches Err(e) ==> e == Error::ArithmeticError,
    {
        phragmms_call(to_elect, targets, voters, Balancing::get())
    }

    fn weight<T: WeightInfo>(voters: u32, targets: u32, vote_degree: u32) -> (r: Weight)
        ensures
            r == T::phragmms_spec(voters, targets, vote_degree),
    {
        T::phragmms(voters, targets, vote_degree)
    }
}

} // verus!
