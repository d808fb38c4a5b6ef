//! Continuously ordered candidate membership keyed by a monotonic score.
//!
//! A [`SortedListProvider`] maintains complete, globally ranked membership:
//! iteration is descending by score, the count always equals the length of a
//! full traversal, and mutations reposition single members without a rescan.
//! A [`ScoreProvider`] is the read-only authority for the current score of an
//! id, decoupled from the list, which is kept consistent with the authority
//! only through explicit increase, decrease and update calls.

use vstd::prelude::*;

verus! {

/// A bounded, saturating, zero-having ordinal type used to rank candidates,
/// typically instantiated with a stake-weight magnitude.
pub trait ListScore: Sized + Copy {
    /// The mathematical value of the score.
    spec fn to_int(self) -> int;

    /// The largest representable score value.
    spec fn max_int() -> int;

    /// Every score value lies between zero and the largest value.
    proof fn lemma_bounds(self)
        ensures
            0 <= self.to_int() <= Self::max_int(),
    ;

    /// The zero score.
    fn zero() -> (r: Self)
        ensures
            r.to_int() == 0,
    ;

    /// True iff the score is zero.
    fn is_zero(&self) -> (r: bool)
        ensures
            r <==> self.to_int() == 0,
    ;

    /// Compares two scores.
    fn lt(&self, other: &Self) -> (r: bool)
        ensures
            r <==> self.to_int() < other.to_int(),
    ;

    /// Adds two scores, saturating at the largest value.
    fn saturating_add(self, other: Self) -> (r: Self)
        ensures
            r.to_int() == if self.to_int() + other.to_int() > Self::max_int() {
                Self::max_int()
            } else {
                self.to_int() + other.to_int()
            },
    ;

    /// Subtracts a score from this one, saturating at zero.
    fn saturating_sub(self, other: Self) -> (r: Self)
        ensures
            r.to_int() == if self.to_int() - other.to_int() < 0 {
                0
            } else {
                self.to_int() - other.to_int()
            },
    ;
}

impl ListScore for u64 {
    open spec fn to_int(self) -> int {
        self as int
    }

    open spec fn max_int() -> int {
        u64::MAX as int
    }

    proof fn lemma_bounds(self) {
    }

    fn zero() -> u64 {
        0
    }

    fn is_zero(&self) -> bool {
        *self == 0
    }

    fn lt(&self, other: &u64) -> bool {
        *self < *other
    }

    fn saturating_add(self, other: u64) -> u64 {
        if self > u64::MAX - other {
            u64::MAX
        } else {
            self + other
        }
    }

    fn saturating_sub(self, other: u64) -> u64 {
        if self < other {
            0
        } else {
            self - other
        }
    }
}

/// True iff `id` is a member of the ranking `s`.
pub open spec fn ranking_has<A, S>(s: Seq<(A, S)>, id: A) -> bool {
    exists|i: int| 0 <= i < s.len() && (#[trigger] s[i]).0 == id
}

/// The position of `id` in the ranking `s` (meaningful when `id` is a member
/// and ids are unique).
pub open spec fn ranking_index_of<A, S>(s: Seq<(A, S)>, id: A) -> int {
    choose|i: int| 0 <= i < s.len() && (#[trigger] s[i]).0 == id
}

/// The score recorded for `id` in the ranking `s` (meaningful when `id` is a
/// member).
pub open spec fn ranking_score_of<A, S>(s: Seq<(A, S)>, id: A) -> S {
    s[ranking_index_of(s, id)].1
}

/// The members of the ranking `s`, in ranking order.
pub open spec fn ranking_ids<A, S>(s: Seq<(A, S)>) -> Seq<A> {
    s.map_values(|e: (A, S)| e.0)
}

/// True iff the scores of the ranking `s` never increase along it.
pub open spec fn sorted_descending<A, S: ListScore>(s: Seq<(A, S)>) -> bool {
    forall|i: int, j: int|
        0 <= i < j < s.len() ==> (#[trigger] s[i]).1.to_int() >= (#[trigger] s[j]).1.to_int()
}

/// True iff no id occurs twice in the ranking `s`.
pub open spec fn ids_unique<A, S>(s: Seq<(A, S)>) -> bool {
    forall|i: int, j: int| 0 <= i < j < s.len() ==> (#[trigger] s[i]).0 != (#[trigger] s[j]).0
}

/// The membership invariant of a sorted list provider: a full traversal of the
/// ranking has exactly as many members as the ranking itself, so `count()`,
/// which reports the ranking's length, always equals the length of what
/// `iter()` hands out — no drift is possible.
pub proof fn lemma_count_matches_traversal<A, S>(ranking: Seq<(A, S)>)
    ensures
        ranking_ids(ranking).len() == ranking.len(),
{
}

/// Something that can provide the authoritative current score of an account,
/// typically derived from a staked balance. The list is kept consistent with
/// this authority only through explicit calls, never recomputed wholesale.
pub trait ScoreProvider<AccountId> {
    /// The score type handed out by this authority.
    type Score: ListScore;

    /// The authoritative score of `who`.
    spec fn score_spec(&self, who: AccountId) -> Self::Score;

    /// Get the current score of `who`.
    fn score(&self, who: &AccountId) -> (r: Self::Score)
        ensures
            r == self.score_spec(*who),
    ;
}

/// Something that maintains complete, globally ranked membership: every member
/// carries a score, iteration is descending by score, and single members are
/// repositioned by score-changing events without a full rescan.
pub trait SortedListProvider<AccountId> {
    /// The list's error type.
    type Error;

    /// The type used by the list to compare members for ordering.
    type Score: ListScore;

    /// The ranked membership: each member with its score, in iteration order.
    spec fn ranking(&self) -> Seq<(AccountId, Self::Score)>;

    /// The list's internal well-formedness.
    spec fn wf(&self) -> bool;

    /// A well-formed ranking is descending by score and holds each id at most
    /// once.
    proof fn lemma_wf_ranking(&self)
        requires
            self.wf(),
        ensures
            sorted_descending(self.ranking()),
            ids_unique(self.ranking()),
    ;

    /// The current count of ids in the list; always the length of a full
    /// traversal.
    fn count(&self) -> (r: usize)
        requires
            self.wf(),
        ensures
            r == self.ranking().len(),
    ;

    /// Returns true if the list already contains `id`.
    fn contains(&self, id: &AccountId) -> (r: bool)
        requires
            self.wf(),
        ensures
            r == ranking_has(self.ranking(), *id),
    ;

    /// A full traversal of the list, descending by score.
    fn iter(&self) -> (r: Vec<AccountId>)
        requires
            self.wf(),
        ensures
            r@ == ranking_ids(self.ranking()),
    ;

    /// The members ranked strictly after `start`, in ranking order; errs iff
    /// `start` is not a member.
    fn iter_from(&self, start: &AccountId) -> (r: Result<Vec<AccountId>, Self::Error>)
        requires
            self.wf(),
        ensures
            r is Ok <==> ranking_has(self.ranking(), *start),
            r matches Ok(ids) ==> ids@ == ranking_ids(self.ranking()).subrange(
                ranking_index_of(self.ranking(), *start) + 1,
                self.ranking().len() as int,
            ),
    ;

    /// Get the score of `id`; errs iff `id` is not a member.
    fn get_score(&self, id: &AccountId) -> (r: Result<Self::Score, Self::Error>)
        requires
            self.wf(),
        ensures
            r is Ok <==> ranking_has(self.ranking(), *id),
            r matches Ok(s) ==> s == ranking_score_of(self.ranking(), *id),
    ;

    /// Inserts a new id with its score; errs iff `id` is already a member, and
    /// never overwrites on insert.
    fn on_insert(&mut self, id: AccountId, score: Self::Score) -> (r: Result<(), Self::Error>)
        requires
            old(self).wf(),
        ensures
            final(self).wf(),
            r is Ok <==> !ranking_has(old(self).ranking(), id),
            r is Err ==> final(self).ranking() == old(self).ranking(),
            r is Ok ==> {
                &&& ranking_has(final(self).ranking(), id)
                &&& ranking_score_of(final(self).ranking(), id) == score
                &&& final(self).ranking().len() == old(self).ranking().len() + 1
                &&& forall|other: AccountId|
                    other != id ==> (ranking_has(final(self).ranking(), other) == ranking_has(
                        old(self).ranking(),
                        other,
                    )) && (ranking_has(old(self).ranking(), other)
                        ==> ranking_score_of(final(self).ranking(), other) == ranking_score_of(
                        old(self).ranking(),
                        other,
                    ))
            },
    ;

    /// Repositions an existing member under a new score; errs iff `id` is not
    /// a member.
    fn on_update(&mut self, id: &AccountId, score: Self::Score) -> (r: Result<(), Self::Error>)
        requires
            old(self).wf(),
        ensures
            final(self).wf(),
            r is Ok <==> ranking_has(old(self).ranking(), *id),
            r is Err ==> final(self).ranking() == old(self).ranking(),
            r is Ok ==> {
                &&& ranking_has(final(self).ranking(), *id)
                &&& ranking_score_of(final(self).ranking(), *id) == score
                &&& final(self).ranking().len() == old(self).ranking().len()
                &&& forall|other: AccountId|
                    other != *id ==> (ranking_has(final(self).ranking(), other) == ranking_has(
                        old(self).ranking(),
                        other,
                    )) && (ranking_has(old(self).ranking(), other)
                        ==> ranking_score_of(final(self).ranking(), other) == ranking_score_of(
                        old(self).ranking(),
                        other,
                    ))
            },
    ;

    /// Removes an id from the list; errs iff `id` is not a member.
    fn on_remove(&mut self, id: &AccountId) -> (r: Result<(), Self::Error>)
        requires
            old(self).wf(),
        ensures
            final(self).wf(),
            r is Ok <==> ranking_has(old(self).ranking(), *id),
            r is Err ==> final(self).ranking() == old(self).ranking(),
            r is Ok ==> {
                &&& !ranking_has(final(self).ranking(), *id)
                &&& final(self).ranking().len() == old(self).ranking().len() - 1
                &&& forall|other: AccountId|
                    other != *id ==> (ranking_has(final(self).ranking(), other) == ranking_has(
                        old(self).ranking(),
                        other,
                    )) && (ranking_has(old(self).ranking(), other)
                        ==> ranking_score_of(final(self).ranking(), other) == ranking_score_of(
                        old(self).ranking(),
                        other,
                    ))
            },
    ;

    /// Removes all members unconditionally. Linear in the membership; reserved
    /// for migrations, never the per-step hot path.
    fn unsafe_clear(&mut self)
        requires
            old(self).wf(),
        ensures
            final(self).wf(),
            final(self).ranking().len() == 0,
    ;

    /// Destructive full rebuild from the given enumeration, scoring each
    /// member through the authority `score_of`; returns the count of members
    /// inserted. Linear in the membership; reserved for migrations.
    fn unsafe_regenerate<SP: ScoreProvider<AccountId, Score = Self::Score>>(
        &mut self,
        all: Vec<AccountId>,
        score_of: &SP,
    ) -> (r: usize)
        requires
            old(self).wf(),
        ensures
            final(self).wf(),
            r == final(self).ranking().len(),
            forall|id: AccountId| ranking_has(final(self).ranking(), id) <==> all@.contains(id),
            forall|id: AccountId|
                ranking_has(final(self).ranking(), id) ==> ranking_score_of(
                    final(self).ranking(),
                    id,
                ) == score_of.score_spec(id),
    ;

    /// Same as `on_update`, but incorporating an increase of the score by
    /// `additional`, saturating at the largest score.
    fn on_increase(&mut self, id: &AccountId, additional: Self::Score) -> (r: Result<
        (),
        Self::Error,
    >)
        requires
            old(self).wf(),
        ensures
            final(self).wf(),
            r is Ok <==> ranking_has(old(self).ranking(), *id),
            r is Err ==> final(self).ranking() == old(self).ranking(),
            r is Ok ==> {
                &&& ranking_has(final(self).ranking(), *id)
                &&& ranking_score_of(final(self).ranking(), *id).to_int() == {
                    let sum = ranking_score_of(old(self).ranking(), *id).to_int()
                        + additional.to_int();
                    if sum > Self::Score::max_int() {
                        Self::Score::max_int()
                    } else {
                        sum
                    }
                }
                &&& final(self).ranking().len() == old(self).ranking().len()
                &&& forall|other: AccountId|
                    other != *id ==> (ranking_has(final(self).ranking(), other) == ranking_has(
                        old(self).ranking(),
                        other,
                    )) && (ranking_has(old(self).ranking(), other)
                        ==> ranking_score_of(final(self).ranking(), other) == ranking_score_of(
                        old(self).ranking(),
                        other,
                    ))
            },
    {
        let old_score = match self.get_score(id) {
            Ok(s) => s,
            Err(e) => {
                return Err(e);
            },
        };
        let new_score = old_score.saturating_add(additional);
        self.on_update(id, new_score)
    }

    /// Same as `on_update`, but incorporating a decrease of the score by
    /// `decreased`, saturating at zero. A member whose new score is exactly
    /// zero is removed: the list never retains zero-score entries this way.
    fn on_decrease(&mut self, id: &AccountId, decreased: Self::Score) -> (r: Result<
        (),
        Self::Error,
    >)
        requires
            old(self).wf(),
        ensures
            final(self).wf(),
            r is Ok <==> ranking_has(old(self).ranking(), *id),
            r is Err ==> final(self).ranking() == old(self).ranking(),
            r is Ok && ranking_score_of(old(self).ranking(), *id).to_int() <= decreased.to_int()
                ==> !ranking_has(final(self).ranking(), *id) && final(self).ranking().len() == old(
                self,
            ).ranking().len() - 1,
            r is Ok && ranking_score_of(old(self).ranking(), *id).to_int() > decreased.to_int()
                ==> ranking_has(final(self).ranking(), *id) && ranking_score_of(
                final(self).ranking(),
                *id,
            ).to_int() == ranking_score_of(old(self).ranking(), *id).to_int() - decreased.to_int()
                && final(self).ranking().len() == old(self).ranking().len(),
            r is Ok ==> forall|other: AccountId|
                other != *id ==> (ranking_has(final(self).ranking(), other) == ranking_has(
                    old(self).ranking(),
                    other,
                )) && (ranking_has(old(self).ranking(), other) ==> ranking_score_of(
                    final(self).ranking(),
                    other,
                ) == ranking_score_of(old(self).ranking(), other)),
    {
        let old_score = match self.get_score(id) {
            Ok(s) => s,
            Err(e) => {
                return Err(e);
            },
        };
        let new_score = old_score.saturating_sub(decreased);
        if new_score.is_zero() {
            self.on_remove(id)
        } else {
            self.on_update(id, new_score)
        }
    }
}

/// The mutation errors of a ranked list.
#[derive(Clone, Copy, Debug, PartialEq, Eq, Structural)]
pub enum ListError {
    /// The id handed to an insert is already a member.
    Duplicate,
    /// The id handed to an update, a removal or a read is not a member.
    NotFound,
}

/// A ranked list over plain account ids and stake-magnitude scores, kept
/// sorted descending by score at every step.
#[derive(Clone, Debug, PartialEq, Eq)]
pub struct RankedList {
    entries: Vec<(u64, u64)>,
}

impl RankedList {
    /// An empty ranked list.
    pub fn new() -> (r: Self)
        ensures
            r.wf(),
            r.ranking().len() == 0,
    {
        RankedList { entries: Vec::new() }
    }

    /// The first position whose score is strictly below `score`, or the length
    /// when there is none: the position at which a new member with `score`
    /// belongs.
    fn insertion_point(&self, score: u64) -> (p: usize)
        ensures
            p <= self.entries@.len(),
            forall|j: int| 0 <= j < p ==> (#[trigger] self.entries@[j]).1 >= score,
            p < self.entries@.len() ==> self.entries@[p as int].1 < score,
    {
        let mut p: usize = 0;
        while p < self.entries.len()
            invariant
                0 <= p <= self.entries@.len(),
                forall|j: int| 0 <= j < p ==> (#[trigger] self.entries@[j]).1 >= score,
            decreases self.entries@.len() - p,
        {
            if self.entries[p].1 < score {
                return p;
            }
            p += 1;
        }
        p
    }

    /// The position of `id` among the entries, if it is a member.
    fn position_of(&self, id: u64) -> (r: Option<usize>)
        ensures
            r matches Some(i) ==> i < self.entries@.len() && self.entries@[i as int].0 == id,
            r is None ==> forall|j: int| 0 <= j < self.entries@.len() ==> (#[trigger] self.entries@[j]).0 != id,
    {
        let mut i: usize = 0;
        while i < self.entries.len()
            invariant
                0 <= i <= self.entries@.len(),
                forall|j: int| 0 <= j < i ==> (#[trigger] self.entries@[j]).0 != id,
            decreases self.entries@.len() - i,
        {
            if self.entries[i].0 == id {
                return Some(i);
            }
            i += 1;
        }
        None
    }
}

impl SortedListProvider<u64> for RankedList {
    type Error = ListError;

    type Score = u64;

    closed spec fn ranking(&self) -> Seq<(u64, u64)> {
        self.entries@
    }

    closed spec fn wf(&self) -> bool {
        sorted_descending(self.entries@) && ids_unique(self.entries@)
    }

    proof fn lemma_wf_ranking(&self) {
    }

    fn count(&self) -> usize {
        self.entries.len()
    }

    fn contains(&self, id: &u64) -> (r: bool) {
        self.position_of(*id).is_some()
    }

    fn iter(&self) -> (r: Vec<u64>) {
        let mut ids: Vec<u64> = Vec::new();
        let mut i: usize = 0;
        while i < self.entries.len()
            invariant
                0 <= i <= self.entries@.len(),
                ids@ == ranking_ids(self.entries@.subrange(0, i as int)),
            decreases self.entries@.len() - i,
        {
            ids.push(self.entries[i].0);
            proof {
                assert(self.entries@.subrange(0, i + 1 as int) == self.entries@.subrange(
                    0,
                    i as int,
                ).push(self.entries@[i as int]));
                assert(ids@ =~= ranking_ids(self.entries@.subrange(0, i + 1 as int)));
            }
            i += 1;
        }
        proof {
            assert(self.entries@.subrange(0, self.entries@.len() as int) == self.entries@);
        }
        ids
    }

    fn iter_from(&self, start: &u64) -> (r: Result<Vec<u64>, ListError>)
        ensures
            r matches Err(e) ==> e == ListError::NotFound,
    {
        let p = match self.position_of(*start) {
            Some(p) => p,
            None => {
                return Err(ListError::NotFound);
            },
        };
        proof {
            assert(ranking_has(self.ranking(), *start));
            let q = ranking_index_of(self.entries@, *start);
            assert(self.entries@[q].0 == *start);
            assert(q == p) by {
                if q != p {
                    assert(self.entries@[p as int].0 == self.entries@[q].0);
                }
            }
        }
        let n = self.entries.len();
        assert(p < n);
        let mut ids: Vec<u64> = Vec::new();
        let mut i: usize = p + 1;
        while i < self.entries.len()
            invariant
                p + 1 <= i <= self.entries@.len(),
                ids@ == ranking_ids(self.entries@.subrange(p + 1, i as int)),
            decreases self.entries@.len() - i,
        {
            ids.push(self.entries[i].0);
            proof {
                assert(self.entries@.subrange(p + 1, i + 1 as int) == self.entries@.subrange(
                    p + 1,
                    i as int,
                ).push(self.entries@[i as int]));
                assert(ids@ =~= ranking_ids(self.entries@.subrange(p + 1, i + 1 as int)));
            }
            i += 1;
        }
        proof {
            assert(ranking_ids(self.entries@.subrange(p + 1, self.entries@.len() as int)) =~= ranking_ids(
                self.entries@,
            ).subrange(p + 1, self.entries@.len() as int));
        }
        Ok(ids)
    }

    fn get_score(&self, id: &u64) -> (r: Result<u64, ListError>)
        ensures
            r matches Err(e) ==> e == ListError::NotFound,
    {
        match self.position_of(*id) {
            Some(p) => {
                proof {
                    assert(ranking_has(self.ranking(), *id));
                    let q = ranking_index_of(self.entries@, *id);
                    assert(self.entries@[q].0 == *id);
                    if q != p {
                        assert(self.entries@[p as int].0 == self.entries@[q].0);
                    }
                }
                Ok(self.entries[p].1)
            },
            None => Err(ListError::NotFound),
        }
    }

    fn on_insert(&mut self, id: u64, score: u64) -> (r: Result<(), ListError>)
        ensures
            r matches Err(e) ==> e == ListError::Duplicate,
    {
        if self.position_of(id).is_some() {
            proof {
                assert(ranking_has(self.ranking(), id));
            }
            return Err(ListError::Duplicate);
        }
        let p = self.insertion_point(score);
        self.entries.insert(p, (id, score));
        proof {
            let new = self.entries@;
            let olds = old(self).entries@;
            assert(new == olds.insert(p as int, (id, score)));
            lemma_ranking_insert(olds, p as int, id, score);
        }
        Ok(())
    }

    fn on_update(&mut self, id: &u64, score: u64) -> (r: Result<(), ListError>)
        ensures
            r matches Err(e) ==> e == ListError::NotFound,
    {
        let p = match self.position_of(*id) {
            Some(p) => p,
            None => {
                return Err(ListError::NotFound);
            },
        };
        proof {
            assert(ranking_has(self.ranking(), *id));
        }
        let removed = self.entries.remove(p);
        proof {
            lemma_ranking_remove(old(self).entries@, p as int, *id);
        }
        let q = self.insertion_point(score);
        self.entries.insert(q, (*id, score));
        proof {
            let mid = old(self).entries@.remove(p as int);
            assert(!ranking_has(mid, *id));
            lemma_ranking_insert(mid, q as int, *id, score);
        }
        Ok(())
    }

    fn on_remove(&mut self, id: &u64) -> (r: Result<(), ListError>)
        ensures
            r matches Err(e) ==> e == ListError::NotFound,
    {
        let p = match self.position_of(*id) {
            Some(p) => p,
            None => {
                return Err(ListError::NotFound);
            },
        };
        proof {
            assert(ranking_has(self.ranking(), *id));
        }
        let _ = self.entries.remove(p);
        proof {
            lemma_ranking_remove(old(self).entries@, p as int, *id);
        }
        Ok(())
    }

    fn unsafe_clear(&mut self) {
        self.entries = Vec::new();
    }

    fn unsafe_regenerate<SP: ScoreProvider<u64, Score = u64>>(
        &mut self,
        all: Vec<u64>,
        score_of: &SP,
    ) -> (r: usize) {
        self.entries = Vec::new();
        let mut k: usize = 0;
        while k < all.len()
            invariant
                0 <= k <= all@.len(),
                self.wf(),
                forall|id: u64|
                    ranking_has(self.ranking(), id) <==> all@.subrange(0, k as int).contains(id),
                forall|id: u64|
                    ranking_has(self.ranking(), id) ==> ranking_score_of(self.ranking(), id)
                        == score_of.score_spec(id),
            decreases all@.len() - k,
        {
            let id = all[k];
            let ghost prev = self.ranking();
            if !self.contains(&id) {
                let score = score_of.score(&id);
                let res = self.on_insert(id, score);
                assert(res is Ok);
            }
            proof {
                broadcast use vstd::seq_lib::lemma_seq_contains_after_push;

                assert(all@.subrange(0, k + 1 as int) == all@.subrange(0, k as int).push(
                    all@[k as int],
                ));
                assert(ranking_has(self.ranking(), id));
                assert forall|id2: u64|
                    ranking_has(self.ranking(), id2) <==> all@.subrange(0, k + 1 as int).contains(
                        id2,
                    ) by {
                    if id2 != id {
                        assert(ranking_has(self.ranking(), id2) == ranking_has(prev, id2));
                    }
                }
                assert forall|id2: u64| ranking_has(self.ranking(), id2) implies ranking_score_of(
                    self.ranking(),
                    id2,
                ) == score_of.score_spec(id2) by {
                    if id2 != id {
                        assert(ranking_has(prev, id2));
                        assert(ranking_score_of(self.ranking(), id2) == ranking_score_of(
                            prev,
                            id2,
                        ));
                    }
                }
            }
            k += 1;
        }
        proof {
            assert(all@.subrange(0, all@.len() as int) == all@);
        }
        self.entries.len()
    }
}

/// A score authority backed by a fixed table of account ids and scores: an id
/// absent from the table scores zero.
#[derive(Clone, Debug, PartialEq, Eq)]
pub struct ScoreTable {
    pub table: Vec<(u64, u64)>,
}

/// The score the table `s` gives to `id`: the score beside the first
/// occurrence of `id`, or zero when `id` is absent.
pub open spec fn table_score(s: Seq<(u64, u64)>, id: u64) -> u64 {
    match ranking_ids(s).index_of_first(id) {
        Some(i) => s[i].1,
        None => 0,
    }
}

impl ScoreProvider<u64> for ScoreTable {
    type Score = u64;

    open spec fn score_spec(&self, who: u64) -> u64 {
        table_score(self.table@, who)
    }

    fn score(&self, who: &u64) -> (r: u64) {
        proof {
            ranking_ids(self.table@).index_of_first_ensures(*who);
            assert(forall|j: int|
                0 <= j < self.table@.len() ==> ranking_ids(self.table@)[j] == (
                #[trigger] self.table@[j]).0);
        }
        let mut i: usize = 0;
        while i < self.table.len()
            invariant
                0 <= i <= self.table@.len(),
                forall|j: int| 0 <= j < i ==> (#[trigger] self.table@[j]).0 != *who,
                ranking_ids(self.table@).index_of_first(*who) matches Some(p) ==> 0 <= p
                    < self.table@.len() && self.table@[p].0 == *who,
                ranking_ids(self.table@).index_of_first(*who) matches Some(p) ==> forall|j: int|
                    0 <= j < p ==> (#[trigger] self.table@[j]).0 != *who,
                ranking_ids(self.table@).index_of_first(*who) is None ==> forall|j: int|
                    0 <= j < self.table@.len() ==> (#[trigger] self.table@[j]).0 != *who,
            decreases self.table@.len() - i,
        {
            if self.table[i].0 == *who {
                return self.table[i].1;
            }
            i += 1;
        }
        0
    }
}

/// Inserting a fresh id at a position that respects the descending order keeps
/// the ranking well formed and leaves every other member untouched.
proof fn lemma_ranking_insert(s: Seq<(u64, u64)>, p: int, id: u64, score: u64)
    requires
        sorted_descending(s),
        ids_unique(s),
        !ranking_has(s, id),
        0 <= p <= s.len(),
        forall|j: int| 0 <= j < p ==> (#[trigger] s[j]).1 >= score,
        p < s.len() ==> s[p].1 < score,
    ensures
        sorted_descending(s.insert(p, (id, score))),
        ids_unique(s.insert(p, (id, score))),
        ranking_has(s.insert(p, (id, score)), id),
        ranking_score_of(s.insert(p, (id, score)), id) == score,
        forall|other: u64|
            other != id ==> (ranking_has(s.insert(p, (id, score)), other) == ranking_has(s, other))
                && (ranking_has(s, other) ==> ranking_score_of(s.insert(p, (id, score)), other)
                == ranking_score_of(s, other)),
{
    let t = s.insert(p, (id, score));
    assert forall|i: int, j: int| 0 <= i < j < t.len() implies (#[trigger] t[i]).1.to_int() >= (
    #[trigger] t[j]).1.to_int() by {
        if i < p && j < p {
            assert(t[i] == s[i] && t[j] == s[j]);
        } else if i < p && j == p {
            assert(t[i] == s[i]);
        } else if i < p && j > p {
            assert(t[i] == s[i] && t[j] == s[j - 1]);
        } else if i == p && j > p {
            assert(t[j] == s[j - 1]);
        } else {
            assert(t[i] == s[i - 1] && t[j] == s[j - 1]);
        }
    }
    assert forall|i: int, j: int| 0 <= i < j < t.len() implies (#[trigger] t[i]).0 != (
    #[trigger] t[j]).0 by {
        if i == p {
            assert(t[j] == s[j - 1]);
            assert(!ranking_has(s, id) ==> s[j - 1].0 != id);
        } else if j == p {
            assert(t[i] == s[i]);
            assert(!ranking_has(s, id) ==> s[i].0 != id);
        } else {
            let si = if i < p {
                i
            } else {
                i - 1
            };
            let sj = if j < p {
                j
            } else {
                j - 1
            };
            assert(t[i] == s[si] && t[j] == s[sj]);
        }
    }
    assert(t[p] == (id, score));
    assert(ranking_has(t, id));
    let q = ranking_index_of(t, id);
    assert(t[q].0 == id);
    if q != p {
        let sq = if q < p {
            q
        } else {
            q - 1
        };
        assert(t[q] == s[sq]);
        assert(ranking_has(s, id));
    }
    assert(ranking_score_of(t, id) == score);
    assert forall|other: u64| other != id implies (ranking_has(t, other) == ranking_has(s, other))
        && (ranking_has(s, other) ==> ranking_score_of(t, other) == ranking_score_of(
        s,
        other,
    )) by {
        if ranking_has(s, other) {
            let i = ranking_index_of(s, other);
            let ti = if i < p {
                i
            } else {
                i + 1
            };
            assert(t[ti] == s[i]);
            assert(ranking_has(t, other));
            let tq = ranking_index_of(t, other);
            assert(t[tq].0 == other);
            if tq != ti {
                assert(t[tq].0 != t[ti].0 || tq == ti);
            }
            assert(ranking_score_of(t, other) == ranking_score_of(s, other));
        }
        if ranking_has(t, other) {
            let i = ranking_index_of(t, other);
            assert(t[i].0 == other);
            if i != p {
                let si = if i < p {
                    i
                } else {
                    i - 1
                };
                assert(t[i] == s[si]);
                assert(ranking_has(s, other));
            }
        }
    }
}

/// Removing the position that holds `id` drops exactly that member and leaves
/// every other member untouched.
proof fn lemma_ranking_remove(s: Seq<(u64, u64)>, p: int, id: u64)
    requires
        sorted_descending(s),
        ids_unique(s),
        0 <= p < s.len(),
        s[p].0 == id,
    ensures
        sorted_descending(s.remove(p)),
        ids_unique(s.remove(p)),
        !ranking_has(s.remove(p), id),
        forall|other: u64|
            other != id ==> (ranking_has(s.remove(p), other) == ranking_has(s, other)) && (
            ranking_has(s, other) ==> ranking_score_of(s.remove(p), other) == ranking_score_of(
                s,
                other,
            )),
{
    let t = s.remove(p);
    assert forall|i: int, j: int| 0 <= i < j < t.len() implies (#[trigger] t[i]).1.to_int() >= (
    #[trigger] t[j]).1.to_int() by {
        let si = if i < p {
            i
        } else {
            i + 1
        };
        let sj = if j < p {
            j
        } else {
            j + 1
        };
        assert(t[i] == s[si] && t[j] == s[sj]);
    }
    assert forall|i: int, j: int| 0 <= i < j < t.len() implies (#[trigger] t[i]).0 != (
    #[trigger] t[j]).0 by {
        let si = if i < p {
            i
        } else {
            i + 1
        };
        let sj = if j < p {
            j
        } else {
            j + 1
        };
        assert(t[i] == s[si] && t[j] == s[sj]);
    }
    assert forall|i: int| 0 <= i < t.len() implies (#[trigger] t[i]).0 != id by {
        let si = if i < p {
            i
        } else {
            i + 1
        };
        assert(t[i] == s[si]);
        if si != p {
            assert(s[si].0 != s[p].0 || si == p);
        }
    }
    assert forall|other: u64| other != id implies (ranking_has(t, other) == ranking_has(s, other))
        && (ranking_has(s, other) ==> ranking_score_of(t, other) == ranking_score_of(
        s,
        other,
    )) by {
        if ranking_has(s, other) {
            let i = ranking_index_of(s, other);
            assert(s[i].0 == other);
            assert(i != p);
            let ti = if i < p {
                i
            } else {
                i - 1
            };
            assert(t[ti] == s[i]);
            assert(ranking_has(t, other));
            let tq = ranking_index_of(t, other);
            assert(t[tq].0 == other);
            assert(ranking_score_of(t, other) == ranking_score_of(s, other));
        }
        if ranking_has(t, other) {
            let i = ranking_index_of(t, other);
            assert(t[i].0 == other);
            let si = if i < p {
                i
            } else {
                i + 1
            };
            assert(t[i] == s[si]);
            assert(ranking_has(s, other));
        }
    }
}

} // verus!
