//! Which parts of a window were received.
use crate::arith::{cap_u64, saturating_mul_u64};
use vstd::prelude::*;

verus! {

/// Whether a bit of a word is set.
pub open spec fn bit(word: u64, at: u64) -> bool {
    (word >> at) & 1 == 1
}

/// How many of a row of marks are set.
pub open spec fn count_set(marks: Seq<bool>) -> nat
    decreases marks.len(),
{
    if marks.len() == 0 {
        0
    } else {
        count_set(marks.drop_last()) + (if marks.last() {
            1nat
        } else {
            0nat
        })
    }
}

/// How many unbroken runs of set marks a row has.
pub open spec fn count_runs(marks: Seq<bool>) -> nat
    decreases marks.len(),
{
    if marks.len() == 0 {
        0
    } else {
        let starts = marks.last() && (marks.len() == 1 || !marks[marks.len() - 2]);
        count_runs(marks.drop_last()) + (if starts {
            1nat
        } else {
            0nat
        })
    }
}

/// Why a window cannot be followed.
#[derive(Debug, Clone, Copy, PartialEq, Eq, Structural)]
pub enum CoverageError {
    /// It has more parts than the machine counts.
    TooLong,
    /// There is no memory for it.
    NoMemory,
}

impl CoverageError {
    /// What the error says.
    pub open spec fn words(self) -> Seq<char> {
        match self {
            CoverageError::TooLong => "LL-HLS qualification duration exceeds addressable memory"@,
            CoverageError::NoMemory => "could not allocate LL-HLS continuity bitset"@,
        }
    }

    /// What the error says.
    pub fn message(self) -> (r: &'static str)
        ensures
            r@ == self.words(),
    {
        match self {
            CoverageError::TooLong => "LL-HLS qualification duration exceeds addressable memory",
            CoverageError::NoMemory => "could not allocate LL-HLS continuity bitset",
        }
    }
}

/// Which parts of a window were received: one bit for each.
#[derive(Debug)]
pub struct PartCoverage {
    pub start_sequence: u64,
    pub part_ms: u64,
    pub expected_parts: u64,
    pub words: Vec<u64>,
    pub received_parts: u64,
}

impl View for PartCoverage {
    type V = Seq<bool>;

    open spec fn view(&self) -> Seq<bool> {
        Seq::new(
            self.expected_parts as nat,
            |relative: int| bit(self.words@[relative / 64], (relative % 64) as u64),
        )
    }
}

/// The part of a window that a time is the start of.
pub open spec fn part_at(start_sequence: u64, expected_parts: u64, part_ms: u64, pts_ms: u64) -> Option<
    int,
> {
    let relative = pts_ms / part_ms - start_sequence;
    if pts_ms % part_ms == 0 && 0 <= relative < expected_parts {
        Some(relative)
    } else {
        None
    }
}

/// The time at which a part starts.
pub open spec fn pts_of(start_sequence: u64, part_ms: u64, relative: int) -> u64 {
    cap_u64(cap_u64(start_sequence + relative) * part_ms) as u64
}

/// The words that hold a bit for each of so many parts.
pub open spec fn words_for(parts: u64) -> int {
    (parts + 63) / 64
}

/// The words that hold a bit for each of so many parts.
fn words_of(parts: u64) -> (r: u64)
    ensures
        r == words_for(parts),
{
    let whole: u64 = parts / 64;
    if parts % 64 == 0 {
        whole
    } else {
        whole + 1
    }
}

/// The words that there has to be room for, where the machine can count them.
pub fn word_count(expected_parts: u64) -> (r: Result<usize, CoverageError>)
    ensures
        r == (if words_for(expected_parts) > usize::MAX {
            Err::<usize, CoverageError>(CoverageError::TooLong)
        } else {
            Ok::<usize, CoverageError>(words_for(expected_parts) as usize)
        }),
{
    let count: u64 = words_of(expected_parts);
    if count > usize::MAX as u64 {
        return Err(CoverageError::TooLong);
    }
    Ok(count as usize)
}

impl PartCoverage {
    /// Whether there is a bit for each part, and as many parts were counted as are marked.
    pub open spec fn wf(&self) -> bool {
        &&& self.part_ms > 0
        &&& self.expected_parts <= self.words@.len() * 64
        &&& self.received_parts == count_set(self@)
    }

    /// Follows a window in which nothing was received, given room for its bits.
    pub fn with_words(
        words: Vec<u64>,
        start_sequence: u64,
        expected_parts: u64,
        part_ms: u64,
    ) -> (r: Self)
        requires
            part_ms > 0,
            words_for(expected_parts) <= usize::MAX,
        ensures
            r.wf(),
            r.start_sequence == start_sequence,
            r.part_ms == part_ms,
            r.expected_parts == expected_parts,
            r.words@ == Seq::new(words_for(expected_parts) as nat, |i: int| 0u64),
            r@ == Seq::new(expected_parts as nat, |i: int| false),
            r.received_parts == 0,
    {
        let mut words = words;
        words.clear();
        words.resize(words_of(expected_parts) as usize, 0);
        let coverage = PartCoverage {
            start_sequence,
            part_ms,
            expected_parts,
            words,
            received_parts: 0,
        };
        proof {
            assert(coverage.words@ =~= Seq::new(
                words_for(expected_parts) as nat,
                |i: int| 0u64,
            ));
            assert forall|i: int| 0 <= i < expected_parts implies !(#[trigger] coverage@[i]) by {
                let at = (i % 64) as u64;
                assert(coverage.words@[i / 64] == 0);
                assert((0u64 >> at) & 1 == 0) by (bit_vector);
            }
            assert(coverage@ =~= Seq::new(expected_parts as nat, |i: int| false));
            none_set(coverage@);
        }
        coverage
    }

    /// Follows a window in which nothing was received. It fails where there is no memory for its
    /// words, of which an empty window has none.
    pub fn new(start_sequence: u64, expected_parts: u64, part_ms: u64) -> (r: Result<
        Self,
        CoverageError,
    >)
        requires
            part_ms > 0,
        ensures
            r matches Ok(coverage) ==> {
                &&& coverage.wf()
                &&& coverage.start_sequence == start_sequence
                &&& coverage.part_ms == part_ms
                &&& coverage.expected_parts == expected_parts
                &&& coverage@ == Seq::new(expected_parts as nat, |i: int| false)
                &&& coverage.received_parts == 0
                &&& coverage.words@ == Seq::new(words_for(expected_parts) as nat, |i: int| 0u64)
            },
            (r matches Err(error) && error == CoverageError::TooLong) <==> words_for(expected_parts)
                > usize::MAX,
            expected_parts == 0 ==> r is Ok,
    {
        let count: usize = match word_count(expected_parts) {
            Ok(count) => count,
            Err(error) => {
                return Err(error);
            },
        };
        let mut words: Vec<u64> = Vec::new();
        if count > 0 {
            match words.try_reserve(count) {
                Ok(_) => {},
                Err(_) => {
                    return Err(CoverageError::NoMemory);
                },
            }
        }
        Ok(PartCoverage::with_words(words, start_sequence, expected_parts, part_ms))
    }

    /// The word that holds a part's bit.
    fn word_of(&self, relative: u64) -> (r: usize)
        requires
            self.wf(),
            relative < self.expected_parts,
        ensures
            r == relative / 64,
            r < self.words@.len(),
    {
        let words: usize = self.words.len();
        assert(relative / 64 < words);
        (relative / 64) as usize
    }

    /// Decides whether a part was received.
    pub fn contains_relative(&self, relative: u64) -> (r: bool)
        requires
            self.wf(),
            relative < self.expected_parts,
        ensures
            r == self@[relative as int],
    {
        let word: u64 = self.words[self.word_of(relative)];
        let at: u64 = relative % 64;
        (word >> at) & 1 == 1
    }

    /// Marks the part that starts at a time as received, and tells whether it is a part of the
    /// window that was not received before.
    pub fn insert_pts(&mut self, pts_ms: u64) -> (r: bool)
        requires
            old(self).wf(),
        ensures
            final(self).wf(),
            final(self).start_sequence == old(self).start_sequence,
            final(self).part_ms == old(self).part_ms,
            final(self).expected_parts == old(self).expected_parts,
            match part_at(
                old(self).start_sequence,
                old(self).expected_parts,
                old(self).part_ms,
                pts_ms,
            ) {
                Some(relative) => {
                    &&& r == !old(self)@[relative]
                    &&& final(self)@ == old(self)@.update(relative, true)
                    &&& r ==> final(self).words@ == old(self).words@.update(
                        relative / 64,
                        old(self).words@[relative / 64] | (1u64 << ((relative % 64) as u64)),
                    )
                },
                None => !r,
            },
            !r ==> *final(self) == *old(self),
            final(self).words@.len() == old(self).words@.len(),
            final(self).received_parts == old(self).received_parts + (if r {
                1int
            } else {
                0int
            }),
    {
        if pts_ms % self.part_ms != 0 {
            return false;
        }
        let sequence: u64 = pts_ms / self.part_ms;
        if sequence < self.start_sequence {
            return false;
        }
        let relative: u64 = sequence - self.start_sequence;
        if relative >= self.expected_parts {
            return false;
        }
        let index: usize = self.word_of(relative);
        let at: u64 = relative % 64;
        let word: u64 = self.words[index];
        if (word >> at) & 1 == 1 {
            assert(self@ =~= self@.update(relative as int, true));
            return false;
        }
        let ghost before = self@;
        let marked: u64 = word | (1u64 << at);
        self.words.set(index, marked);
        proof {
            assert forall|i: int| 0 <= i < before.len() implies self@[i] == before.update(
                relative as int,
                true,
            )[i] by {
                if i / 64 == index {
                    let other = (i % 64) as u64;
                    if other == at {
                        assert(i == relative);
                        assert(((word | (1u64 << at)) >> at) & 1 == 1) by (bit_vector)
                            requires
                                at < 64,
                        ;
                    } else {
                        assert(((word | (1u64 << at)) >> other) & 1 == (word >> other) & 1)
                            by (bit_vector)
                            requires
                                at < 64,
                                other < 64,
                                at != other,
                        ;
                    }
                }
            }
            assert(self@ =~= before.update(relative as int, true));
            setting_counts_one(before, relative as int);
            set_is_bounded(self@);
        }
        self.received_parts = self.received_parts + 1;
        true
    }

    /// When the first part starts that was received.
    pub fn first_pts_ms(&self) -> (r: Option<u64>)
        requires
            self.wf(),
        ensures
            match r {
                Some(pts_ms) => exists|i: int|
                    0 <= i < self@.len() && #[trigger] self@[i] && (forall|j: int|
                        0 <= j < i ==> !self@[j]) && pts_ms == pts_of(
                        self.start_sequence,
                        self.part_ms,
                        i,
                    ),
                None => forall|i: int| 0 <= i < self@.len() ==> !self@[i],
            },
    {
        let mut relative: u64 = 0;
        while relative < self.expected_parts
            invariant
                self.wf(),
                relative <= self.expected_parts,
                forall|j: int| 0 <= j < relative ==> !self@[j],
            decreases self.expected_parts - relative,
        {
            if self.contains_relative(relative) {
                assert(self@[relative as int]);
                return Some(
                    saturating_mul_u64(self.start_sequence.saturating_add(relative), self.part_ms),
                );
            }
            relative = relative + 1;
        }
        None
    }

    /// When the last part starts that was received.
    pub fn last_pts_ms(&self) -> (r: Option<u64>)
        requires
            self.wf(),
        ensures
            match r {
                Some(pts_ms) => exists|i: int|
                    0 <= i < self@.len() && #[trigger] self@[i] && (forall|j: int|
                        i < j < self@.len() ==> !self@[j]) && pts_ms == pts_of(
                        self.start_sequence,
                        self.part_ms,
                        i,
                    ),
                None => forall|i: int| 0 <= i < self@.len() ==> !self@[i],
            },
    {
        let mut relative: u64 = self.expected_parts;
        while relative > 0
            invariant
                self.wf(),
                relative <= self.expected_parts,
                forall|j: int| relative <= j < self@.len() ==> !self@[j],
            decreases relative,
        {
            relative = relative - 1;
            if self.contains_relative(relative) {
                assert(self@[relative as int]);
                return Some(
                    saturating_mul_u64(self.start_sequence.saturating_add(relative), self.part_ms),
                );
            }
        }
        None
    }

    /// How often the parts that were received are interrupted.
    pub fn non_contiguous_pts(&self) -> (r: u64)
        requires
            self.wf(),
        ensures
            r == (if count_runs(self@) == 0 {
                0int
            } else {
                count_runs(self@) - 1
            }),
    {
        let ghost marks = self@;
        let mut runs: u64 = 0;
        let mut previous = false;
        let mut relative: u64 = 0;
        while relative < self.expected_parts
            invariant
                self.wf(),
                marks == self@,
                relative <= self.expected_parts,
                runs <= relative,
                runs == count_runs(marks.take(relative as int)),
                previous == (relative > 0 && marks[relative - 1]),
            decreases self.expected_parts - relative,
        {
            let ghost head = marks.take(relative + 1);
            assert(head.drop_last() =~= marks.take(relative as int));
            let present = self.contains_relative(relative);
            if present && !previous {
                runs = runs + 1;
            }
            previous = present;
            relative = relative + 1;
        }
        assert(marks.take(relative as int) =~= marks);
        if runs == 0 {
            0
        } else {
            runs - 1
        }
    }
}

/// A row without a set mark counts none.
proof fn none_set(marks: Seq<bool>)
    requires
        forall|i: int| 0 <= i < marks.len() ==> !marks[i],
    ensures
        count_set(marks) == 0,
    decreases marks.len(),
{
    if marks.len() > 0 {
        none_set(marks.drop_last());
    }
}

/// No more marks are set than there are.
pub(crate) proof fn set_is_bounded(marks: Seq<bool>)
    ensures
        count_set(marks) <= marks.len(),
    decreases marks.len(),
{
    if marks.len() > 0 {
        set_is_bounded(marks.drop_last());
    }
}

/// Setting a mark counts one more.
proof fn setting_counts_one(marks: Seq<bool>, at: int)
    requires
        0 <= at < marks.len(),
        !marks[at],
    ensures
        count_set(marks.update(at, true)) == count_set(marks) + 1,
    decreases marks.len(),
{
    let after = marks.update(at, true);
    if at == marks.len() - 1 {
        assert(after.drop_last() =~= marks.drop_last());
    } else {
        assert(after.drop_last() =~= marks.drop_last().update(at, true));
        setting_counts_one(marks.drop_last(), at);
    }
}

/// A window of which every part was received is not interrupted, and all of its parts are counted.
pub proof fn a_complete_window_has_no_gap(marks: Seq<bool>)
    requires
        marks.len() > 0,
        forall|i: int| 0 <= i < marks.len() ==> marks[i],
    ensures
        count_runs(marks) == 1,
        count_set(marks) == marks.len(),
    decreases marks.len(),
{
    if marks.len() > 1 {
        a_complete_window_has_no_gap(marks.drop_last());
    } else {
        reveal_with_fuel(count_runs, 2);
        reveal_with_fuel(count_set, 2);
    }
}

/// A window of which fewer parts are counted than it has misses one.
pub proof fn a_missing_part_is_noticed(marks: Seq<bool>)
    requires
        count_set(marks) < marks.len(),
    ensures
        exists|i: int| 0 <= i < marks.len() && !marks[i],
{
    if forall|i: int| 0 <= i < marks.len() ==> marks[i] {
        if marks.len() > 0 {
            a_complete_window_has_no_gap(marks);
        }
    }
}

/// Two rows of marks behind each other have the marks of both.
pub proof fn marks_add_up(first: Seq<bool>, second: Seq<bool>)
    ensures
        count_set(first + second) == count_set(first) + count_set(second),
    decreases second.len(),
{
    if second.len() == 0 {
        assert(first + second =~= first);
    } else {
        marks_add_up(first, second.drop_last());
        assert((first + second).drop_last() =~= first + second.drop_last());
    }
}

/// A missing part parts the runs: there are as many as before it and behind it. Where it is there, what
/// is before it and behind it belongs together.
pub proof fn a_missing_part_parts_the_runs(first: Seq<bool>, second: Seq<bool>)
    ensures
        count_runs(first.push(false) + second) == count_runs(first) + count_runs(second),
        first.len() > 0 && first.last() && second.len() > 0 && second[0] ==> count_runs(
            first + second,
        ) == count_runs(first) + count_runs(second) - 1,
    decreases second.len(),
{
    reveal_with_fuel(count_runs, 3);
    let gap = first.push(false) + second;
    let joined = first + second;
    if second.len() == 0 {
        assert(gap =~= first.push(false));
        assert(first.push(false).drop_last() =~= first);
    } else if second.len() == 1 {
        assert(gap.drop_last() =~= first.push(false));
        assert(first.push(false).drop_last() =~= first);
        assert(second.drop_last() =~= Seq::<bool>::empty());
        assert(joined.drop_last() =~= first);
        assert(gap.last() == second[0] && joined.last() == second[0]);
        assert(gap[gap.len() - 2] == false);
    } else {
        let rest = second.drop_last();
        a_missing_part_parts_the_runs(first, rest);
        assert(gap.drop_last() =~= first.push(false) + rest);
        assert(joined.drop_last() =~= first + rest);
        assert(gap[gap.len() - 2] == second[second.len() - 2]);
        assert(joined[joined.len() - 2] == second[second.len() - 2]);
        assert(gap.last() == second.last() && joined.last() == second.last());
        assert(rest[0] == second[0]);
    }
}

/// A part of a window is the one that starts at its time: the parts before it fill the time up to it.
pub proof fn parts_start_at_their_time(
    start_sequence: u64,
    expected_parts: u64,
    part_ms: u64,
    pts_ms: u64,
)
    requires
        part_ms > 0,
    ensures
        match part_at(start_sequence, expected_parts, part_ms, pts_ms) {
            Some(relative) => 0 <= relative < expected_parts && (start_sequence + relative)
                * part_ms == pts_ms && pts_of(start_sequence, part_ms, relative) == pts_ms,
            None => forall|relative: int|
                0 <= relative < expected_parts ==> #[trigger] ((start_sequence + relative)
                    * part_ms) != pts_ms,
        },
{
    vstd::arithmetic::div_mod::lemma_fundamental_div_mod(pts_ms as int, part_ms as int);
    let q = pts_ms as int / part_ms as int;
    assert(q * part_ms == part_ms * q) by (nonlinear_arith);
    assert forall|relative: int|
        0 <= relative < expected_parts && #[trigger] ((start_sequence + relative) * part_ms)
            == pts_ms implies part_at(start_sequence, expected_parts, part_ms, pts_ms)
        is Some by {
        vstd::arithmetic::div_mod::lemma_fundamental_div_mod_converse(
            pts_ms as int,
            part_ms as int,
            start_sequence + relative,
            0,
        );
    }
    if part_at(start_sequence, expected_parts, part_ms, pts_ms) is Some {
        let relative = part_at(start_sequence, expected_parts, part_ms, pts_ms)->Some_0;
        assert(start_sequence + relative == q);
        assert(q <= pts_ms) by (nonlinear_arith)
            requires
                q * part_ms == pts_ms,
                part_ms > 0,
                q >= 0,
        ;
    }
}

} // verus!
