//! The line classifier: a scan over the lines of one file that carries a
//! single flag from line to line, whether a block comment is open, and
//! counts all lines and the effective ones.

use crate::grammar::Language;
use crate::line::{classify_marks, line_class, LineClass};
use crate::pattern::{Matchers, PatternError};
use crate::text::blank;
use vstd::prelude::*;

verus! {

/// The two counts of a file, or of many files taken together.
#[derive(Clone, Copy, Debug, PartialEq, Eq, Structural)]
pub struct Counters {
    /// Every line, comments and blank lines included.
    pub total_lines: usize,
    /// The lines that are neither blank nor comment.
    pub effective_lines: usize,
}

/// Where a scan stands after some lines: whether a block comment is open,
/// and the counts so far.
pub struct Tally {
    pub in_block: bool,
    pub total: nat,
    pub effective: nat,
}

/// The texts of some lines.
pub open spec fn texts(lines: Seq<String>) -> Seq<Seq<char>> {
    lines.map_values(|line: String| line@)
}

/// Whether every one of `lines` is blank.
pub open spec fn all_blank(lines: Seq<Seq<char>>) -> bool {
    forall|i: int| 0 <= i < lines.len() ==> blank(#[trigger] lines[i])
}

/// The scan of `lines` from the first to the last. It starts outside any
/// block comment with both counts at zero. Each line is classed in the
/// state that the lines before it left; it adds one to the total, and one
/// to the effective lines if its class is effective.
pub open spec fn tally(matchers: Matchers, lines: Seq<Seq<char>>) -> Tally
    decreases lines.len(),
{
    if lines.len() == 0 {
        Tally { in_block: false, total: 0, effective: 0 }
    } else {
        let before = tally(matchers, lines.drop_last());
        let class = line_class(before.in_block, matchers.marks_of(lines.last()));
        Tally {
            in_block: class.block_open_after(),
            total: before.total + 1,
            effective: if class.effective() {
                before.effective + 1
            } else {
                before.effective
            },
        }
    }
}

impl Counters {
    /// Whether these are the counts of `tally`.
    pub open spec fn agrees_with(self, tally: Tally) -> bool {
        self.total_lines == tally.total && self.effective_lines == tally.effective
    }

    /// No effective line without a line.
    pub open spec fn well_formed(self) -> bool {
        self.effective_lines <= self.total_lines
    }

    /// The counts of no lines at all.
    pub fn zero() -> (counts: Counters)
        ensures
            counts == (Counters { total_lines: 0, effective_lines: 0 }),
    {
        Counters { total_lines: 0, effective_lines: 0 }
    }

    /// The counts of two sets of files taken together, or `None` where a sum
    /// does not fit.
    pub fn checked_add(self, other: Counters) -> (sum: Option<Counters>)
        ensures
            match sum {
                Some(counts) => {
                    &&& counts.total_lines == self.total_lines + other.total_lines
                    &&& counts.effective_lines == self.effective_lines + other.effective_lines
                },
                None => {
                    ||| self.total_lines + other.total_lines > usize::MAX
                    ||| self.effective_lines + other.effective_lines > usize::MAX
                },
            },
            self.well_formed() && other.well_formed() && sum is Some ==> sum.unwrap().well_formed(),
    {
        match self.total_lines.checked_add(other.total_lines) {
            Some(total_lines) => match self.effective_lines.checked_add(other.effective_lines) {
                Some(effective_lines) => Some(Counters { total_lines, effective_lines }),
                None => None,
            },
            None => None,
        }
    }
}

impl Matchers {
    /// The class of `line`, read while a block comment is open or not.
    pub fn classify_line(&self, in_block: bool, line: &str) -> (class: LineClass)
        ensures
            class == line_class(in_block, self.marks_of(line@)),
    {
        classify_marks(in_block, self.marks(line))
    }

    /// Counts the lines of one file. The scan starts outside any block
    /// comment, and a block comment that is still open at the end is no
    /// error.
    pub fn count(&self, lines: &[String]) -> (counts: Counters)
        ensures
            counts.agrees_with(tally(*self, texts(lines@))),
            counts.total_lines == lines@.len(),
            counts.effective_lines <= counts.total_lines,
            lines@.len() == 0 ==> counts == (Counters { total_lines: 0, effective_lines: 0 }),
            all_blank(texts(lines@)) ==> counts.effective_lines == 0,
    {
        let ghost all = texts(lines@);
        let mut in_block: bool = false;
        let mut effective: usize = 0;
        let mut i: usize = 0;
        while i < lines.len()
            invariant
                i <= lines.len(),
                all == texts(lines@),
                effective <= i,
                tally(*self, all.take(i as int)) == (Tally {
                    in_block,
                    total: i as nat,
                    effective: effective as nat,
                }),
            decreases lines.len() - i,
        {
            let class = self.classify_line(in_block, lines[i].as_str());
            proof {
                assert(all.take(i + 1).drop_last() == all.take(i as int));
            }
            if class.is_effective() {
                effective = effective + 1;
            }
            in_block = class.leaves_block_open();
            i = i + 1;
        }
        proof {
            assert(all.take(i as int) == all);
            if all_blank(all) {
                lemma_blank_file(*self, all);
            }
        }
        Counters { total_lines: i, effective_lines: effective }
    }
}

/// The counts of a file with the given lines, under the grammar `language`.
///
/// The grammar's patterns are compiled first. If one of them does not
/// compile, the error names the first that does not; else the counts are
/// those of the scan with the compiled patterns. A grammar made of the
/// registry's patterns cannot fail, and neither can one without patterns.
pub fn classify(language: &Language, lines: &[String]) -> (counted: Result<Counters, PatternError>)
    ensures
        match language@.first_failing() {
            Some(kind) => counted matches Err(e) && e.kind == kind,
            None => {
                &&& counted matches Ok(counts)
                &&& counts.agrees_with(tally(Matchers::of(language@), texts(lines@)))
                &&& counts.total_lines == lines@.len()
                &&& counts.effective_lines <= counts.total_lines
                &&& lines@.len() == 0 ==> counts == (Counters { total_lines: 0, effective_lines: 0 })
                &&& all_blank(texts(lines@)) ==> counts.effective_lines == 0
            },
        },
        language@.uses_registry_patterns() ==> counted is Ok,
        language@.without_patterns() ==> counted is Ok,
{
    match Matchers::compile(language) {
        Ok(matchers) => Ok(matchers.count(lines)),
        Err(e) => Err(e),
    }
}

/// The total is the number of lines, and the effective lines are never more.
pub proof fn lemma_effective_at_most_total(matchers: Matchers, lines: Seq<Seq<char>>)
    ensures
        tally(matchers, lines).total == lines.len(),
        tally(matchers, lines).effective <= tally(matchers, lines).total,
    decreases lines.len(),
{
    if lines.len() > 0 {
        lemma_effective_at_most_total(matchers, lines.drop_last());
    }
}

/// A file without lines counts zero and zero, whatever the grammar.
pub proof fn lemma_empty_file(matchers: Matchers)
    ensures
        tally(matchers, Seq::<Seq<char>>::empty()) == (Tally {
            in_block: false,
            total: 0,
            effective: 0,
        }),
        forall|counts: Counters|
            counts.agrees_with(tally(matchers, Seq::<Seq<char>>::empty())) ==> counts == (Counters {
                total_lines: 0,
                effective_lines: 0,
            }),
{
}

/// A file of blank lines counts every line and no effective one, whatever
/// the grammar.
pub proof fn lemma_blank_file(matchers: Matchers, lines: Seq<Seq<char>>)
    requires
        all_blank(lines),
    ensures
        tally(matchers, lines).total == lines.len(),
        tally(matchers, lines).effective == 0,
    decreases lines.len(),
{
    if lines.len() > 0 {
        lemma_blank_file(matchers, lines.drop_last());
    }
}

/// How many of `lines` are not blank.
pub open spec fn count_not_blank(lines: Seq<Seq<char>>) -> nat
    decreases lines.len(),
{
    if lines.len() == 0 {
        0
    } else if blank(lines.last()) {
        count_not_blank(lines.drop_last())
    } else {
        count_not_blank(lines.drop_last()) + 1
    }
}

/// With a grammar that has no pattern at all, every line that is not blank
/// is effective.
pub proof fn lemma_grammar_without_patterns(matchers: Matchers, lines: Seq<Seq<char>>)
    requires
        matchers.single_comment is None,
        matchers.block_comment_start is None,
        matchers.block_comment_end is None,
    ensures
        !tally(matchers, lines).in_block,
        tally(matchers, lines).effective == count_not_blank(lines),
    decreases lines.len(),
{
    if lines.len() > 0 {
        lemma_grammar_without_patterns(matchers, lines.drop_last());
    }
}

/// While a block comment is open and no line closes it, no line is
/// effective: a block comment that is still open at the end of the file has
/// taken every line after the one that opened it.
pub proof fn lemma_open_block_takes_all(
    matchers: Matchers,
    before: Seq<Seq<char>>,
    rest: Seq<Seq<char>>,
)
    requires
        tally(matchers, before).in_block,
        forall|i: int| 0 <= i < rest.len() ==> !(#[trigger] matchers.marks_of(rest[i])).closes_block,
    ensures
        tally(matchers, before + rest).in_block,
        tally(matchers, before + rest).effective == tally(matchers, before).effective,
        tally(matchers, before + rest).total == tally(matchers, before).total + rest.len(),
    decreases rest.len(),
{
    if rest.len() > 0 {
        let front = rest.drop_last();
        lemma_open_block_takes_all(matchers, before, front);
        assert((before + rest).drop_last() == before + front);
    }
}

/// Counting again gives the same: the counts of a file are a function of the
/// matchers and the lines, and nothing is carried from one scan to the next.
pub proof fn lemma_same_counts_again(
    matchers: Matchers,
    lines: Seq<Seq<char>>,
    first: Counters,
    second: Counters,
)
    requires
        first.agrees_with(tally(matchers, lines)),
        second.agrees_with(tally(matchers, lines)),
    ensures
        first == second,
{
}

/// One more line: the scan of the lines before it goes on with the state
/// they left.
pub proof fn lemma_tally_next_line(matchers: Matchers, lines: Seq<Seq<char>>, line: Seq<char>)
    ensures
        ({
            let before = tally(matchers, lines);
            let after = tally(matchers, lines.push(line));
            let class = line_class(before.in_block, matchers.marks_of(line));
            &&& after.in_block == class.block_open_after()
            &&& after.total == before.total + 1
            &&& after.effective == before.effective + if class.effective() {
                1nat
            } else {
                0nat
            }
        }),
{
    assert(lines.push(line).drop_last() == lines);
}

} // verus!
