//! The classifier's decision for one line: from the state it is in and from
//! what the grammar's patterns say of the line, to the line's class.

use vstd::prelude::*;

verus! {

/// What the patterns of a grammar, and the test for blankness, say of one
/// line. A pattern that the grammar lacks matches no line.
#[derive(Clone, Copy, Debug, PartialEq, Eq, Structural)]
pub struct LineMarks {
    /// The block-start pattern matches the line.
    pub opens_block: bool,
    /// The block-end pattern matches the line.
    pub closes_block: bool,
    /// The line-comment pattern matches the line.
    pub line_comment: bool,
    /// The line holds nothing but white space.
    pub blank: bool,
}

/// What a line is to the count.
#[derive(Clone, Copy, Debug, PartialEq, Eq, Structural)]
pub enum LineClass {
    /// Inside a block comment that this line does not close.
    InsideBlock,
    /// Inside a block comment, which this line closes.
    BlockEnd,
    /// Outside any block comment; this line opens one.
    BlockStart,
    /// A line comment.
    LineComment,
    /// Nothing but white space.
    Blank,
    /// Anything else: the only class that counts as effective.
    Code,
}

/// The class of a line with the given marks, read in a file whose scan is
/// inside a block comment or not.
///
/// Inside a block comment only the block-end pattern is asked. Outside, the
/// block-start pattern goes before the line-comment pattern, and both go
/// before the test for blankness.
pub open spec fn line_class(in_block: bool, marks: LineMarks) -> LineClass {
    if in_block {
        if marks.closes_block {
            LineClass::BlockEnd
        } else {
            LineClass::InsideBlock
        }
    } else if marks.opens_block {
        LineClass::BlockStart
    } else if marks.line_comment {
        LineClass::LineComment
    } else if marks.blank {
        LineClass::Blank
    } else {
        LineClass::Code
    }
}

impl LineClass {
    /// Whether the scan is inside a block comment once a line of this class
    /// is read.
    pub open spec fn block_open_after(self) -> bool {
        self is InsideBlock || self is BlockStart
    }

    /// Whether a line of this class is effective.
    pub open spec fn effective(self) -> bool {
        self is Code
    }

    /// Whether the next line is read inside a block comment.
    pub fn leaves_block_open(self) -> (b: bool)
        ensures
            b == self.block_open_after(),
    {
        match self {
            LineClass::InsideBlock => true,
            LineClass::BlockStart => true,
            _ => false,
        }
    }

    /// Whether the line adds to the count of effective lines.
    pub fn is_effective(self) -> (b: bool)
        ensures
            b == self.effective(),
    {
        match self {
            LineClass::Code => true,
            _ => false,
        }
    }
}

/// The class of a line, from the state of the scan and the line's marks.
pub fn classify_marks(in_block: bool, marks: LineMarks) -> (class: LineClass)
    ensures
        class == line_class(in_block, marks),
{
    if in_block {
        if marks.closes_block {
            LineClass::BlockEnd
        } else {
            LineClass::InsideBlock
        }
    } else if marks.opens_block {
        LineClass::BlockStart
    } else if marks.line_comment {
        LineClass::LineComment
    } else if marks.blank {
        LineClass::Blank
    } else {
        LineClass::Code
    }
}

/// A line that opens or closes a block comment is not effective, whatever
/// else stands on it, and neither is any line read inside one.
pub proof fn lemma_comment_lines_are_not_effective(in_block: bool, marks: LineMarks)
    ensures
        in_block ==> !line_class(in_block, marks).effective(),
        marks.opens_block ==> !line_class(in_block, marks).effective(),
        marks.line_comment ==> !line_class(in_block, marks).effective(),
        marks.blank ==> !line_class(in_block, marks).effective(),
        line_class(in_block, marks).effective() <==> !in_block && !marks.opens_block
            && !marks.line_comment && !marks.blank,
{
}

/// A block comment is open after a line exactly if the line opened one, or
/// was read inside one and did not close it.
pub proof fn lemma_block_state(in_block: bool, marks: LineMarks)
    ensures
        line_class(in_block, marks).block_open_after() <==> if in_block {
            !marks.closes_block
        } else {
            marks.opens_block
        },
{
}

} // verus!
