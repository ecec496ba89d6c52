//! Compiled patterns. The patterns of a grammar are regular expressions of
//! the `regex` crate: each is compiled once and then tried on every line.
//!
//! What that crate does is taken on trust, under two names: [`regex_new`]
//! for what it makes of a pattern, a regex or none, and [`regex_accepts`]
//! for whether a regex finds a match in a text.

use crate::grammar::{registry_pattern, Language, LanguageView};
use crate::line::LineMarks;
use crate::text::{blank, is_blank};
use regex::Regex;
use vstd::prelude::*;

verus! {

/// `regex::Regex`, a compiled regular expression. Nothing inside it is
/// visible here.
#[verifier::external_type_specification]
#[verifier::external_body]
pub struct ExRegex(regex::Regex);

/// `regex::Error`, the reason why a pattern was not compiled.
#[verifier::external_type_specification]
#[verifier::external_body]
pub struct ExRegexError(regex::Error);

/// What `Regex::new` makes of `pattern`: the regex, or `None` where it turns
/// the pattern down.
pub uninterp spec fn regex_new(pattern: Seq<char>) -> Option<Regex>;

/// Whether `pattern` compiles.
pub open spec fn regex_compiles(pattern: Seq<char>) -> bool {
    regex_new(pattern) is Some
}

/// The regex that `pattern` compiles to, where it compiles.
pub open spec fn regex_of(pattern: Seq<char>) -> Regex {
    regex_new(pattern)->0
}

/// Whether `re` finds a match anywhere in `text`: what `Regex::is_match`
/// returns.
pub uninterp spec fn regex_accepts(re: Regex, text: Seq<char>) -> bool;

/// `Regex::new`. Trusted, of the crate as it is built into this library:
///
/// - Whether a regex comes back, and which, is determined by the pattern
///   alone. The pattern is parsed and compiled with the crate's default
///   options, and turned down if it is malformed or if what it compiles to
///   is larger than the default size limit.
/// - The six patterns of the registry compile: each is a few literal
///   characters, some with the anchor `^` and the class `\s` repeated by `*`
///   before them.
#[verifier::external_body]
fn compile_pattern(pattern: &str) -> (outcome: Result<Regex, regex::Error>)
    ensures
        match outcome {
            Ok(re) => regex_new(pattern@) == Some(re),
            Err(_) => regex_new(pattern@) is None,
        },
        registry_pattern(pattern@) ==> outcome is Ok,
{
    Regex::new(pattern)
}

/// `Regex::is_match`. Trusted: the answer is determined by the regex and the
/// text alone, and the call returns for every regex and every text.
pub assume_specification[ Regex::is_match ](re: &Regex, haystack: &str) -> (hit: bool)
    ensures
        hit == regex_accepts(*re, haystack@),
;

/// The text of a `regex::Error`, as its `Display` impl writes it. Nothing is
/// claimed of the text.
#[verifier::external_body]
fn error_text(error: &regex::Error) -> (text: String) {
    error.to_string()
}

/// The three places of a grammar that may hold a pattern.
#[derive(Clone, Copy, Debug, PartialEq, Eq, Structural)]
pub enum PatternKind {
    SingleComment,
    BlockCommentStart,
    BlockCommentEnd,
}

/// A pattern of a grammar that did not compile.
#[derive(Debug)]
pub struct PatternError {
    /// Which of the grammar's patterns it was.
    pub kind: PatternKind,
    /// What the regex compiler said of it.
    pub message: String,
}

impl LanguageView {
    /// The pattern that the grammar holds in the given place.
    pub open spec fn pattern(self, kind: PatternKind) -> Option<Seq<char>> {
        match kind {
            PatternKind::SingleComment => self.single_comment_pattern,
            PatternKind::BlockCommentStart => self.block_comment_start_pattern,
            PatternKind::BlockCommentEnd => self.block_comment_end_pattern,
        }
    }

    /// Whether the grammar holds no pattern at all.
    pub open spec fn without_patterns(self) -> bool {
        &&& self.single_comment_pattern is None
        &&& self.block_comment_start_pattern is None
        &&& self.block_comment_end_pattern is None
    }

    /// The first pattern of the grammar that does not compile, in the order
    /// line comment, block start, block end; `None` where every pattern
    /// that the grammar holds compiles.
    pub open spec fn first_failing(self) -> Option<PatternKind> {
        if fails(self.single_comment_pattern) {
            Some(PatternKind::SingleComment)
        } else if fails(self.block_comment_start_pattern) {
            Some(PatternKind::BlockCommentStart)
        } else if fails(self.block_comment_end_pattern) {
            Some(PatternKind::BlockCommentEnd)
        } else {
            None
        }
    }
}

/// Whether a pattern is there and does not compile.
pub open spec fn fails(pattern: Option<Seq<char>>) -> bool {
    pattern matches Some(p) && !regex_compiles(p)
}

/// The compiled patterns of one grammar: each pattern that the grammar has,
/// as a regex that is built once and used for every line of a file.
pub struct Matchers {
    pub single_comment: Option<Regex>,
    pub block_comment_start: Option<Regex>,
    pub block_comment_end: Option<Regex>,
}

/// The regex of an optional pattern.
pub open spec fn opt_regex(pattern: Option<Seq<char>>) -> Option<Regex> {
    match pattern {
        Some(p) => Some(regex_of(p)),
        None => None,
    }
}

/// Whether a regex is there and finds a match in `text`.
pub open spec fn hits(re: Option<Regex>, text: Seq<char>) -> bool {
    re matches Some(r) && regex_accepts(r, text)
}

/// What compiling one optional pattern gave: `None` where there was no
/// pattern to compile.
pub type Compiled = Option<Result<Regex, regex::Error>>;

impl Matchers {
    /// The matchers that the patterns of `language` compile to.
    pub open spec fn of(language: LanguageView) -> Matchers {
        Matchers {
            single_comment: opt_regex(language.single_comment_pattern),
            block_comment_start: opt_regex(language.block_comment_start_pattern),
            block_comment_end: opt_regex(language.block_comment_end_pattern),
        }
    }

    /// What the matchers say of `line`.
    pub open spec fn marks_of(self, line: Seq<char>) -> LineMarks {
        LineMarks {
            opens_block: hits(self.block_comment_start, line),
            closes_block: hits(self.block_comment_end, line),
            line_comment: hits(self.single_comment, line),
            blank: blank(line),
        }
    }

    /// The first pattern that failed, in the order line comment, block
    /// start, block end; `None` where none failed.
    pub open spec fn first_failure(
        single_comment: Compiled,
        block_comment_start: Compiled,
        block_comment_end: Compiled,
    ) -> Option<PatternKind> {
        if single_comment matches Some(Err(_)) {
            Some(PatternKind::SingleComment)
        } else if block_comment_start matches Some(Err(_)) {
            Some(PatternKind::BlockCommentStart)
        } else if block_comment_end matches Some(Err(_)) {
            Some(PatternKind::BlockCommentEnd)
        } else {
            None
        }
    }

    /// The regex that compiling gave, where it gave one.
    pub open spec fn regex_in(compiled: Compiled) -> Option<Regex> {
        match compiled {
            Some(Ok(re)) => Some(re),
            _ => None,
        }
    }

    /// Puts together what compiling the three patterns of a grammar gave:
    /// the matchers if every pattern that was there compiled, else an error
    /// that names the first one that did not.
    pub fn from_compiled(
        single_comment: Compiled,
        block_comment_start: Compiled,
        block_comment_end: Compiled,
    ) -> (built: Result<Matchers, PatternError>)
        ensures
            match Self::first_failure(single_comment, block_comment_start, block_comment_end) {
                Some(kind) => built matches Err(e) && e.kind == kind,
                None => built == Ok::<Matchers, PatternError>(
                    Matchers {
                        single_comment: Self::regex_in(single_comment),
                        block_comment_start: Self::regex_in(block_comment_start),
                        block_comment_end: Self::regex_in(block_comment_end),
                    },
                ),
            },
    {
        let single_comment = match single_comment {
            Some(Ok(re)) => Some(re),
            Some(Err(error)) => {
                return Err(
                    PatternError {
                        kind: PatternKind::SingleComment,
                        message: error_text(&error),
                    },
                );
            },
            None => None,
        };
        let block_comment_start = match block_comment_start {
            Some(Ok(re)) => Some(re),
            Some(Err(error)) => {
                return Err(
                    PatternError {
                        kind: PatternKind::BlockCommentStart,
                        message: error_text(&error),
                    },
                );
            },
            None => None,
        };
        let block_comment_end = match block_comment_end {
            Some(Ok(re)) => Some(re),
            Some(Err(error)) => {
                return Err(
                    PatternError {
                        kind: PatternKind::BlockCommentEnd,
                        message: error_text(&error),
                    },
                );
            },
            None => None,
        };
        Ok(Matchers { single_comment, block_comment_start, block_comment_end })
    }

    /// Compiles the patterns of `language`.
    ///
    /// The matchers come back exactly if every pattern that the grammar
    /// holds compiles; else the error names the first one that does not. A
    /// grammar made of the registry's patterns always compiles, and so does
    /// a grammar without patterns.
    pub fn compile(language: &Language) -> (built: Result<Matchers, PatternError>)
        ensures
            match language@.first_failing() {
                Some(kind) => built matches Err(e) && e.kind == kind,
                None => built matches Ok(matchers) && matchers == Matchers::of(language@),
            },
            language@.uses_registry_patterns() ==> built is Ok,
            language@.without_patterns() ==> built is Ok,
    {
        let single_comment = compile_optional(&language.single_comment_pattern);
        let block_comment_start = compile_optional(&language.block_comment_start_pattern);
        let block_comment_end = compile_optional(&language.block_comment_end_pattern);
        Matchers::from_compiled(single_comment, block_comment_start, block_comment_end)
    }

    /// What the patterns say of `line`.
    pub fn marks(&self, line: &str) -> (marks: LineMarks)
        ensures
            marks == self.marks_of(line@),
    {
        LineMarks {
            opens_block: is_hit(&self.block_comment_start, line),
            closes_block: is_hit(&self.block_comment_end, line),
            line_comment: is_hit(&self.single_comment, line),
            blank: is_blank(line),
        }
    }
}

/// Compiles a pattern if there is one.
fn compile_optional(pattern: &Option<String>) -> (compiled: Compiled)
    ensures
        match *pattern {
            Some(p) => {
                &&& compiled matches Some(outcome)
                &&& match outcome {
                    Ok(re) => regex_new(p@) == Some(re),
                    Err(_) => regex_new(p@) is None,
                }
                &&& registry_pattern(p@) ==> outcome is Ok
            },
            None => compiled is None,
        },
{
    match pattern {
        Some(p) => Some(compile_pattern(p.as_str())),
        None => None,
    }
}

/// Whether a regex is there and finds a match in `line`.
fn is_hit(re: &Option<Regex>, line: &str) -> (hit: bool)
    ensures
        hit == hits(*re, line@),
{
    match re {
        Some(r) => r.is_match(line),
        None => false,
    }
}

} // verus!
