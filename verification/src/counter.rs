//! The counts of one file: the grammar is found by the file's extension,
//! and the lines are handed to the classifier. A file without a registered
//! grammar is skipped and counts nothing.

use crate::classifier::{all_blank, classify, tally, texts, Counters};
use crate::grammar::{get_language, language_of, Language, LanguageView};
use crate::pattern::{Matchers, PatternError};
use crate::text::{extension, file_extension};
use vstd::prelude::*;

verus! {

/// The grammar for the file at `path`: the one registered for the path's
/// extension. A path without an extension has none.
pub open spec fn language_of_path(path: Seq<char>) -> Option<LanguageView> {
    match extension(path) {
        Some(file_ext) => language_of(file_ext),
        None => None,
    }
}

/// The grammar for the file at `path`, or `None` where the file is to be
/// skipped. Only the path is looked at.
pub fn language_for_path(path: &str) -> (found: Option<Language>)
    ensures
        match found {
            Some(language) => {
                &&& language_of_path(path@) == Some(language@)
                &&& language@.well_formed()
                &&& language@.uses_registry_patterns()
            },
            None => language_of_path(path@) is None,
        },
{
    match file_extension(path) {
        Some(file_ext) => get_language(file_ext),
        None => None,
    }
}

/// The counts of the file at `file_path`, whose lines are `lines`.
///
/// A file whose extension has no registered grammar counts zero and zero,
/// whatever its lines. Any other file has the counts of the classifier's
/// scan under the registered grammar. There is no other outcome: the
/// patterns of the registry compile.
pub fn count_lines(file_path: &str, lines: &[String]) -> (counted: Result<Counters, PatternError>)
    ensures
        counted is Ok,
        match language_of_path(file_path@) {
            None => counted == Ok::<Counters, PatternError>(
                Counters { total_lines: 0, effective_lines: 0 },
            ),
            Some(language) => {
                &&& counted matches Ok(counts)
                &&& counts.agrees_with(tally(Matchers::of(language), texts(lines@)))
                &&& counts.total_lines == lines@.len()
                &&& counts.effective_lines <= counts.total_lines
                &&& lines@.len() == 0 ==> counts == (Counters {
                    total_lines: 0,
                    effective_lines: 0,
                })
                &&& all_blank(texts(lines@)) ==> counts.effective_lines == 0
            },
        },
{
    match language_for_path(file_path) {
        None => Ok(Counters::zero()),
        Some(language) => classify(&language, lines),
    }
}

} // verus!
