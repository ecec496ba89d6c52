//! Comment grammars and the registry that maps a file extension to one.

use crate::text::{lowercase, spells, to_lower};
use vstd::prelude::*;
use vstd::std_specs::iter::IteratorSpec;

verus! {

/// The comment grammar of one language. The patterns are regular expressions,
/// each tried on one line at a time.
#[derive(Debug)]
pub struct Language {
    /// Display label; counting does not read it.
    pub name: String,
    /// The extension the grammar is registered under, with its leading dot.
    pub file_ext: String,
    /// Matches a line that is a line comment.
    pub single_comment_pattern: Option<String>,
    /// Matches a line that opens a block comment.
    pub block_comment_start_pattern: Option<String>,
    /// Matches a line that closes a block comment.
    pub block_comment_end_pattern: Option<String>,
}

/// A [`Language`] as plain sequences of characters.
pub struct LanguageView {
    pub name: Seq<char>,
    pub file_ext: Seq<char>,
    pub single_comment_pattern: Option<Seq<char>>,
    pub block_comment_start_pattern: Option<Seq<char>>,
    pub block_comment_end_pattern: Option<Seq<char>>,
}

/// The characters of an optional string.
pub open spec fn opt_chars(s: Option<String>) -> Option<Seq<char>> {
    match s {
        Some(s) => Some(s@),
        None => None,
    }
}

impl View for Language {
    type V = LanguageView;

    open spec fn view(&self) -> LanguageView {
        LanguageView {
            name: self.name@,
            file_ext: self.file_ext@,
            single_comment_pattern: opt_chars(self.single_comment_pattern),
            block_comment_start_pattern: opt_chars(self.block_comment_start_pattern),
            block_comment_end_pattern: opt_chars(self.block_comment_end_pattern),
        }
    }
}

fn copy_of(pattern: &Option<String>) -> (copy: Option<String>)
    ensures
        copy == *pattern,
{
    match pattern {
        Some(p) => Some(p.clone()),
        None => None,
    }
}

impl Clone for Language {
    fn clone(&self) -> (copy: Language)
        ensures
            copy == *self,
    {
        Language {
            name: self.name.clone(),
            file_ext: self.file_ext.clone(),
            single_comment_pattern: copy_of(&self.single_comment_pattern),
            block_comment_start_pattern: copy_of(&self.block_comment_start_pattern),
            block_comment_end_pattern: copy_of(&self.block_comment_end_pattern),
        }
    }
}

/// The patterns that the grammars of the registry are made of: the line
/// comments `//`, `#`, `;` and `%` at the start of a line, after white space
/// or none, and the block markers `/*` and `*/` anywhere on a line.
pub open spec fn registry_pattern(pattern: Seq<char>) -> bool {
    ||| pattern == "^\\s*//"@
    ||| pattern == "^\\s*#"@
    ||| pattern == "^\\s*;"@
    ||| pattern == "^\\s*%"@
    ||| pattern == "/\\*"@
    ||| pattern == "\\*/"@
}

/// Whether a pattern, if there is one, is one of the registry's.
pub open spec fn opt_registry_pattern(pattern: Option<Seq<char>>) -> bool {
    pattern matches Some(p) ==> registry_pattern(p)
}

impl LanguageView {
    /// A grammar opens block comments exactly if it closes them.
    pub open spec fn well_formed(self) -> bool {
        self.block_comment_start_pattern is Some <==> self.block_comment_end_pattern is Some
    }

    /// Whether every pattern that the grammar holds is one of the
    /// registry's.
    pub open spec fn uses_registry_patterns(self) -> bool {
        &&& opt_registry_pattern(self.single_comment_pattern)
        &&& opt_registry_pattern(self.block_comment_start_pattern)
        &&& opt_registry_pattern(self.block_comment_end_pattern)
    }
}

impl Language {
    /// Whether the block patterns are both present or both absent.
    pub fn is_well_formed(&self) -> (b: bool)
        ensures
            b == self@.well_formed(),
    {
        self.block_comment_start_pattern.is_some() == self.block_comment_end_pattern.is_some()
    }
}

/// A grammar with `//` line comments and `/* */` block comments. A line
/// comment is a line that begins with `//`, after white space or none. A
/// block comment opens on any line that holds `/*`, whatever stands before
/// it, and closes on any line that holds `*/`.
pub open spec fn slash_grammar(name: Seq<char>, file_ext: Seq<char>) -> LanguageView {
    LanguageView {
        name,
        file_ext,
        single_comment_pattern: Some("^\\s*//"@),
        block_comment_start_pattern: Some("/\\*"@),
        block_comment_end_pattern: Some("\\*/"@),
    }
}

/// A grammar with line comments only, recognised by `single_comment_pattern`.
pub open spec fn line_grammar(
    name: Seq<char>,
    file_ext: Seq<char>,
    single_comment_pattern: Seq<char>,
) -> LanguageView {
    LanguageView {
        name,
        file_ext,
        single_comment_pattern: Some(single_comment_pattern),
        block_comment_start_pattern: None,
        block_comment_end_pattern: None,
    }
}

/// The registry: the grammar registered under `key`, a lower-case extension
/// without its dot.
pub open spec fn registry(key: Seq<char>) -> Option<LanguageView> {
    if key == "c"@ {
        Some(slash_grammar("C"@, ".c"@))
    } else if key == "h"@ {
        Some(slash_grammar("C"@, ".h"@))
    } else if key == "cpp"@ {
        Some(slash_grammar("C++"@, ".cpp"@))
    } else if key == "hpp"@ {
        Some(slash_grammar("C++"@, ".hpp"@))
    } else if key == "rs"@ {
        Some(slash_grammar("Rust"@, ".rs"@))
    } else if key == "asm"@ {
        Some(line_grammar("Assembly"@, ".asm"@, "^\\s*;"@))
    } else if key == "java"@ {
        Some(slash_grammar("Java"@, ".java"@))
    } else if key == "py"@ {
        Some(line_grammar("Python"@, ".py"@, "^\\s*#"@))
    } else if key == "js"@ {
        Some(slash_grammar("JavaScript"@, ".js"@))
    } else if key == "php"@ {
        Some(slash_grammar("PHP"@, ".php"@))
    } else if key == "rb"@ {
        Some(line_grammar("Ruby"@, ".rb"@, "^\\s*#"@))
    } else if key == "swift"@ {
        Some(slash_grammar("Swift"@, ".swift"@))
    } else if key == "go"@ {
        Some(slash_grammar("Go"@, ".go"@))
    } else if key == "dart"@ {
        Some(slash_grammar("Dart"@, ".dart"@))
    } else if key == "kt"@ {
        Some(slash_grammar("Kotlin"@, ".kt"@))
    } else if key == "pl"@ {
        Some(line_grammar("Perl"@, ".pl"@, "^\\s*#"@))
    } else if key == "erl"@ {
        Some(line_grammar("Erlang"@, ".erl"@, "^\\s*%"@))
    } else {
        None
    }
}

/// The key under which an extension is looked up: one leading dot, if there
/// is one, is dropped, and the rest is put in lower case.
pub open spec fn lookup_key(file_ext: Seq<char>) -> Seq<char> {
    if file_ext.len() > 0 && file_ext[0] == '.' {
        lowercase(file_ext.skip(1))
    } else {
        lowercase(file_ext)
    }
}

/// The grammar that [`get_language`] finds for an extension.
pub open spec fn language_of(file_ext: Seq<char>) -> Option<LanguageView> {
    registry(lookup_key(file_ext))
}

/// Every grammar of the registry is well formed.
pub proof fn lemma_registry_well_formed(key: Seq<char>)
    ensures
        registry(key) matches Some(language) ==> language.well_formed(),
{
}

/// Every grammar of the registry is made of the registry's patterns.
pub proof fn lemma_registry_patterns(key: Seq<char>)
    ensures
        registry(key) matches Some(language) ==> language.uses_registry_patterns(),
{
}

/// Every grammar is registered under its own extension: its `file_ext` is
/// the key with a dot before it.
pub proof fn lemma_registry_file_ext(key: Seq<char>)
    ensures
        registry(key) matches Some(language) ==> language.file_ext == seq!['.'] + key,
{
    reveal_strlit("c");
    reveal_strlit("h");
    reveal_strlit("cpp");
    reveal_strlit("hpp");
    reveal_strlit("rs");
    reveal_strlit("asm");
    reveal_strlit("java");
    reveal_strlit("py");
    reveal_strlit("js");
    reveal_strlit("php");
    reveal_strlit("rb");
    reveal_strlit("swift");
    reveal_strlit("go");
    reveal_strlit("dart");
    reveal_strlit("kt");
    reveal_strlit("pl");
    reveal_strlit("erl");
    reveal_strlit(".c");
    reveal_strlit(".h");
    reveal_strlit(".cpp");
    reveal_strlit(".hpp");
    reveal_strlit(".rs");
    reveal_strlit(".asm");
    reveal_strlit(".java");
    reveal_strlit(".py");
    reveal_strlit(".js");
    reveal_strlit(".php");
    reveal_strlit(".rb");
    reveal_strlit(".swift");
    reveal_strlit(".go");
    reveal_strlit(".dart");
    reveal_strlit(".kt");
    reveal_strlit(".pl");
    reveal_strlit(".erl");
}

/// The keys of the registry are lower-case extensions without a dot, so a
/// key is looked up as it stands.
pub proof fn lemma_registry_keys(key: Seq<char>)
    ensures
        registry(key) is Some ==> lookup_key(key) == key && language_of(key) == registry(key),
{
    reveal_strlit("c");
    reveal_strlit("h");
    reveal_strlit("cpp");
    reveal_strlit("hpp");
    reveal_strlit("rs");
    reveal_strlit("asm");
    reveal_strlit("java");
    reveal_strlit("py");
    reveal_strlit("js");
    reveal_strlit("php");
    reveal_strlit("rb");
    reveal_strlit("swift");
    reveal_strlit("go");
    reveal_strlit("dart");
    reveal_strlit("kt");
    reveal_strlit("pl");
    reveal_strlit("erl");
}

/// Looking up does not tell upper case from lower case, and a leading dot
/// makes no difference.
pub proof fn lemma_lookup_ignores_case_and_dot(file_ext: Seq<char>)
    ensures
        language_of(lowercase(file_ext)) == language_of(file_ext),
        file_ext.len() > 0 && file_ext[0] != '.' ==> language_of(seq!['.'] + file_ext)
            == language_of(file_ext),
{
    let lower = lowercase(file_ext);
    assert(lowercase(lower) == lower);
    if file_ext.len() > 0 && file_ext[0] == '.' {
        assert(lowercase(lower.skip(1)) == lowercase(file_ext.skip(1)));
    }
    if file_ext.len() > 0 && file_ext[0] != '.' {
        let dotted = seq!['.'] + file_ext;
        assert(dotted.skip(1) == file_ext);
    }
}

fn slash_language(name: &str, file_ext: &str) -> (language: Language)
    ensures
        language@ == slash_grammar(name@, file_ext@),
{
    Language {
        name: name.to_owned(),
        file_ext: file_ext.to_owned(),
        single_comment_pattern: Some("^\\s*//".to_owned()),
        block_comment_start_pattern: Some("/\\*".to_owned()),
        block_comment_end_pattern: Some("\\*/".to_owned()),
    }
}

fn line_language(name: &str, file_ext: &str, single_comment_pattern: &str) -> (language: Language)
    ensures
        language@ == line_grammar(name@, file_ext@, single_comment_pattern@),
{
    Language {
        name: name.to_owned(),
        file_ext: file_ext.to_owned(),
        single_comment_pattern: Some(single_comment_pattern.to_owned()),
        block_comment_start_pattern: None,
        block_comment_end_pattern: None,
    }
}

/// The lookup key of `file_ext`, as characters.
pub fn key_of(file_ext: &str) -> (key: Vec<char>)
    ensures
        key@ == lookup_key(file_ext@),
{
    let mut key: Vec<char> = Vec::new();
    let mut it = file_ext.chars();
    let mut first: bool = true;
    let ghost mut seen: Seq<char> = Seq::empty();
    loop
        invariant
            file_ext@ == seen + it.remaining(),
            first <==> seen.len() == 0,
            key@ == lookup_key(seen),
            it.obeys_prophetic_iter_laws(),
            it.decrease() is Some,
        ensures
            key@ == lookup_key(file_ext@),
        decreases it.decrease()->0,
    {
        match it.next() {
            Some(c) => {
                proof {
                    seen = seen.push(c);
                }
                if !(first && c == '.') {
                    key.push(to_lower(c));
                }
                first = false;
            },
            None => {
                break ;
            },
        }
    }
    key
}

/// The grammar registered for `file_ext`, or `None` where none is. The
/// extension may come with or without its leading dot, in either case of
/// letters.
pub fn get_language(file_ext: &str) -> (found: Option<Language>)
    ensures
        match found {
            Some(language) => {
                &&& language_of(file_ext@) == Some(language@)
                &&& language@.well_formed()
                &&& language@.uses_registry_patterns()
            },
            None => language_of(file_ext@) is None,
        },
{
    let key = key_of(file_ext);
    let k = key.as_slice();
    if spells(k, "c") {
        Some(slash_language("C", ".c"))
    } else if spells(k, "h") {
        Some(slash_language("C", ".h"))
    } else if spells(k, "cpp") {
        Some(slash_language("C++", ".cpp"))
    } else if spells(k, "hpp") {
        Some(slash_language("C++", ".hpp"))
    } else if spells(k, "rs") {
        Some(slash_language("Rust", ".rs"))
    } else if spells(k, "asm") {
        Some(line_language("Assembly", ".asm", "^\\s*;"))
    } else if spells(k, "java") {
        Some(slash_language("Java", ".java"))
    } else if spells(k, "py") {
        Some(line_language("Python", ".py", "^\\s*#"))
    } else if spells(k, "js") {
        Some(slash_language("JavaScript", ".js"))
    } else if spells(k, "php") {
        Some(slash_language("PHP", ".php"))
    } else if spells(k, "rb") {
        Some(line_language("Ruby", ".rb", "^\\s*#"))
    } else if spells(k, "swift") {
        Some(slash_language("Swift", ".swift"))
    } else if spells(k, "go") {
        Some(slash_language("Go", ".go"))
    } else if spells(k, "dart") {
        Some(slash_language("Dart", ".dart"))
    } else if spells(k, "kt") {
        Some(slash_language("Kotlin", ".kt"))
    } else if spells(k, "pl") {
        Some(line_language("Perl", ".pl", "^\\s*#"))
    } else if spells(k, "erl") {
        Some(line_language("Erlang", ".erl", "^\\s*%"))
    } else {
        None
    }
}

} // verus!
