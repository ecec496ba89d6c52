//! Counts the lines of source files: all of them, and those that are
//! neither blank nor comment. What is a comment is told by a grammar, which
//! is found by the file's extension.

pub mod classifier;
pub mod counter;
pub mod grammar;
pub mod line;
pub mod pattern;
pub mod text;

pub use classifier::{classify, Counters};
pub use counter::{count_lines, language_for_path};
pub use grammar::{get_language, Language};
pub use line::{classify_marks, LineClass, LineMarks};
pub use pattern::{Matchers, PatternError, PatternKind};
pub use text::{file_extension, is_blank};
