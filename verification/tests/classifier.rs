use loc_count::{classify, classify_marks, get_language, Counters, Language, LineClass, LineMarks, Matchers};

const KEYS: [&str; 17] = [
    "c", "h", "cpp", "hpp", "rs", "asm", "java", "py", "js", "php", "rb", "swift", "go", "dart",
    "kt", "pl", "erl",
];

fn matchers(key: &str) -> Matchers {
    Matchers::compile(&get_language(key).unwrap()).unwrap()
}

fn lines(texts: &[&str]) -> Vec<String> {
    texts.iter().map(|t| t.to_string()).collect()
}

fn counts(total_lines: usize, effective_lines: usize) -> Counters {
    Counters { total_lines, effective_lines }
}

fn marks(opens_block: bool, closes_block: bool, line_comment: bool, blank: bool) -> LineMarks {
    LineMarks { opens_block, closes_block, line_comment, blank }
}

#[test]
fn inside_a_block_only_the_end_counts() {
    for opens in [false, true] {
        for line_comment in [false, true] {
            for blank in [false, true] {
                assert_eq!(
                    classify_marks(true, marks(opens, false, line_comment, blank)),
                    LineClass::InsideBlock
                );
                assert_eq!(
                    classify_marks(true, marks(opens, true, line_comment, blank)),
                    LineClass::BlockEnd
                );
            }
        }
    }
}

#[test]
fn outside_a_block_the_start_goes_first() {
    for closes in [false, true] {
        for line_comment in [false, true] {
            for blank in [false, true] {
                assert_eq!(
                    classify_marks(false, marks(true, closes, line_comment, blank)),
                    LineClass::BlockStart
                );
            }
        }
        for blank in [false, true] {
            assert_eq!(
                classify_marks(false, marks(false, closes, true, blank)),
                LineClass::LineComment
            );
        }
        assert_eq!(classify_marks(false, marks(false, closes, false, true)), LineClass::Blank);
        assert_eq!(classify_marks(false, marks(false, closes, false, false)), LineClass::Code);
    }
}

#[test]
fn only_code_is_effective() {
    assert!(LineClass::Code.is_effective());
    for class in [
        LineClass::InsideBlock,
        LineClass::BlockEnd,
        LineClass::BlockStart,
        LineClass::LineComment,
        LineClass::Blank,
    ] {
        assert!(!class.is_effective());
    }
}

#[test]
fn the_block_stays_open_after_start_and_inside() {
    assert!(LineClass::BlockStart.leaves_block_open());
    assert!(LineClass::InsideBlock.leaves_block_open());
    for class in [LineClass::BlockEnd, LineClass::LineComment, LineClass::Blank, LineClass::Code] {
        assert!(!class.leaves_block_open());
    }
}

#[test]
fn marks_of_c_lines() {
    let c = matchers("c");
    assert_eq!(c.marks("int x = 1;"), marks(false, false, false, false));
    assert_eq!(c.marks("  // note"), marks(false, false, true, false));
    assert_eq!(c.marks("\t/* open"), marks(true, false, false, false));
    assert_eq!(c.marks("close */ x();"), marks(false, true, false, false));
    assert_eq!(c.marks("/* both */"), marks(true, true, false, false));
    assert_eq!(c.marks("   "), marks(false, false, false, true));
    assert_eq!(c.marks(""), marks(false, false, false, true));
    assert_eq!(c.marks("x(); // trailing"), marks(false, false, false, false));
    assert_eq!(c.marks("x(); /* trailing"), marks(true, false, false, false));
    assert_eq!(c.marks("// see /* there"), marks(true, false, true, false));
}

#[test]
fn marks_of_python_lines() {
    let py = matchers("py");
    assert_eq!(py.marks("# note"), marks(false, false, true, false));
    assert_eq!(py.marks("/* not python */"), marks(false, false, false, false));
    assert_eq!(py.marks("x = 1  # trailing"), marks(false, false, false, false));
}

#[test]
fn classify_line_carries_the_state() {
    let c = matchers("c");
    assert_eq!(c.classify_line(false, "/* open"), LineClass::BlockStart);
    assert_eq!(c.classify_line(true, "/* open"), LineClass::InsideBlock);
    assert_eq!(c.classify_line(true, "int x;"), LineClass::InsideBlock);
    assert_eq!(c.classify_line(true, "   "), LineClass::InsideBlock);
    assert_eq!(c.classify_line(true, "done */ int x;"), LineClass::BlockEnd);
    assert_eq!(c.classify_line(false, "done */ int x;"), LineClass::Code);
    assert_eq!(c.classify_line(false, "// note"), LineClass::LineComment);
    assert_eq!(c.classify_line(false, ""), LineClass::Blank);
    assert_eq!(c.classify_line(false, "int x;"), LineClass::Code);
}

#[test]
fn single_line_comments_in_c() {
    let file = lines(&["int x = 1;", "// comment", "", "int y = 2;"]);
    assert_eq!(matchers("c").count(&file), counts(4, 2));
}

#[test]
fn block_comment_spanning_lines() {
    let file = lines(&["/* start", "still inside", "end */", "code();"]);
    assert_eq!(matchers("c").count(&file), counts(4, 1));
}

#[test]
fn unterminated_block_comment() {
    let file = lines(&["/*", "never closes"]);
    assert_eq!(matchers("c").count(&file), counts(2, 0));
}

#[test]
fn python_has_no_block_comments() {
    let file = lines(&["x = 1", "# note", "   ", "y = 2"]);
    assert_eq!(matchers("py").count(&file), counts(4, 2));
}

#[test]
fn code_beside_a_marker_is_not_counted() {
    let file = lines(&["/* open */ int a;", "int b;", "*/ int c;", "int d;"]);
    // The first line opens a block although it closes it too; the block ends on the third.
    assert_eq!(matchers("c").count(&file), counts(4, 1));
}

#[test]
fn code_before_the_opening_marker_is_not_counted() {
    let file = lines(&["int x = 1; /* start", "still inside", "end */", "code();"]);
    assert_eq!(matchers("c").count(&file), counts(4, 1));
    let file = lines(&["int a; /* trailing", "int b;", "*/", "int c;"]);
    assert_eq!(matchers("c").count(&file), counts(4, 1));
}

#[test]
fn the_block_start_goes_before_the_line_comment() {
    let file = lines(&["// see /* there", "int a;", "*/", "int b;"]);
    assert_eq!(matchers("c").count(&file), counts(4, 1));
    let file = lines(&["// plain", "int a;"]);
    assert_eq!(matchers("c").count(&file), counts(2, 1));
}

#[test]
fn a_marker_inside_a_string_is_a_marker() {
    let file = lines(&["char *s = \"x\";", "  /* \"quoted\"", "puts(\"*/\");", "puts(s);"]);
    assert_eq!(matchers("c").count(&file), counts(4, 2));
}

#[test]
fn erlang_and_assembly() {
    let erlang = lines(&["-module(x).", "  % note", "%% more", "f() -> ok. % trailing"]);
    assert_eq!(matchers("erl").count(&erlang), counts(4, 2));
    let assembly = lines(&["; header", "mov eax, 1 ; one", "", "\t; indented", "ret"]);
    assert_eq!(matchers("asm").count(&assembly), counts(5, 2));
}

#[test]
fn a_grammar_without_markers_counts_every_line_that_is_not_blank() {
    let none = Matchers { single_comment: None, block_comment_start: None, block_comment_end: None };
    let file = lines(&["// a", "/* b", "", " \t", "*/", "# c"]);
    assert_eq!(none.count(&file), counts(6, 4));
}

#[test]
fn a_block_without_an_end_pattern_never_closes() {
    let c = matchers("c");
    let open_only =
        Matchers { single_comment: None, block_comment_start: c.block_comment_start, block_comment_end: None };
    let file = lines(&["a", "/*", "*/", "b"]);
    assert_eq!(open_only.count(&file), counts(4, 1));
}

#[test]
fn effective_lines_never_exceed_the_total() {
    let files = [
        lines(&[]),
        lines(&["a"]),
        lines(&["// a", "b", "/*", "c", "*/", "d", "", "e // f"]),
        lines(&["# a", "b", "% c", "; d", "*/", "/*", "/*", "*/ x"]),
    ];
    for key in KEYS {
        let m = matchers(key);
        for file in &files {
            let counted = m.count(file);
            assert_eq!(counted.total_lines, file.len());
            assert!(counted.effective_lines <= counted.total_lines);
        }
    }
}

#[test]
fn an_empty_file_counts_nothing_for_every_grammar() {
    for key in KEYS {
        assert_eq!(matchers(key).count(&[]), counts(0, 0), "{}", key);
        assert_eq!(classify(&get_language(key).unwrap(), &[]).unwrap(), counts(0, 0), "{}", key);
    }
}

#[test]
fn blank_lines_count_towards_the_total_only() {
    let file = lines(&["", " ", "\t\t", "\u{00A0}", "    \r"]);
    for key in KEYS {
        assert_eq!(matchers(key).count(&file), counts(5, 0), "{}", key);
        assert_eq!(classify(&get_language(key).unwrap(), &file).unwrap(), counts(5, 0), "{}", key);
    }
}

#[test]
fn classifying_twice_gives_the_same() {
    let file = lines(&["/* open", "inside", "int x;"]);
    let m = matchers("c");
    let first = m.count(&file);
    let second = m.count(&file);
    assert_eq!(first, counts(3, 0));
    assert_eq!(first, second);
    // The open block of one scan does not reach the next.
    let other = lines(&["int y;"]);
    assert_eq!(m.count(&other), counts(1, 1));
    assert_eq!(matchers("c").count(&file), first);
}

#[test]
fn zero_is_zero() {
    assert_eq!(Counters::zero(), counts(0, 0));
}

#[test]
fn counts_add_up() {
    assert_eq!(counts(4, 2).checked_add(counts(4, 1)), Some(counts(8, 3)));
    assert_eq!(counts(0, 0).checked_add(counts(7, 5)), Some(counts(7, 5)));
    assert_eq!(counts(usize::MAX - 1, 0).checked_add(counts(1, 0)), Some(counts(usize::MAX, 0)));
}

#[test]
fn a_sum_that_does_not_fit_is_none() {
    assert_eq!(counts(usize::MAX, 0).checked_add(counts(1, 0)), None);
    assert_eq!(counts(usize::MAX, usize::MAX).checked_add(counts(0, 1)), None);
    assert_eq!(counts(usize::MAX, 1).checked_add(counts(usize::MAX, 1)), None);
}

fn grammar(single: Option<&str>, start: Option<&str>, end: Option<&str>) -> Language {
    Language {
        name: "Test".to_string(),
        file_ext: ".test".to_string(),
        single_comment_pattern: single.map(|p| p.to_string()),
        block_comment_start_pattern: start.map(|p| p.to_string()),
        block_comment_end_pattern: end.map(|p| p.to_string()),
    }
}

#[test]
fn classify_compiles_and_counts() {
    let file = lines(&["<p>", "<!-- note", "more", "-->", "", "</p>"]);
    let html = grammar(None, Some("^\\s*<!--"), Some("-->"));
    assert_eq!(classify(&html, &file).unwrap(), counts(6, 2));
    let c = get_language("c").unwrap();
    assert_eq!(classify(&c, &lines(&["int x;", "// y", "/* z", "*/", "w"])).unwrap(), counts(5, 2));
}

#[test]
fn classify_without_patterns_cannot_fail() {
    let file = lines(&["a", "", "// b"]);
    assert_eq!(classify(&grammar(None, None, None), &file).unwrap(), counts(3, 2));
}

#[test]
fn classify_names_the_pattern_that_does_not_compile() {
    let file = lines(&["a"]);
    let error = classify(&grammar(Some("^#"), Some("(("), Some("\\)")), &file).err().unwrap();
    assert_eq!(error.kind, loc_count::PatternKind::BlockCommentStart);
    let error = classify(&grammar(Some("*"), None, None), &[]).err().unwrap();
    assert_eq!(error.kind, loc_count::PatternKind::SingleComment);
}

#[test]
fn a_grammar_whose_blocks_open_at_the_start_of_a_line_only() {
    let strict = grammar(Some("^\\s*//"), Some("^\\s*/\\*"), Some("\\*/"));
    let file = lines(&["int a; /* trailing", "int b;", "*/", "  // indented", "int c;"]);
    assert_eq!(classify(&strict, &file).unwrap(), counts(5, 4));
    // The registered grammar opens the block on the first line.
    let registered = get_language("c").unwrap();
    assert_eq!(classify(&registered, &file).unwrap(), counts(5, 1));
    // To a grammar whose line comments must begin the line, an indented `//` is code.
    let flush = grammar(Some("^//"), Some("/\\*"), Some("\\*/"));
    assert_eq!(classify(&flush, &file).unwrap(), counts(5, 2));
    assert_eq!(classify(&flush, &lines(&["  // indented", "// flush"])).unwrap(), counts(2, 1));
}

#[test]
fn a_long_file() {
    let mut file: Vec<String> = Vec::new();
    for i in 0..30000 {
        file.push(format!("x{} = {};", i, i));
        file.push("  // note".to_string());
        file.push(String::new());
    }
    assert_eq!(classify(&get_language("js").unwrap(), &file).unwrap(), counts(90000, 30000));
}
