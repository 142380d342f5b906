//! The escaped-delimited line/cell grammar shared by the config file and the
//! listfile.
//!
//! A line is split on an unescaped separator character into cells and ends at
//! an unescaped CR, LF, CRLF or the end of input.  Within a cell, leading
//! whitespace is skipped, `\X` contributes the literal character `X` (never
//! subject to trimming or splitting), and unescaped trailing whitespace is
//! removed.  A line whose first cell begins with `#` is a comment and yields
//! no cells; a later cell beginning with `#` truncates the line there.  A
//! trailing backslash with nothing to escape is a grammar error.

use crate::strutil::{is_space, is_space_char, push_char};
use crate::LIST_SEPARATOR;
use vstd::prelude::*;
use vstd::string::StrSliceExecFns;
use vstd::string::StringExecFns;

verus! {

/// Faults in the line grammar itself.
#[derive(Debug, Clone, Copy, PartialEq, Eq)]
pub enum GrammarError {
    /// A backslash stood at the end of the input with nothing to escape.
    TrailingBackslash,
}

/// Cell whitespace: any Unicode whitespace except the line breaks CR and LF.
pub open spec fn is_cell_space(c: char) -> bool {
    is_space(c) && c != '\r' && c != '\n'
}

/// Characters that end a cell: line breaks and the separator.
pub open spec fn is_cell_break(c: char) -> bool {
    c == '\r' || c == '\n' || c == LIST_SEPARATOR
}

/// The input after its leading cell whitespace.
pub open spec fn spec_skip_cell_space(s: Seq<char>) -> Seq<char>
    decreases s.len(),
{
    if s.len() > 0 && is_cell_space(s[0]) {
        spec_skip_cell_space(s.skip(1))
    } else {
        s
    }
}

/// Decode one cell from `s`, which starts at (possible) cell content.
/// Returns the decoded content with unescaped trailing whitespace dropped,
/// and the rest of the input, which begins at the cell break that ended the
/// cell.  `None` stands for the trailing-backslash grammar error.
pub open spec fn spec_scan_cell(s: Seq<char>) -> Option<(Seq<char>, Seq<char>)>
    decreases s.len(),
{
    if s.len() == 0 || is_cell_break(s[0]) {
        Some((Seq::empty(), s))
    } else if s[0] == '\\' {
        if s.len() == 1 {
            None
        } else {
            match spec_scan_cell(s.skip(2)) {
                None => None,
                Some(t) => Some((seq![s[1]] + t.0, t.1)),
            }
        }
    } else {
        match spec_scan_cell(s.skip(1)) {
            None => None,
            Some(t) => Some(
                (
                    if t.0.len() > 0 || !is_space(s[0]) {
                        seq![s[0]] + t.0
                    } else {
                        Seq::empty()
                    },
                    t.1,
                ),
            ),
        }
    }
}

/// One whole cell: leading whitespace skipped, content decoded, unescaped
/// trailing whitespace removed.
pub open spec fn spec_parse_cell(s: Seq<char>) -> Option<(Seq<char>, Seq<char>)> {
    spec_scan_cell(spec_skip_cell_space(s))
}

pub proof fn lemma_skip_cell_space_len(s: Seq<char>)
    ensures
        spec_skip_cell_space(s).len() <= s.len(),
        s.len() > 0 && is_cell_space(s[0]) ==> spec_skip_cell_space(s).len() < s.len(),
    decreases s.len(),
{
    if s.len() > 0 && is_cell_space(s[0]) {
        lemma_skip_cell_space_len(s.skip(1));
    }
}

pub proof fn lemma_scan_cell_rest(s: Seq<char>)
    ensures
        spec_scan_cell(s) matches Some(t) ==> t.1.len() <= s.len() && (!(s.len() == 0
            || is_cell_break(s[0])) ==> t.1.len() < s.len()) && (t.0.len() > 0 ==> t.1.len()
            < s.len()),
    decreases s.len(),
{
    if s.len() == 0 || is_cell_break(s[0]) {
    } else if s[0] == '\\' {
        if s.len() > 1 {
            lemma_scan_cell_rest(s.skip(2));
        }
    } else {
        lemma_scan_cell_rest(s.skip(1));
    }
}

pub proof fn lemma_parse_cell_rest(s: Seq<char>)
    ensures
        spec_parse_cell(s) matches Some(t) ==> t.1.len() <= s.len() && (t.0.len() > 0
            ==> t.1.len() < s.len()),
{
    lemma_skip_cell_space_len(s);
    lemma_scan_cell_rest(spec_skip_cell_space(s));
}

/// Skip leading cell whitespace.
fn skip_whitespace<'a>(input: &'a str) -> (r: &'a str)
    ensures
        r@ == spec_skip_cell_space(input@),
    decreases input@.len(),
{
    let n = input.unicode_len();
    if n > 0 {
        let c = input.get_char(0);
        if is_space_char(c) && c != '\r' && c != '\n' {
            proof {
                assert(input@.subrange(1, n as int) =~= input@.skip(1));
            }
            return skip_whitespace(input.substring_char(1, n));
        }
    }
    input
}

fn scan_cell<'a>(input: &'a str) -> (r: Result<(String, &'a str), GrammarError>)
    ensures
        match spec_scan_cell(input@) {
            Some(t) => r matches Ok(p) && p.0@ == t.0 && p.1@ == t.1,
            None => r matches Err(GrammarError::TrailingBackslash),
        },
    decreases input@.len(),
{
    let n = input.unicode_len();
    if n == 0 {
        return Ok((String::new(), input));
    }
    let c = input.get_char(0);
    if c == '\r' || c == '\n' || c == LIST_SEPARATOR {
        return Ok((String::new(), input));
    }
    if c == '\\' {
        if n == 1 {
            return Err(GrammarError::TrailingBackslash);
        }
        let e = input.get_char(1);
        proof {
            assert(input@.subrange(2, n as int) =~= input@.skip(2));
        }
        match scan_cell(input.substring_char(2, n)) {
            Ok((tail, rest)) => {
                let mut cell = String::new();
                push_char(&mut cell, e);
                cell.append(tail.as_str());
                proof {
                    assert(cell@ =~= seq![input@[1]] + tail@);
                }
                Ok((cell, rest))
            },
            Err(err) => Err(err),
        }
    } else {
        proof {
            assert(input@.subrange(1, n as int) =~= input@.skip(1));
        }
        match scan_cell(input.substring_char(1, n)) {
            Ok((tail, rest)) => {
                if tail.as_str().unicode_len() > 0 || !is_space_char(c) {
                    let mut cell = String::new();
                    push_char(&mut cell, c);
                    cell.append(tail.as_str());
                    proof {
                        assert(cell@ =~= seq![input@[0]] + tail@);
                    }
                    Ok((cell, rest))
                } else {
                    Ok((String::new(), rest))
                }
            },
            Err(err) => Err(err),
        }
    }
}

/// Parse a single cell from a configuration or listfile line.
///
/// Leading whitespace is skipped; `\X` contributes the literal `X`, which is
/// never trimmed; the cell ends at the first unescaped CR, LF or separator,
/// or at the end of input; unescaped trailing whitespace is removed.  A
/// backslash with nothing after it is a grammar error.
pub fn parse_config_cell<'a>(input: &'a str) -> (r: Result<(String, &'a str), GrammarError>)
    ensures
        match spec_parse_cell(input@) {
            Some(t) => r matches Ok(p) && p.0@ == t.0 && p.1@ == t.1,
            None => r matches Err(GrammarError::TrailingBackslash),
        },
{
    scan_cell(skip_whitespace(input))
}

/// The input from its first CR or LF onward; empty when it has none.
pub open spec fn spec_to_eol(s: Seq<char>) -> Seq<char>
    decreases s.len(),
{
    if s.len() == 0 || s[0] == '\r' || s[0] == '\n' {
        s
    } else {
        spec_to_eol(s.skip(1))
    }
}

/// Consume one leading line terminator: CRLF, CR, or LF.
pub open spec fn spec_consume_eol(s: Seq<char>) -> Seq<char> {
    if s.len() >= 2 && s[0] == '\r' && s[1] == '\n' {
        s.skip(2)
    } else if s.len() >= 1 && (s[0] == '\r' || s[0] == '\n') {
        s.skip(1)
    } else {
        s
    }
}

pub proof fn lemma_to_eol_len(s: Seq<char>)
    ensures
        spec_to_eol(s).len() <= s.len(),
        spec_to_eol(s).len() > 0 ==> spec_to_eol(s)[0] == '\r' || spec_to_eol(s)[0] == '\n',
    decreases s.len(),
{
    if !(s.len() == 0 || s[0] == '\r' || s[0] == '\n') {
        lemma_to_eol_len(s.skip(1));
    }
}

pub proof fn lemma_consume_eol_len(s: Seq<char>)
    ensures
        spec_consume_eol(s).len() <= s.len(),
        s.len() > 0 && (s[0] == '\r' || s[0] == '\n') ==> spec_consume_eol(s).len() < s.len(),
{
}

/// Cells after the first on a line: each is introduced by a separator.  A
/// cell beginning with `#` truncates the line; the rest of the physical line
/// and its terminator are consumed and discarded.  Returns the cells and the
/// input after the line's terminator.
pub open spec fn spec_parse_more_cells(s: Seq<char>) -> Option<(Seq<Seq<char>>, Seq<char>)>
    decreases s.len(),
    via spec_parse_more_cells_decreases
{
    if s.len() > 0 && s[0] == LIST_SEPARATOR {
        match spec_parse_cell(s.skip(1)) {
            None => None,
            Some(t) => {
                if t.0.len() > 0 && t.0[0] == '#' {
                    Some((Seq::empty(), spec_consume_eol(spec_to_eol(t.1))))
                } else {
                    match spec_parse_more_cells(t.1) {
                        None => None,
                        Some(u) => Some((seq![t.0] + u.0, u.1)),
                    }
                }
            },
        }
    } else {
        Some((Seq::empty(), spec_consume_eol(s)))
    }
}

#[via_fn]
proof fn spec_parse_more_cells_decreases(s: Seq<char>) {
    if s.len() > 0 && s[0] == LIST_SEPARATOR {
        lemma_parse_cell_rest(s.skip(1));
    }
}

pub proof fn lemma_more_cells_rest(s: Seq<char>)
    ensures
        spec_parse_more_cells(s) matches Some(u) ==> u.1.len() <= s.len() && (s.len() > 0
            && s[0] == LIST_SEPARATOR ==> u.1.len() < s.len()),
    decreases s.len(),
{
    if s.len() > 0 && s[0] == LIST_SEPARATOR {
        lemma_parse_cell_rest(s.skip(1));
        match spec_parse_cell(s.skip(1)) {
            None => {},
            Some(t) => {
                lemma_to_eol_len(t.1);
                lemma_consume_eol_len(spec_to_eol(t.1));
                lemma_more_cells_rest(t.1);
            },
        }
    } else {
        lemma_consume_eol_len(s);
    }
}

/// Parse one line: a first cell, then separator-introduced cells, then the
/// line terminator, which is consumed.  A line whose first cell begins with
/// `#` is a comment: it is consumed whole and yields no cells.  Empty input
/// yields no cells.
pub open spec fn spec_parse_line(s: Seq<char>) -> Option<(Seq<Seq<char>>, Seq<char>)> {
    if s.len() == 0 {
        Some((Seq::empty(), s))
    } else {
        match spec_parse_cell(s) {
            None => None,
            Some(t) => {
                if t.0.len() > 0 && t.0[0] == '#' {
                    Some((Seq::empty(), spec_consume_eol(spec_to_eol(t.1))))
                } else {
                    match spec_parse_more_cells(t.1) {
                        None => None,
                        Some(u) => Some((seq![t.0] + u.0, u.1)),
                    }
                }
            },
        }
    }
}

pub proof fn lemma_skip_cell_space_eq(s: Seq<char>)
    ensures
        spec_skip_cell_space(s).len() == s.len() ==> spec_skip_cell_space(s) == s,
    decreases s.len(),
{
    if s.len() > 0 && is_cell_space(s[0]) {
        lemma_skip_cell_space_len(s.skip(1));
    }
}

/// Parsing a non-empty line always consumes at least one character.
pub proof fn lemma_parse_line_progress(s: Seq<char>)
    ensures
        spec_parse_line(s) matches Some(t) ==> t.1.len() <= s.len() && (s.len() > 0
            ==> t.1.len() < s.len()),
{
    lemma_parse_cell_rest(s);
    if s.len() > 0 {
        match spec_parse_cell(s) {
            None => {},
            Some(t) => {
                lemma_to_eol_len(t.1);
                lemma_consume_eol_len(spec_to_eol(t.1));
                lemma_more_cells_rest(t.1);
                if !(t.0.len() > 0 && t.0[0] == '#') {
                    if t.1.len() == s.len() {
                        // The first cell consumed nothing, so the input began
                        // directly at a cell break.
                        lemma_skip_cell_space_len(s);
                        lemma_skip_cell_space_eq(s);
                        lemma_scan_cell_rest(spec_skip_cell_space(s));
                        assert(is_cell_break(s[0]));
                    }
                }
            },
        }
    }
}

fn slice_to_eol<'a>(input: &'a str) -> (r: &'a str)
    ensures
        r@ == spec_to_eol(input@),
    decreases input@.len(),
{
    let n = input.unicode_len();
    if n == 0 {
        return input;
    }
    let c = input.get_char(0);
    if c == '\r' || c == '\n' {
        return input;
    }
    proof {
        assert(input@.subrange(1, n as int) =~= input@.skip(1));
    }
    slice_to_eol(input.substring_char(1, n))
}

fn consume_eol<'a>(input: &'a str) -> (r: &'a str)
    ensures
        r@ == spec_consume_eol(input@),
{
    let n = input.unicode_len();
    if n >= 2 && input.get_char(0) == '\r' && input.get_char(1) == '\n' {
        proof {
            assert(input@.subrange(2, n as int) =~= input@.skip(2));
        }
        input.substring_char(2, n)
    } else if n >= 1 && (input.get_char(0) == '\r' || input.get_char(0) == '\n') {
        proof {
            assert(input@.subrange(1, n as int) =~= input@.skip(1));
        }
        input.substring_char(1, n)
    } else {
        input
    }
}

fn parse_more_cells<'a>(input: &'a str) -> (r: Result<(Vec<String>, &'a str), GrammarError>)
    ensures
        match spec_parse_more_cells(input@) {
            Some(u) => r matches Ok(p) && p.0.deep_view() == u.0 && p.1@ == u.1,
            None => r matches Err(GrammarError::TrailingBackslash),
        },
    decreases input@.len(),
{
    let n = input.unicode_len();
    if n > 0 && input.get_char(0) == LIST_SEPARATOR {
        proof {
            assert(input@.subrange(1, n as int) =~= input@.skip(1));
        }
        match parse_config_cell(input.substring_char(1, n)) {
            Err(e) => Err(e),
            Ok((cell, rest)) => {
                let clen = cell.as_str().unicode_len();
                if clen > 0 && cell.as_str().get_char(0) == '#' {
                    let fin = consume_eol(slice_to_eol(rest));
                    let cells: Vec<String> = Vec::new();
                    proof {
                        assert(cells.deep_view() =~= Seq::<Seq<char>>::empty());
                    }
                    Ok((cells, fin))
                } else {
                    proof {
                        lemma_parse_cell_rest(input@.skip(1));
                    }
                    match parse_more_cells(rest) {
                        Err(e) => Err(e),
                        Ok((mut cells, fin)) => {
                            cells.insert(0, cell);
                            proof {
                                let t = spec_parse_cell(input@.skip(1)).unwrap();
                                let u = spec_parse_more_cells(t.1).unwrap();
                                assert(cells.deep_view() =~= seq![t.0] + u.0);
                            }
                            Ok((cells, fin))
                        },
                    }
                }
            },
        }
    } else {
        let fin = consume_eol(input);
        let cells: Vec<String> = Vec::new();
        proof {
            assert(cells.deep_view() =~= Seq::<Seq<char>>::empty());
        }
        Ok((cells, fin))
    }
}

/// Parse a line into its cells and the remaining input.
///
/// The line's cells are split on unescaped separators; the line ends at an
/// unescaped CR, LF, CRLF (consumed) or the end of input.  A comment line
/// yields no cells; a `#` cell later in the line truncates it there.
pub fn parse_config_line<'a>(input: &'a str) -> (r: Result<(Vec<String>, &'a str), GrammarError>)
    ensures
        match spec_parse_line(input@) {
            Some(t) => r matches Ok(p) && p.0.deep_view() == t.0 && p.1@ == t.1,
            None => r matches Err(GrammarError::TrailingBackslash),
        },
{
    let n = input.unicode_len();
    if n == 0 {
        let cells: Vec<String> = Vec::new();
        proof {
            assert(cells.deep_view() =~= Seq::<Seq<char>>::empty());
        }
        return Ok((cells, input));
    }
    match parse_config_cell(input) {
        Err(e) => Err(e),
        Ok((first, rest)) => {
            let flen = first.as_str().unicode_len();
            if flen > 0 && first.as_str().get_char(0) == '#' {
                let fin = consume_eol(slice_to_eol(rest));
                let cells: Vec<String> = Vec::new();
                proof {
                    assert(cells.deep_view() =~= Seq::<Seq<char>>::empty());
                }
                Ok((cells, fin))
            } else {
                match parse_more_cells(rest) {
                    Err(e) => Err(e),
                    Ok((mut cells, fin)) => {
                        cells.insert(0, first);
                        proof {
                            let t = spec_parse_cell(input@).unwrap();
                            let u = spec_parse_more_cells(t.1).unwrap();
                            assert(cells.deep_view() =~= seq![t.0] + u.0);
                        }
                        Ok((cells, fin))
                    },
                }
            }
        },
    }
}

/// `r` is a literal suffix of `s`.
pub open spec fn spec_is_suffix(r: Seq<char>, s: Seq<char>) -> bool {
    r.len() <= s.len() && r == s.skip(s.len() - r.len())
}

proof fn lemma_suffix_trans(a: Seq<char>, b: Seq<char>, c: Seq<char>)
    requires
        spec_is_suffix(a, b),
        spec_is_suffix(b, c),
    ensures
        spec_is_suffix(a, c),
{
    assert(a =~= c.skip(c.len() - a.len()));
}

proof fn lemma_skip_is_suffix(s: Seq<char>, k: int)
    requires
        0 <= k <= s.len(),
    ensures
        spec_is_suffix(s.skip(k), s),
{
    assert(s.skip(k) =~= s.skip(s.len() - s.skip(k).len()));
}

proof fn lemma_skip_cell_space_suffix(s: Seq<char>)
    ensures
        spec_is_suffix(spec_skip_cell_space(s), s),
    decreases s.len(),
{
    if s.len() > 0 && is_cell_space(s[0]) {
        lemma_skip_cell_space_suffix(s.skip(1));
        lemma_skip_is_suffix(s, 1);
        lemma_suffix_trans(spec_skip_cell_space(s.skip(1)), s.skip(1), s);
    } else {
        lemma_skip_is_suffix(s, 0);
        assert(s.skip(0) =~= s);
    }
}

proof fn lemma_scan_cell_suffix(s: Seq<char>)
    ensures
        spec_scan_cell(s) matches Some(t) ==> spec_is_suffix(t.1, s),
    decreases s.len(),
{
    if s.len() == 0 || is_cell_break(s[0]) {
        lemma_skip_is_suffix(s, 0);
        assert(s.skip(0) =~= s);
    } else if s[0] == '\\' {
        if s.len() > 1 {
            lemma_scan_cell_suffix(s.skip(2));
            lemma_skip_is_suffix(s, 2);
            if let Some(t) = spec_scan_cell(s.skip(2)) {
                lemma_suffix_trans(t.1, s.skip(2), s);
            }
        }
    } else {
        lemma_scan_cell_suffix(s.skip(1));
        lemma_skip_is_suffix(s, 1);
        if let Some(t) = spec_scan_cell(s.skip(1)) {
            lemma_suffix_trans(t.1, s.skip(1), s);
        }
    }
}

proof fn lemma_parse_cell_suffix(s: Seq<char>)
    ensures
        spec_parse_cell(s) matches Some(t) ==> spec_is_suffix(t.1, s),
{
    lemma_skip_cell_space_suffix(s);
    lemma_scan_cell_suffix(spec_skip_cell_space(s));
    if let Some(t) = spec_parse_cell(s) {
        lemma_suffix_trans(t.1, spec_skip_cell_space(s), s);
    }
}

proof fn lemma_to_eol_suffix(s: Seq<char>)
    ensures
        spec_is_suffix(spec_to_eol(s), s),
    decreases s.len(),
{
    if s.len() == 0 || s[0] == '\r' || s[0] == '\n' {
        lemma_skip_is_suffix(s, 0);
        assert(s.skip(0) =~= s);
    } else {
        lemma_to_eol_suffix(s.skip(1));
        lemma_skip_is_suffix(s, 1);
        lemma_suffix_trans(spec_to_eol(s.skip(1)), s.skip(1), s);
    }
}

proof fn lemma_consume_eol_suffix(s: Seq<char>)
    ensures
        spec_is_suffix(spec_consume_eol(s), s),
{
    if s.len() >= 2 && s[0] == '\r' && s[1] == '\n' {
        lemma_skip_is_suffix(s, 2);
    } else if s.len() >= 1 && (s[0] == '\r' || s[0] == '\n') {
        lemma_skip_is_suffix(s, 1);
    } else {
        lemma_skip_is_suffix(s, 0);
        assert(s.skip(0) =~= s);
    }
}

proof fn lemma_more_cells_suffix(s: Seq<char>)
    ensures
        spec_parse_more_cells(s) matches Some(u) ==> spec_is_suffix(u.1, s),
    decreases s.len(),
{
    if s.len() > 0 && s[0] == LIST_SEPARATOR {
        lemma_parse_cell_rest(s.skip(1));
        lemma_parse_cell_suffix(s.skip(1));
        lemma_skip_is_suffix(s, 1);
        match spec_parse_cell(s.skip(1)) {
            None => {},
            Some(t) => {
                lemma_suffix_trans(t.1, s.skip(1), s);
                if t.0.len() > 0 && t.0[0] == '#' {
                    lemma_to_eol_suffix(t.1);
                    lemma_consume_eol_suffix(spec_to_eol(t.1));
                    lemma_suffix_trans(spec_consume_eol(spec_to_eol(t.1)), spec_to_eol(t.1), t.1);
                    lemma_suffix_trans(spec_consume_eol(spec_to_eol(t.1)), t.1, s);
                } else {
                    lemma_more_cells_suffix(t.1);
                    if let Some(u) = spec_parse_more_cells(t.1) {
                        lemma_suffix_trans(u.1, t.1, s);
                    }
                }
            },
        }
    } else {
        lemma_consume_eol_suffix(s);
    }
}

/// What a line parse leaves over is a literal suffix of its input.
pub proof fn lemma_parse_line_suffix(s: Seq<char>)
    ensures
        spec_parse_line(s) matches Some(t) ==> spec_is_suffix(t.1, s),
{
    if s.len() == 0 {
        lemma_skip_is_suffix(s, 0);
        assert(s.skip(0) =~= s);
    } else {
        lemma_parse_cell_suffix(s);
        match spec_parse_cell(s) {
            None => {},
            Some(t) => {
                if t.0.len() > 0 && t.0[0] == '#' {
                    lemma_to_eol_suffix(t.1);
                    lemma_consume_eol_suffix(spec_to_eol(t.1));
                    lemma_suffix_trans(spec_consume_eol(spec_to_eol(t.1)), spec_to_eol(t.1), t.1);
                    lemma_suffix_trans(spec_consume_eol(spec_to_eol(t.1)), t.1, s);
                } else {
                    lemma_more_cells_suffix(t.1);
                    if let Some(u) = spec_parse_more_cells(t.1) {
                        lemma_suffix_trans(u.1, t.1, s);
                    }
                }
            },
        }
    }
}

/// `s` with a backslash before every character.
pub open spec fn spec_escape_cell(s: Seq<char>) -> Seq<char>
    decreases s.len(),
{
    if s.len() == 0 {
        s
    } else {
        seq!['\\', s[0]] + spec_escape_cell(s.skip(1))
    }
}

/// Escape `s` so that the tokenizer reproduces it exactly: every character
/// is preceded by a backslash, so separators, comment markers, backslashes,
/// whitespace and line breaks all lose their special meaning.
pub fn escape_cell(s: &str) -> (r: String)
    ensures
        r@ == spec_escape_cell(s@),
    decreases s@.len(),
{
    let n = s.unicode_len();
    if n == 0 {
        return String::new();
    }
    let c = s.get_char(0);
    proof {
        assert(s@.subrange(1, n as int) =~= s@.skip(1));
    }
    let tail = escape_cell(s.substring_char(1, n));
    let mut out = String::new();
    push_char(&mut out, '\\');
    push_char(&mut out, c);
    out.append(tail.as_str());
    proof {
        assert(out@ =~= seq!['\\', s@[0]] + tail@);
    }
    out
}

proof fn lemma_escape_scan(s: Seq<char>)
    ensures
        spec_scan_cell(spec_escape_cell(s)) matches Some(t) && t.0 == s && t.1 == Seq::<
            char,
        >::empty(),
    decreases s.len(),
{
    if s.len() == 0 {
        assert(spec_escape_cell(s).len() == 0);
    } else {
        let e = spec_escape_cell(s);
        lemma_escape_scan(s.skip(1));
        assert(e.skip(2) =~= spec_escape_cell(s.skip(1)));
        let t = spec_scan_cell(e.skip(2)).unwrap();
        assert(seq![e[1]] + t.0 =~= s);
    }
}

/// Law: escaping any string and tokenizing the result yields back exactly the
/// original content as one cell, consuming the whole input.  In particular,
/// content holding the separator, the backslash or the comment marker makes
/// the round trip unchanged.
pub proof fn lemma_escape_round_trip(s: Seq<char>)
    ensures
        spec_parse_cell(spec_escape_cell(s)) matches Some(t) && t.0 == s && t.1 == Seq::<
            char,
        >::empty(),
{
    let e = spec_escape_cell(s);
    if s.len() > 0 {
        assert(e[0] == '\\');
        assert(!is_cell_space(e[0]));
    }
    assert(spec_skip_cell_space(e) == e);
    lemma_escape_scan(s);
}

/// A parse result without content: a comment or empty line (no cells), or a
/// whitespace-only line (a single empty cell).
pub open spec fn spec_blank_line(cells: Seq<Seq<char>>) -> bool {
    cells.len() == 0 || (cells.len() == 1 && cells[0].len() == 0)
}

/// The next line of `s` that carries content; blank and comment lines are
/// passed over.  `None` means the input is exhausted.
pub open spec fn spec_next_line(s: Seq<char>) -> Option<
    Result<(Seq<Seq<char>>, Seq<char>), GrammarError>,
>
    decreases s.len(),
    via spec_next_line_decreases
{
    if s.len() == 0 {
        None
    } else {
        match spec_parse_line(s) {
            None => Some(Err(GrammarError::TrailingBackslash)),
            Some(t) => if spec_blank_line(t.0) {
                spec_next_line(t.1)
            } else {
                Some(Ok(t))
            },
        }
    }
}

#[via_fn]
proof fn spec_next_line_decreases(s: Seq<char>) {
    if s.len() > 0 {
        lemma_parse_line_progress(s);
    }
}

/// Iterator over the meaningful lines of configuration or listfile text.
pub struct ConfigLineIterator {
    content: String,
    position: usize,
}

impl ConfigLineIterator {
    /// The characters not yet consumed.
    pub closed spec fn remaining(self) -> Seq<char> {
        self.content@.skip(self.position as int)
    }

    /// The iterator's position lies inside its content.
    pub closed spec fn wf(self) -> bool {
        self.position <= self.content@.len()
    }

    /// Create an iterator over the lines of `content`.
    pub fn from_string(content: String) -> (r: Self)
        ensures
            r.wf(),
            r.remaining() == content@,
    {
        let r = ConfigLineIterator { content, position: 0 };
        proof {
            assert(r.content@.skip(0) =~= r.content@);
        }
        r
    }

    /// Draw the next meaningful line; comment and whitespace-only lines are
    /// passed over.  `None` means the input is exhausted.
    pub fn next_line(&mut self) -> (r: Option<Result<Vec<String>, GrammarError>>)
        requires
            old(self).wf(),
        ensures
            final(self).wf(),
            match spec_next_line(old(self).remaining()) {
                None => r is None,
                Some(Err(e)) => r matches Some(Err(e2)) && e2 == e,
                Some(Ok(t)) => (r matches Some(Ok(cells)) && cells.deep_view() == t.0)
                    && final(self).remaining() == t.1,
            },
    {
        loop
            invariant
                self.wf(),
                spec_next_line(self.remaining()) == spec_next_line(old(self).remaining()),
            decreases self.remaining().len(),
        {
            let n = self.content.as_str().unicode_len();
            if self.position >= n {
                return None;
            }
            let rem = self.content.as_str().substring_char(self.position, n);
            proof {
                assert(rem@ =~= self.remaining());
                lemma_parse_line_progress(rem@);
                lemma_parse_line_suffix(rem@);
            }
            match parse_config_line(rem) {
                Err(e) => {
                    return Some(Err(e));
                },
                Ok((cells, rest)) => {
                    let restn = rest.unicode_len();
                    let consumed = (n - self.position) - restn;
                    proof {
                        let t = spec_parse_line(rem@).unwrap();
                        assert(t.1 == rem@.skip(rem@.len() - t.1.len()));
                        assert(self.content@.skip(self.position + consumed) =~= rem@.skip(
                            consumed as int,
                        ));
                    }
                    self.position = self.position + consumed;
                    proof {
                        assert(self.remaining() == rest@);
                    }
                    let blank = if cells.len() == 0 {
                        true
                    } else if cells.len() == 1 {
                        let c0len = cells[0].as_str().unicode_len();
                        proof {
                            assert(cells.deep_view()[0] == cells@[0]@);
                        }
                        c0len == 0
                    } else {
                        false
                    };
                    if !blank {
                        return Some(Ok(cells));
                    }
                },
            }
        }
    }
}

} // verus!