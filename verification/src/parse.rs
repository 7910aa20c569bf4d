//! The line-oriented INI dialect of `profiles.ini`, as a mathematical
//! grammar over character sequences, and the verified parser for it.
//!
//! A document is a sequence of lines separated by `'\n'`. After trimming
//! surrounding whitespace, a line is blank (ignored), a comment starting
//! with `;` or `#` (ignored), a header `[Name]` opening a new section, or a
//! `key = value` entry added to the current section. Content before the
//! first header belongs to an anonymous section. A line that opens a header
//! without closing it, or that is none of the above and has no `=`, is a
//! syntax error.

use vstd::prelude::*;
use vstd::string::*;

use crate::document::{Document, Section, SpecSection};
use crate::errors::IniSyntaxError;

verus! {

/// The whitespace trimmed around tokens: blanks, tabs, and the carriage
/// return that a Windows line ending leaves before `'\n'`.
pub open spec fn is_ws(c: char) -> bool {
    c == ' ' || c == '\t' || c == '\r'
}

/// Index of the first occurrence of `c` in `s`, or `s.len()` if absent.
pub open spec fn find_ch(s: Seq<char>, c: char) -> nat
    decreases s.len(),
{
    if s.len() == 0 {
        0
    } else if s[0] == c {
        0
    } else {
        (1 + find_ch(s.drop_first(), c)) as nat
    }
}

/// `find_ch` returns exactly the position `k` before which `c` does not
/// occur and at which it stands, or `s.len()` when `c` is absent.
pub proof fn lemma_find_ch(s: Seq<char>, c: char, k: int)
    requires
        0 <= k <= s.len(),
        forall|j: int| 0 <= j < k ==> s[j] != c,
        k < s.len() ==> s[k] == c,
    ensures
        find_ch(s, c) == k,
    decreases s.len(),
{
    if k == 0 {
        if s.len() > 0 {
            assert(s[0] == c);
        }
    } else {
        assert(s[0] != c);
        lemma_find_ch(s.drop_first(), c, k - 1);
    }
}

/// `s` without its leading whitespace.
pub open spec fn spec_trim_start(s: Seq<char>) -> Seq<char>
    decreases s.len(),
{
    if s.len() > 0 && is_ws(s[0]) {
        spec_trim_start(s.drop_first())
    } else {
        s
    }
}

/// `s` without its trailing whitespace.
pub open spec fn spec_trim_end(s: Seq<char>) -> Seq<char>
    decreases s.len(),
{
    if s.len() > 0 && is_ws(s.last()) {
        spec_trim_end(s.drop_last())
    } else {
        s
    }
}

/// `s` without surrounding whitespace.
pub open spec fn spec_trim(s: Seq<char>) -> Seq<char> {
    spec_trim_end(spec_trim_start(s))
}

/// Dropping the leading whitespace is the same as skipping to the first
/// non-whitespace position `k`.
pub proof fn lemma_trim_start(s: Seq<char>, k: int)
    requires
        0 <= k <= s.len(),
        forall|j: int| 0 <= j < k ==> is_ws(s[j]),
        k < s.len() ==> !is_ws(s[k]),
    ensures
        spec_trim_start(s) == s.skip(k),
    decreases s.len(),
{
    if k == 0 {
        assert(s.skip(0) =~= s);
    } else {
        assert(is_ws(s[0]));
        lemma_trim_start(s.drop_first(), k - 1);
        assert(s.drop_first().skip(k - 1) =~= s.skip(k));
    }
}

/// Dropping the trailing whitespace is the same as keeping the prefix up to
/// the last non-whitespace position `k - 1`.
pub proof fn lemma_trim_end(s: Seq<char>, k: int)
    requires
        0 <= k <= s.len(),
        forall|j: int| k <= j < s.len() ==> is_ws(s[j]),
        k > 0 ==> !is_ws(s[k - 1]),
    ensures
        spec_trim_end(s) == s.take(k),
    decreases s.len(),
{
    if k == s.len() {
        assert(s.take(k) =~= s);
    } else {
        assert(is_ws(s.last()));
        lemma_trim_end(s.drop_last(), k);
        assert(s.drop_last().take(k) =~= s.take(k));
    }
}

/// The lines of `s`, split on `'\n'`. Text without a newline is a single
/// line, so the empty text is one empty line.
pub open spec fn spec_lines(s: Seq<char>) -> Seq<Seq<char>>
    decreases s.len(),
{
    let i = find_ch(s, '\n');
    if i >= s.len() {
        seq![s]
    } else {
        seq![s.take(i as int)] + spec_lines(s.skip(i as int + 1))
    }
}

/// Whether `c` is trimmed around tokens.
fn is_ws_char(c: char) -> (b: bool)
    ensures
        b == is_ws(c),
{
    c == ' ' || c == '\t' || c == '\r'
}

/// Removes the surrounding whitespace of `s`.
fn trim_str(s: &str) -> (r: String)
    ensures
        r@ == spec_trim(s@),
{
    let n = s.unicode_len();
    let mut lo: usize = 0;
    while lo < n && is_ws_char(s.get_char(lo))
        invariant
            lo <= n,
            n == s@.len(),
            forall|j: int| 0 <= j < lo ==> is_ws(s@[j]),
        decreases n - lo,
    {
        lo = lo + 1;
    }
    let mut hi: usize = n;
    while hi > lo && is_ws_char(s.get_char(hi - 1))
        invariant
            lo <= hi <= n,
            n == s@.len(),
            forall|j: int| hi <= j < n ==> is_ws(s@[j]),
        decreases hi,
    {
        hi = hi - 1;
    }
    proof {
        lemma_trim_start(s@, lo as int);
        lemma_trim_end(s@.skip(lo as int), hi - lo);
        assert(s@.skip(lo as int).take(hi - lo) =~= s@.subrange(lo as int, hi as int));
    }
    String::from_str(s.substring_char(lo, hi))
}

/// Splits `text` into its lines, in order.
fn split_lines(text: &str) -> (r: Vec<String>)
    ensures
        r.deep_view() == spec_lines(text@),
{
    let n = text.unicode_len();
    let mut lines: Vec<String> = Vec::new();
    let mut start: usize = 0;
    let mut i: usize = 0;
    proof {
        assert(lines.deep_view() =~= Seq::<Seq<char>>::empty());
        assert(text@.skip(0) =~= text@);
        assert(Seq::<Seq<char>>::empty() + spec_lines(text@) =~= spec_lines(text@));
    }
    while i < n
        invariant
            start <= i <= n,
            n == text@.len(),
            forall|j: int| start <= j < i ==> text@[j] != '\n',
            spec_lines(text@) == lines.deep_view() + spec_lines(text@.skip(start as int)),
        decreases n - i,
    {
        if text.get_char(i) == '\n' {
            let line = String::from_str(text.substring_char(start, i));
            let ghost old_dv = lines.deep_view();
            proof {
                lemma_find_ch(text@.skip(start as int), '\n', i - start);
                assert(text@.skip(start as int).take(i - start) =~= text@.subrange(
                    start as int,
                    i as int,
                ));
                assert(text@.skip(start as int).skip(i - start + 1) =~= text@.skip(i + 1));
            }
            lines.push(line);
            proof {
                assert(lines.deep_view() =~= old_dv.push(line@));
                assert(old_dv + spec_lines(text@.skip(start as int)) =~= old_dv.push(line@)
                    + spec_lines(text@.skip(i + 1)));
            }
            start = i + 1;
        }
        i = i + 1;
    }
    let last = String::from_str(text.substring_char(start, n));
    let ghost old_dv = lines.deep_view();
    proof {
        lemma_find_ch(text@.skip(start as int), '\n', n - start);
        assert(text@.skip(start as int) =~= text@.subrange(start as int, n as int));
    }
    lines.push(last);
    proof {
        assert(lines.deep_view() =~= old_dv.push(last@));
        assert(old_dv + spec_lines(text@.skip(start as int)) =~= old_dv.push(last@));
    }
    lines
}

/// A trimmed line that is ignored: blank, or a `;`/`#` comment.
pub open spec fn line_is_skip(t: Seq<char>) -> bool {
    t.len() == 0 || t[0] == ';' || t[0] == '#'
}

/// A trimmed line that opens a section header.
pub open spec fn line_is_header(t: Seq<char>) -> bool {
    t.len() > 0 && t[0] == '['
}

/// A header line that is properly closed by `]`.
pub open spec fn header_closed(t: Seq<char>) -> bool {
    t.len() >= 2 && t.last() == ']'
}

/// The name between the brackets of a closed header line.
pub open spec fn header_name(t: Seq<char>) -> Seq<char> {
    t.subrange(1, t.len() - 1)
}

/// The key of an entry line: what stands before the first `=`, trimmed.
pub open spec fn entry_key(t: Seq<char>) -> Seq<char> {
    spec_trim(t.take(find_ch(t, '=') as int))
}

/// The value of an entry line: what stands after the first `=`, trimmed.
pub open spec fn entry_value(t: Seq<char>) -> Seq<char> {
    spec_trim(t.skip(find_ch(t, '=') as int + 1))
}

/// How one line transforms the document built so far: ignored lines leave
/// it alone, a closed header opens a fresh section, an entry is appended to
/// the last section, and anything else is a syntax error.
pub open spec fn parse_step(acc: Seq<SpecSection>, line: Seq<char>) -> Result<
    Seq<SpecSection>,
    IniSyntaxError,
> {
    let t = spec_trim(line);
    if line_is_skip(t) {
        Ok(acc)
    } else if line_is_header(t) {
        if header_closed(t) {
            Ok(acc.push(SpecSection { name: Some(header_name(t)), entries: Seq::empty() }))
        } else {
            Err(IniSyntaxError::UnterminatedHeader)
        }
    } else if find_ch(t, '=') < t.len() {
        Ok(
            acc.update(
                acc.len() - 1,
                SpecSection {
                    name: acc.last().name,
                    entries: acc.last().entries.push((entry_key(t), entry_value(t))),
                },
            ),
        )
    } else {
        Err(IniSyntaxError::MissingEquals)
    }
}

/// Folds `parse_step` over the lines, stopping at the first syntax error.
pub open spec fn spec_parse_lines(lines: Seq<Seq<char>>, acc: Seq<SpecSection>) -> Result<
    Seq<SpecSection>,
    IniSyntaxError,
>
    decreases lines.len(),
{
    if lines.len() == 0 {
        Ok(acc)
    } else {
        match parse_step(acc, lines[0]) {
            Ok(acc2) => spec_parse_lines(lines.drop_first(), acc2),
            Err(e) => Err(e),
        }
    }
}

/// The document a parse starts from: one empty anonymous section.
pub open spec fn spec_initial_doc() -> Seq<SpecSection> {
    seq![SpecSection { name: None, entries: Seq::empty() }]
}

/// The full grammar: what parsing `text` yields, or the first syntax error.
pub open spec fn spec_parse(text: Seq<char>) -> Result<Seq<SpecSection>, IniSyntaxError> {
    spec_parse_lines(spec_lines(text), spec_initial_doc())
}

/// What one source line means, with the owned pieces the parser keeps.
enum ParsedLine {
    Skip,
    Header(String),
    Entry(String, String),
    Bad(IniSyntaxError),
}

/// Decides which grammar rule a line falls under and extracts its pieces.
fn classify_line(line: &str) -> (r: ParsedLine)
    ensures
        ({
            let t = spec_trim(line@);
            match r {
                ParsedLine::Skip => line_is_skip(t),
                ParsedLine::Header(name) => line_is_header(t) && header_closed(t) && name@
                    == header_name(t),
                ParsedLine::Entry(k, v) => !line_is_skip(t) && !line_is_header(t) && find_ch(
                    t,
                    '=',
                ) < t.len() && k@ == entry_key(t) && v@ == entry_value(t),
                ParsedLine::Bad(e) => (line_is_header(t) && !header_closed(t) && e
                    == IniSyntaxError::UnterminatedHeader) || (!line_is_skip(t) && !line_is_header(
                    t,
                ) && find_ch(t, '=') >= t.len() && e == IniSyntaxError::MissingEquals),
            }
        }),
{
    let t = trim_str(line);
    let tn = t.as_str().unicode_len();
    if tn == 0 {
        return ParsedLine::Skip;
    }
    let c0 = t.as_str().get_char(0);
    if c0 == ';' || c0 == '#' {
        return ParsedLine::Skip;
    }
    if c0 == '[' {
        if tn >= 2 && t.as_str().get_char(tn - 1) == ']' {
            let name = String::from_str(t.as_str().substring_char(1, tn - 1));
            return ParsedLine::Header(name);
        }
        return ParsedLine::Bad(IniSyntaxError::UnterminatedHeader);
    }
    let mut i: usize = 0;
    while i < tn && t.as_str().get_char(i) != '='
        invariant
            i <= tn,
            tn == t@.len(),
            forall|j: int| 0 <= j < i ==> t@[j] != '=',
        decreases tn - i,
    {
        i = i + 1;
    }
    proof {
        lemma_find_ch(t@, '=', i as int);
    }
    if i < tn {
        let k = trim_str(t.as_str().substring_char(0, i));
        let v = trim_str(t.as_str().substring_char(i + 1, tn));
        proof {
            assert(t@.subrange(0, i as int) =~= t@.take(i as int));
            assert(t@.subrange(i + 1, tn as int) =~= t@.skip(i + 1));
        }
        return ParsedLine::Entry(k, v);
    }
    ParsedLine::Bad(IniSyntaxError::MissingEquals)
}

/// Parses the whole text of `profiles.ini` into a configuration document,
/// or reports the first syntax error.
pub fn parse_ini(text: &str) -> (r: Result<Document, IniSyntaxError>)
    ensures
        match spec_parse(text@) {
            Ok(doc) => r matches Ok(d) && d@ == doc,
            Err(e) => r == Err::<Document, IniSyntaxError>(e),
        },
{
    let lines = split_lines(text);
    let mut done: Vec<Section> = Vec::new();
    let mut cur = Section { name: None, entries: Vec::new() };
    let mut i: usize = 0;
    proof {
        assert(lines.deep_view().skip(0) =~= lines.deep_view());
        assert(done.deep_view().push(cur@) =~~= spec_initial_doc());
    }
    while i < lines.len()
        invariant
            i <= lines.len(),
            lines.deep_view() == spec_lines(text@),
            spec_parse(text@) == spec_parse_lines(
                lines.deep_view().skip(i as int),
                done.deep_view().push(cur@),
            ),
        decreases lines.len() - i,
    {
        let ghost acc = done.deep_view().push(cur@);
        let ghost rest = lines.deep_view().skip(i as int);
        proof {
            assert(rest[0] == lines.deep_view()[i as int]);
            assert(rest.drop_first() =~= lines.deep_view().skip(i + 1));
        }
        match classify_line(lines[i].as_str()) {
            ParsedLine::Skip => {
                proof {
                    assert(parse_step(acc, rest[0]) == Ok::<_, IniSyntaxError>(acc));
                }
            },
            ParsedLine::Header(name) => {
                let ghost old_done = done.deep_view();
                done.push(cur);
                cur = Section { name: Some(name), entries: Vec::new() };
                proof {
                    assert(done.deep_view() =~~= old_done.push(acc.last()));
                    assert(done.deep_view().push(cur@) =~~= acc.push(
                        SpecSection { name: Some(name@), entries: Seq::empty() },
                    ));
                }
            },
            ParsedLine::Entry(k, v) => {
                let ghost old_entries = cur@.entries;
                let ghost kk = k@;
                let ghost vv = v@;
                cur.entries.push((k, v));
                proof {
                    assert(cur@.entries =~~= old_entries.push((kk, vv)));
                    assert(done.deep_view().push(cur@) =~~= acc.update(
                        acc.len() - 1,
                        SpecSection {
                            name: acc.last().name,
                            entries: acc.last().entries.push((kk, vv)),
                        },
                    ));
                }
            },
            ParsedLine::Bad(e) => {
                proof {
                    assert(spec_parse_lines(rest, acc) == Err::<Seq<SpecSection>,
                        IniSyntaxError>(e));
                }
                return Err(e);
            },
        }
        i = i + 1;
    }
    proof {
        assert(lines.deep_view().skip(i as int) =~= Seq::<Seq<char>>::empty());
    }
    let ghost acc = done.deep_view().push(cur@);
    done.push(cur);
    proof {
        assert(done.deep_view() =~~= acc);
    }
    Ok(Document { sections: done })
}

} // verus!
