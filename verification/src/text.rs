//! Small verified string utilities: equality, prefix tests, and space
//! stripping, stated over character sequences.

use vstd::prelude::*;

verus! {

/// The string with every space character removed (only the plain space
/// `' '`, as the scrubber strips values before value matching).
pub open spec fn spec_strip_spaces(s: Seq<char>) -> Seq<char>
    decreases s.len(),
{
    if s.len() == 0 {
        Seq::empty()
    } else {
        let rest = spec_strip_spaces(s.drop_last());
        if s.last() == ' ' {
            rest
        } else {
            rest.push(s.last())
        }
    }
}

/// The views of a list of strings.
pub open spec fn string_views(v: Seq<String>) -> Seq<Seq<char>> {
    v.map_values(|s: String| s@)
}

/// The lowercase form of a string: what `str::to_lowercase` returns, a
/// function of the characters alone.
pub uninterp spec fn lower_of(s: Seq<char>) -> Seq<char>;

/// Relies on `str::to_lowercase`: the Unicode lowercase mapping of the
/// string, depending on its characters alone.
#[verifier::external_body]
pub(crate) fn lowercase(s: &str) -> (r: String)
    ensures
        r@ == lower_of(s@),
{
    s.to_lowercase()
}

/// Whether two strings hold the same characters.
pub fn str_eq(a: &str, b: &str) -> (r: bool)
    ensures
        r == (a@ == b@),
{
    let alen = a.unicode_len();
    let blen = b.unicode_len();
    if alen != blen {
        return false;
    }
    let mut i: usize = 0;
    while i < alen
        invariant
            i <= alen,
            alen == a@.len(),
            alen == b@.len(),
            forall|j: int| 0 <= j < i ==> a@[j] == b@[j],
        decreases alen - i,
    {
        if a.get_char(i) != b.get_char(i) {
            return false;
        }
        i += 1;
    }
    proof {
        assert(a@ =~= b@);
    }
    true
}

/// Whether `p` is a prefix of `s`.
pub fn str_has_prefix(s: &str, p: &str) -> (r: bool)
    ensures
        r == p@.is_prefix_of(s@),
{
    let plen = p.unicode_len();
    let slen = s.unicode_len();
    if plen > slen {
        return false;
    }
    let mut i: usize = 0;
    while i < plen
        invariant
            i <= plen,
            plen == p@.len(),
            slen == s@.len(),
            plen <= slen,
            forall|j: int| 0 <= j < i ==> p@[j] == s@[j],
        decreases plen - i,
    {
        if p.get_char(i) != s.get_char(i) {
            proof {
                if p@.is_prefix_of(s@) {
                    assert(p@[i as int] == s@.subrange(0, p@.len() as int)[i as int]);
                }
            }
            return false;
        }
        i += 1;
    }
    proof {
        assert(p@ =~= s@.subrange(0, p@.len() as int));
    }
    true
}

/// Whether the character has the Unicode White_Space property: what
/// `char::is_whitespace` returns, a function of the character alone.
pub uninterp spec fn char_whitespace(c: char) -> bool;

/// Relies on `char::is_whitespace`: the Unicode White_Space property,
/// depending on the character alone.
#[verifier::external_body]
fn char_is_whitespace(c: char) -> (r: bool)
    ensures
        r == char_whitespace(c),
{
    c.is_whitespace()
}

/// A string of whitespace alone (or empty).
pub open spec fn spec_blank(s: Seq<char>) -> bool {
    forall|i: int| 0 <= i < s.len() ==> char_whitespace(#[trigger] s[i])
}

/// A line with one carriage return dropped from its end, as line splitting
/// treats a `'\r'` that stands before the `'\n'`.
pub open spec fn strip_cr(line: Seq<char>) -> Seq<char> {
    if line.len() > 0 && line.last() == '\r' {
        line.drop_last()
    } else {
        line
    }
}

/// Splitting the text at every `'\n'`: the lines completed so far and the
/// still-open rest.
pub open spec fn spec_line_state(text: Seq<char>) -> (Seq<Seq<char>>, Seq<char>)
    decreases text.len(),
{
    if text.len() == 0 {
        (Seq::empty(), Seq::empty())
    } else {
        let (done, cur) = spec_line_state(text.drop_last());
        if text.last() == '\n' {
            (done.push(strip_cr(cur)), Seq::empty())
        } else {
            (done, cur.push(text.last()))
        }
    }
}

/// The lines of the text: split at `'\n'`, a `'\r'` before the split
/// removed, and no final empty line. A last line without a line ending keeps
/// its characters as they stand.
pub open spec fn spec_lines_of(text: Seq<char>) -> Seq<Seq<char>> {
    let (done, cur) = spec_line_state(text);
    if cur.len() == 0 {
        done
    } else {
        done.push(cur)
    }
}

/// The lines that are not blank, in order.
pub open spec fn filter_nonblank(lines: Seq<Seq<char>>) -> Seq<Seq<char>>
    decreases lines.len(),
{
    if lines.len() == 0 {
        Seq::empty()
    } else {
        let rest = filter_nonblank(lines.drop_last());
        if spec_blank(lines.last()) {
            rest
        } else {
            rest.push(lines.last())
        }
    }
}

/// The non-blank lines of the text, in order.
pub open spec fn spec_non_blank_lines(text: Seq<char>) -> Seq<Seq<char>> {
    filter_nonblank(spec_lines_of(text))
}

/// Whether the string is whitespace alone (or empty).
fn is_blank(s: &str) -> (r: bool)
    ensures
        r == spec_blank(s@),
{
    let n = s.unicode_len();
    let mut i: usize = 0;
    while i < n
        invariant
            i <= n,
            n == s@.len(),
            forall|j: int| 0 <= j < i ==> char_whitespace(#[trigger] s@[j]),
        decreases n - i,
    {
        if !char_is_whitespace(s.get_char(i)) {
            return false;
        }
        i += 1;
    }
    true
}

/// The line as completed at a `'\n'`: one `'\r'` dropped from its end.
fn finish_line(cur: &String) -> (r: String)
    ensures
        r@ == strip_cr(cur@),
{
    let len = cur.as_str().unicode_len();
    if len > 0 && cur.as_str().get_char(len - 1) == '\r' {
        let piece = cur.as_str().substring_char(0, len - 1);
        proof {
            assert(piece@ =~= cur@.drop_last());
        }
        piece.to_owned()
    } else {
        cur.clone()
    }
}

/// Splits a text into its non-blank lines, in order: lines end at `'\n'`
/// (with a `'\r'` before it removed), and lines of whitespace alone are
/// dropped.
pub fn non_blank_lines(text: &str) -> (r: Vec<String>)
    ensures
        string_views(r@) == spec_non_blank_lines(text@),
{
    let n = text.unicode_len();
    let mut out: Vec<String> = Vec::new();
    let mut cur = String::new();
    let mut i: usize = 0;
    while i < n
        invariant
            i <= n,
            n == text@.len(),
            cur@ == spec_line_state(text@.take(i as int)).1,
            string_views(out@) == filter_nonblank(spec_line_state(text@.take(i as int)).0),
        decreases n - i,
    {
        let c = text.get_char(i);
        proof {
            assert(text@.take(i as int + 1).drop_last() =~= text@.take(i as int));
            assert(text@.take(i as int + 1).last() == text@[i as int]);
        }
        if c == '\n' {
            let line = finish_line(&cur);
            let ghost done = spec_line_state(text@.take(i as int)).0;
            proof {
                assert(done.push(line@).drop_last() =~= done);
                assert(done.push(line@).last() == line@);
            }
            if !is_blank(line.as_str()) {
                let ghost prev_out = out@;
                out.push(line);
                proof {
                    assert(string_views(out@) =~= string_views(prev_out).push(
                        strip_cr(cur@),
                    ));
                }
            }
            cur = String::new();
        } else {
            let piece = text.substring_char(i, i + 1);
            proof {
                assert(piece@ =~= seq![text@[i as int]]);
            }
            let ghost prev_cur = cur@;
            cur.append(piece);
            proof {
                assert(cur@ =~= prev_cur.push(text@[i as int]));
            }
        }
        i += 1;
    }
    proof {
        assert(text@.take(n as int) =~= text@);
    }
    if cur.as_str().unicode_len() > 0 {
        let ghost done = spec_line_state(text@).0;
        proof {
            assert(done.push(cur@).drop_last() =~= done);
            assert(done.push(cur@).last() == cur@);
        }
        if !is_blank(cur.as_str()) {
            let ghost prev_out = out@;
            let ghost line = cur@;
            out.push(cur);
            proof {
                assert(string_views(out@) =~= string_views(prev_out).push(line));
            }
        }
    }
    out
}

/// Removes every space character from the string.
pub fn strip_spaces(s: &str) -> (r: String)
    ensures
        r@ == spec_strip_spaces(s@),
{
    let n = s.unicode_len();
    let mut out = String::new();
    let mut i: usize = 0;
    while i < n
        invariant
            i <= n,
            n == s@.len(),
            out@ == spec_strip_spaces(s@.take(i as int)),
        decreases n - i,
    {
        let c = s.get_char(i);
        if c != ' ' {
            let piece = s.substring_char(i, i + 1);
            proof {
                assert(piece@ =~= seq![s@[i as int]]);
            }
            let ghost prev = out@;
            out.append(piece);
            proof {
                assert(out@ =~= prev.push(s@[i as int]));
            }
        }
        proof {
            assert(s@.take(i as int + 1).drop_last() =~= s@.take(i as int));
            assert(s@.take(i as int + 1).last() == s@[i as int]);
        }
        i += 1;
    }
    proof {
        assert(s@.take(n as int) =~= s@);
    }
    out
}

} // verus!
