//! Text helpers over `&str` and `String`, stated over `Seq<char>` views.

use vstd::prelude::*;

verus! {

/// Every character is in the ASCII range.
pub open spec fn is_ascii_text(s: Seq<char>) -> bool {
    forall|i: int| 0 <= i < s.len() ==> (#[trigger] s[i]) as u32 <= 127
}

/// ASCII lowercase of one character; other characters are unchanged.
pub open spec fn ascii_lower_char(c: char) -> char {
    if 'A' <= c && c <= 'Z' {
        ((c as u32) + 32) as char
    } else {
        c
    }
}

/// ASCII uppercase of one character; other characters are unchanged.
pub open spec fn ascii_upper_char(c: char) -> char {
    if 'a' <= c && c <= 'z' {
        ((c as u32) - 32) as char
    } else {
        c
    }
}

pub open spec fn ascii_lower(s: Seq<char>) -> Seq<char> {
    Seq::new(s.len(), |i: int| ascii_lower_char(s[i]))
}

pub open spec fn ascii_upper(s: Seq<char>) -> Seq<char> {
    Seq::new(s.len(), |i: int| ascii_upper_char(s[i]))
}

/// Whether `p` is a prefix of `s`.
pub open spec fn has_prefix(s: Seq<char>, p: Seq<char>) -> bool {
    p.len() <= s.len() && s.subrange(0, p.len() as int) == p
}

/// Whether `p` is a suffix of `s`.
pub open spec fn has_suffix(s: Seq<char>, p: Seq<char>) -> bool {
    p.len() <= s.len() && s.subrange(s.len() - p.len(), s.len() as int) == p
}

/// Character equality of two string slices.
pub fn str_eq(a: &str, b: &str) -> (r: bool)
    ensures
        r == (a@ == b@),
{
    let n = a.unicode_len();
    let m = b.unicode_len();
    if n != m {
        return false;
    }
    let mut i: usize = 0;
    while i < n
        invariant
            n == a@.len(),
            m == b@.len(),
            n == m,
            i <= n,
            forall|j: int| 0 <= j < i ==> a@[j] == b@[j],
        decreases n - i,
    {
        if a.get_char(i) != b.get_char(i) {
            return false;
        }
        i = i + 1;
    }
    assert(a@ =~= b@);
    true
}

/// Whether `s` starts with `p`.
pub fn starts_with(s: &str, p: &str) -> (r: bool)
    ensures
        r == has_prefix(s@, p@),
{
    let n = s.unicode_len();
    let m = p.unicode_len();
    if m > n {
        return false;
    }
    let mut i: usize = 0;
    while i < m
        invariant
            n == s@.len(),
            m == p@.len(),
            m <= n,
            i <= m,
            forall|j: int| 0 <= j < i ==> s@[j] == p@[j],
        decreases m - i,
    {
        if s.get_char(i) != p.get_char(i) {
            assert(s@.subrange(0, m as int)[i as int] != p@[i as int]);
            return false;
        }
        i = i + 1;
    }
    assert(s@.subrange(0, m as int) =~= p@);
    true
}

/// Whether `s` ends with `p`.
pub fn ends_with(s: &str, p: &str) -> (r: bool)
    ensures
        r == has_suffix(s@, p@),
{
    let n = s.unicode_len();
    let m = p.unicode_len();
    if m > n {
        return false;
    }
    let off = n - m;
    let mut i: usize = 0;
    while i < m
        invariant
            n == s@.len(),
            m == p@.len(),
            m <= n,
            off == n - m,
            i <= m,
            forall|j: int| 0 <= j < i ==> s@[off + j] == p@[j],
        decreases m - i,
    {
        if s.get_char(off + i) != p.get_char(i) {
            assert(s@.subrange(off as int, n as int)[i as int] != p@[i as int]);
            return false;
        }
        i = i + 1;
    }
    assert(s@.subrange(off as int, n as int) =~= p@);
    true
}

/// `i` is the position of the first `c` in `s`.
pub open spec fn is_first_index(s: Seq<char>, c: char, i: int) -> bool {
    &&& 0 <= i < s.len()
    &&& s[i] == c
    &&& forall|j: int| 0 <= j < i ==> s[j] != c
}

/// `s` split around its first `c`, as `str::split_once` with a character
/// pattern does; `None` when `c` does not occur.
pub open spec fn split_once_text(s: Seq<char>, c: char) -> Option<(Seq<char>, Seq<char>)> {
    if exists|i: int| is_first_index(s, c, i) {
        let i = choose|i: int| is_first_index(s, c, i);
        Some((s.subrange(0, i), s.subrange(i + 1, s.len() as int)))
    } else {
        None
    }
}

/// The first position of `c` is unique.
pub proof fn lemma_first_index_unique(s: Seq<char>, c: char, i: int, j: int)
    requires
        is_first_index(s, c, i),
        is_first_index(s, c, j),
    ensures
        i == j,
{
    if i < j {
        assert(s[i] != c);
    } else if j < i {
        assert(s[j] != c);
    }
}

/// The text before and after the first `c` of `s`; `None` when `s` has no `c`.
pub fn split_once_char(s: &str, c: char) -> (r: Option<(String, String)>)
    ensures
        match r {
            Some((a, b)) => split_once_text(s@, c) == Some((a@, b@)),
            None => split_once_text(s@, c) is None,
        },
{
    let n = s.unicode_len();
    let mut i: usize = 0;
    while i < n
        invariant
            n == s@.len(),
            i <= n,
            forall|j: int| 0 <= j < i ==> s@[j] != c,
        decreases n - i,
    {
        if s.get_char(i) == c {
            let a = s.substring_char(0, i).to_owned();
            let b = s.substring_char(i + 1, n).to_owned();
            proof {
                assert(is_first_index(s@, c, i as int));
                let k = choose|k: int| is_first_index(s@, c, k);
                lemma_first_index_unique(s@, c, i as int, k);
            }
            return Some((a, b));
        }
        i = i + 1;
    }
    proof {
        assert forall|k: int| !is_first_index(s@, c, k) by {
            if 0 <= k < s@.len() {
                assert(s@[k] != c);
            }
        }
    }
    None
}

/// Every character is an ASCII lowercase letter.
pub open spec fn is_lower_word(s: Seq<char>) -> bool {
    forall|i: int| 0 <= i < s.len() ==> 'a' <= #[trigger] s[i] && s[i] <= 'z'
}

/// A word of ASCII lowercase letters survives uppercasing then lowercasing,
/// and its uppercase form is ASCII and free of `_` and `.`.
pub proof fn lemma_lower_word_case_round_trip(s: Seq<char>)
    requires
        is_lower_word(s),
    ensures
        ascii_lower(ascii_upper(s)) == s,
        is_ascii_text(ascii_upper(s)),
        is_ascii_text(s),
        forall|i: int| 0 <= i < s.len() ==> #[trigger] ascii_upper(s)[i] != '_',
{
    assert(ascii_lower(ascii_upper(s)) =~= s);
}

/// The character of a decimal digit.
pub open spec fn digit_char(d: nat) -> char {
    (48 + d) as char
}

/// The decimal text of a number, without leading zeros.
pub open spec fn decimal_text(n: nat) -> Seq<char>
    decreases n,
{
    if n < 10 {
        seq![digit_char(n)]
    } else {
        decimal_text(n / 10).push(digit_char(n % 10))
    }
}

/// Appends the decimal text of `n`.
pub fn push_decimal(s: &mut String, n: u64)
    ensures
        final(s)@ == old(s)@ + decimal_text(n as nat),
    decreases n,
{
    if n >= 10 {
        push_decimal(s, n / 10);
    }
    let d = (n % 10) as u8;
    let c = (d + 48u8) as char;
    assert(c == digit_char((n % 10) as nat));
    push_char(s, c);
    proof {
        if n >= 10 {
            assert(old(s)@ + decimal_text(n as nat) =~= old(s)@ + decimal_text((n / 10) as nat) + seq![c]);
        } else {
            assert(old(s)@ + decimal_text(n as nat) =~= old(s)@ + seq![c]);
        }
    }
}

/// The texts of `list` joined by `sep`.
pub open spec fn joined(list: Seq<Seq<char>>, sep: Seq<char>) -> Seq<char>
    decreases list.len(),
{
    if list.len() == 0 {
        Seq::empty()
    } else if list.len() == 1 {
        list[0]
    } else {
        joined(list.drop_last(), sep) + sep + list.last()
    }
}

/// The pieces of `s` between line feeds (one more than there are line
/// feeds).
pub open spec fn newline_pieces(s: Seq<char>) -> Seq<Seq<char>>
    decreases s.len(),
{
    if s.len() == 0 {
        seq![Seq::empty()]
    } else {
        let p = newline_pieces(s.drop_last());
        if s.last() == '\n' {
            p.push(Seq::empty())
        } else {
            p.update(p.len() - 1, p.last().push(s.last()))
        }
    }
}

/// A line without the carriage return that ended it, if any.
pub open spec fn strip_cr(l: Seq<char>) -> Seq<char> {
    if l.len() > 0 && l.last() == '\r' {
        l.drop_last()
    } else {
        l
    }
}

/// The lines of `s` as `str::lines` gives them: split at `\n` or `\r\n`;
/// the final line ending is optional, so an empty final piece is no line,
/// and a final piece with no line feed after it keeps a carriage return.
pub open spec fn text_lines(s: Seq<char>) -> Seq<Seq<char>> {
    let p = newline_pieces(s);
    let ended = p.drop_last().map_values(|l: Seq<char>| strip_cr(l));
    if p.last().len() == 0 {
        ended
    } else {
        ended.push(p.last())
    }
}

/// Each line of `s` indented by four spaces, joined by line feeds.
pub open spec fn indented_text(s: Seq<char>) -> Seq<char> {
    joined(text_lines(s).map_values(|l: Seq<char>| "    "@ + l), "\n"@)
}

proof fn lemma_newline_pieces_nonempty(s: Seq<char>)
    ensures
        newline_pieces(s).len() >= 1,
    decreases s.len(),
{
    if s.len() > 0 {
        lemma_newline_pieces_nonempty(s.drop_last());
    }
}

/// `l` without a final carriage return.
fn strip_cr_str(l: &str) -> (r: &str)
    ensures
        r@ == strip_cr(l@),
{
    let n = l.unicode_len();
    if n > 0 && l.get_char(n - 1) == '\r' {
        let r = l.substring_char(0, n - 1);
        proof {
            assert(r@ =~= l@.drop_last());
        }
        r
    } else {
        l
    }
}

/// Indents every line of `err` by four spaces, as `str::lines` splits it.
pub fn indent_lines(err: &str) -> (r: String)
    ensures
        r@ == indented_text(err@),
{
    let ghost f = |l: Seq<char>| "    "@ + strip_cr(l);
    let n = err.unicode_len();
    let mut out = String::new();
    let mut cur = String::new();
    let mut any = false;
    let ghost mut done: Seq<Seq<char>> = Seq::empty();
    let mut i: usize = 0;
    while i < n
        invariant
            n == err@.len(),
            i <= n,
            any == (done.len() > 0),
            f == (|l: Seq<char>| "    "@ + strip_cr(l)),
            newline_pieces(err@.take(i as int)) == done.push(cur@),
            out@ == joined(done.map_values(f), "\n"@),
        decreases n - i,
    {
        let c = err.get_char(i);
        proof {
            assert(err@.take(i as int + 1).drop_last() =~= err@.take(i as int));
            assert(err@.take(i as int + 1).last() == c);
        }
        if c == '\n' {
            let ghost old_done = done;
            let ghost line = cur@;
            if any {
                out.append("\n");
            }
            out.append("    ");
            out.append(strip_cr_str(cur.as_str()));
            cur = String::new();
            any = true;
            proof {
                done = done.push(line);
                assert(done.map_values(f).drop_last() =~= old_done.map_values(f));
                assert(done.map_values(f).last() == f(line));
                reveal_strlit("    ");
                reveal_strlit("\n");
                if old_done.len() == 0 {
                    assert(done.map_values(f) =~= seq![f(line)]);
                }
                assert(newline_pieces(err@.take(i as int + 1)) =~= done.push(cur@));
            }
        } else {
            push_char(&mut cur, c);
            proof {
                lemma_newline_pieces_nonempty(err@.take(i as int));
                assert(newline_pieces(err@.take(i as int + 1)) =~= done.push(cur@));
            }
        }
        i = i + 1;
    }
    proof {
        assert(err@.take(n as int) =~= err@);
    }
    if cur.unicode_len() > 0 {
        let ghost old_done = done;
        let ghost line = cur@;
        if any {
            out.append("\n");
        }
        out.append("    ");
        out.append(cur.as_str());
        proof {
            let g = |l: Seq<char>| "    "@ + l;
            let all = old_done.map_values(f).push(g(line));
            reveal_strlit("    ");
            reveal_strlit("\n");
            assert(all.drop_last() =~= old_done.map_values(f));
            if old_done.len() == 0 {
                assert(all =~= seq![g(line)]);
            }
            assert(text_lines(err@).map_values(g) =~= all);
        }
    } else {
        proof {
            assert(text_lines(err@).map_values(|l: Seq<char>| "    "@ + l) =~= done.map_values(f));
        }
    }
    out
}

/// The Unicode lowercase mapping of a text, as `str::to_lowercase` computes it.
pub uninterp spec fn unicode_lowercase(s: Seq<char>) -> Seq<char>;

/// The Unicode uppercase mapping of a text, as `str::to_uppercase` computes it.
pub uninterp spec fn unicode_uppercase(s: Seq<char>) -> Seq<char>;

/// Calls `str::to_lowercase`. The result is named `unicode_lowercase` of the
/// input; on ASCII input the Unicode mapping is the ASCII one (`A`-`Z` to
/// `a`-`z`, everything else unchanged), and the contract says so.
#[verifier::external_body]
pub(crate) fn to_lowercase(s: &str) -> (r: String)
    ensures
        r@ == unicode_lowercase(s@),
        is_ascii_text(s@) ==> r@ == ascii_lower(s@),
{
    s.to_lowercase()
}

/// Calls `str::to_uppercase`. The result is named `unicode_uppercase` of the
/// input; on ASCII input the Unicode mapping is the ASCII one (`a`-`z` to
/// `A`-`Z`, everything else unchanged), and the contract says so.
#[verifier::external_body]
pub(crate) fn to_uppercase(s: &str) -> (r: String)
    ensures
        r@ == unicode_uppercase(s@),
        is_ascii_text(s@) ==> r@ == ascii_upper(s@),
{
    s.to_uppercase()
}

/// Calls `String::push`, which appends one character.
#[verifier::external_body]
pub(crate) fn push_char(s: &mut String, c: char)
    ensures
        final(s)@ == old(s)@.push(c),
{
    s.push(c);
}

} // verus!
