//! Verified string helpers: equality, prefix tests, case-insensitive
//! substring search, first-occurrence scans, and lenient digit parsing.
//! Everything here is executable code proved against `Seq<char>` models.

use vstd::prelude::*;

verus! {

/// `p` is a prefix of `s`.
pub open spec fn spec_starts_with(s: Seq<char>, p: Seq<char>) -> bool {
    p.len() <= s.len() && s.subrange(0, p.len() as int) == p
}

/// ASCII case folding: upper-case letters map to lower case, everything
/// else is unchanged. Searches in menus fold with this.
pub open spec fn spec_lower_char(c: char) -> char {
    if c == 'A' {
        'a'
    } else if c == 'B' {
        'b'
    } else if c == 'C' {
        'c'
    } else if c == 'D' {
        'd'
    } else if c == 'E' {
        'e'
    } else if c == 'F' {
        'f'
    } else if c == 'G' {
        'g'
    } else if c == 'H' {
        'h'
    } else if c == 'I' {
        'i'
    } else if c == 'J' {
        'j'
    } else if c == 'K' {
        'k'
    } else if c == 'L' {
        'l'
    } else if c == 'M' {
        'm'
    } else if c == 'N' {
        'n'
    } else if c == 'O' {
        'o'
    } else if c == 'P' {
        'p'
    } else if c == 'Q' {
        'q'
    } else if c == 'R' {
        'r'
    } else if c == 'S' {
        's'
    } else if c == 'T' {
        't'
    } else if c == 'U' {
        'u'
    } else if c == 'V' {
        'v'
    } else if c == 'W' {
        'w'
    } else if c == 'X' {
        'x'
    } else if c == 'Y' {
        'y'
    } else if c == 'Z' {
        'z'
    } else {
        c
    }
}

/// ASCII case folding of one character.
pub fn lower_char(c: char) -> (r: char)
    ensures
        r == spec_lower_char(c),
{
    if c == 'A' {
        'a'
    } else if c == 'B' {
        'b'
    } else if c == 'C' {
        'c'
    } else if c == 'D' {
        'd'
    } else if c == 'E' {
        'e'
    } else if c == 'F' {
        'f'
    } else if c == 'G' {
        'g'
    } else if c == 'H' {
        'h'
    } else if c == 'I' {
        'i'
    } else if c == 'J' {
        'j'
    } else if c == 'K' {
        'k'
    } else if c == 'L' {
        'l'
    } else if c == 'M' {
        'm'
    } else if c == 'N' {
        'n'
    } else if c == 'O' {
        'o'
    } else if c == 'P' {
        'p'
    } else if c == 'Q' {
        'q'
    } else if c == 'R' {
        'r'
    } else if c == 'S' {
        's'
    } else if c == 'T' {
        't'
    } else if c == 'U' {
        'u'
    } else if c == 'V' {
        'v'
    } else if c == 'W' {
        'w'
    } else if c == 'X' {
        'x'
    } else if c == 'Y' {
        'y'
    } else if c == 'Z' {
        'z'
    } else {
        c
    }
}

/// Optionally case-folded view of a character.
pub open spec fn spec_norm(c: char, fold: bool) -> char {
    if fold {
        spec_lower_char(c)
    } else {
        c
    }
}

/// `p` occurs in `s` at position `i`, comparing characters after
/// optional case folding.
pub open spec fn spec_match_at(s: Seq<char>, p: Seq<char>, i: int, fold: bool) -> bool {
    &&& 0 <= i
    &&& i + p.len() <= s.len()
    &&& forall|j: int| 0 <= j < p.len() ==> spec_norm(s[i + j], fold) == spec_norm(p[j], fold)
}

/// `p` occurs somewhere in `s`, ASCII-case-insensitively.
pub open spec fn spec_contains_ci(s: Seq<char>, p: Seq<char>) -> bool {
    exists|i: int| spec_match_at(s, p, i, true)
}

/// Compare `p` against `s` at position `i`, optionally case folding.
pub fn match_at(s: &str, p: &str, i: usize, fold: bool) -> (r: bool)
    requires
        i + p@.len() <= s@.len(),
    ensures
        r == spec_match_at(s@, p@, i as int, fold),
{
    let n = s.unicode_len();
    let m = p.unicode_len();
    let mut j: usize = 0;
    while j < m
        invariant
            0 <= j <= m == p@.len(),
            n == s@.len(),
            i + p@.len() <= s@.len(),
            forall|k: int| 0 <= k < j ==> spec_norm(s@[i + k], fold) == spec_norm(p@[k], fold),
        decreases m - j,
    {
        let sc = s.get_char(i + j);
        let pc = p.get_char(j);
        let (sn, pn) = if fold {
            (lower_char(sc), lower_char(pc))
        } else {
            (sc, pc)
        };
        if sn != pn {
            return false;
        }
        j += 1;
    }
    true
}

/// Compare a character buffer `p` against `s` at position `i`, case
/// folded.
pub fn match_at_chars(s: &str, p: &Vec<char>, i: usize) -> (r: bool)
    requires
        i + p@.len() <= s@.len(),
    ensures
        r == spec_match_at(s@, p@, i as int, true),
{
    let n = s.unicode_len();
    let m = p.len();
    let mut j: usize = 0;
    while j < m
        invariant
            0 <= j <= m == p@.len(),
            n == s@.len(),
            i + p@.len() <= s@.len(),
            forall|k: int| 0 <= k < j ==> spec_norm(s@[i + k], true) == spec_norm(p@[k], true),
        decreases m - j,
    {
        let sn = lower_char(s.get_char(i + j));
        let pn = lower_char(p[j]);
        if sn != pn {
            return false;
        }
        j += 1;
    }
    true
}

/// Case-insensitive test: does the character buffer `p` occur in `s`?
pub fn contains_chars_ci(s: &str, p: &Vec<char>) -> (r: bool)
    ensures
        r == spec_contains_ci(s@, p@),
{
    let n = s.unicode_len();
    let m = p.len();
    if m > n {
        return false;
    }
    if m == 0 {
        assert(spec_match_at(s@, p@, 0, true));
        return true;
    }
    let mut i: usize = 0;
    while i <= n - m
        invariant
            0 < m <= n == s@.len(),
            m == p@.len(),
            0 <= i <= n - m + 1,
            forall|k: int| 0 <= k < i ==> !spec_match_at(s@, p@, k, true),
        decreases n - i,
    {
        if match_at_chars(s, p, i) {
            return true;
        }
        i += 1;
    }
    false
}

/// Copy a character buffer.
pub fn clone_chars(v: &Vec<char>) -> (r: Vec<char>)
    ensures
        r@ == v@,
{
    let mut r: Vec<char> = Vec::new();
    let mut i: usize = 0;
    while i < v.len()
        invariant
            0 <= i <= v@.len(),
            r@ == v@.subrange(0, i as int),
        decreases v@.len() - i,
    {
        r.push(v[i]);
        assert(r@ =~= v@.subrange(0, i + 1 as int));
        i += 1;
    }
    proof {
        assert(v@.subrange(0, v@.len() as int) =~= v@);
    }
    r
}

/// Exact string equality, by characters.
pub fn str_eq(a: &str, b: &str) -> (r: bool)
    ensures
        r == (a@ == b@),
{
    let n = a.unicode_len();
    let m = b.unicode_len();
    if n != m {
        return false;
    }
    let r = match_at(a, b, 0, false);
    proof {
        if r {
            assert(a@ =~= b@);
        }
    }
    r
}

/// `p` is a prefix of `s`.
pub fn starts_with_str(s: &str, p: &str) -> (r: bool)
    ensures
        r == spec_starts_with(s@, p@),
{
    let n = s.unicode_len();
    let m = p.unicode_len();
    if m > n {
        return false;
    }
    let r = match_at(s, p, 0, false);
    proof {
        if r {
            assert(s@.subrange(0, p@.len() as int) =~= p@);
        } else {
            assert(!spec_starts_with(s@, p@)) by {
                if spec_starts_with(s@, p@) {
                    assert(forall|j: int|
                        0 <= j < p@.len() ==> s@.subrange(0, p@.len() as int)[j] == s@[j]);
                }
            }
        }
    }
    r
}

/// Index of the first occurrence of `c` in `s`, or `s.len()` if there
/// is none.
pub open spec fn spec_find_char(s: Seq<char>, c: char) -> int
    decreases s.len(),
{
    if s.len() == 0 {
        0
    } else if s[0] == c {
        0
    } else {
        1 + spec_find_char(s.subrange(1, s.len() as int), c)
    }
}

/// `spec_find_char` points at the first occurrence, and is `s.len()`
/// exactly when the character does not occur.
pub proof fn lemma_find_char(s: Seq<char>, c: char)
    ensures
        0 <= spec_find_char(s, c) <= s.len(),
        spec_find_char(s, c) < s.len() ==> s[spec_find_char(s, c)] == c,
        forall|j: int| 0 <= j < spec_find_char(s, c) ==> s[j] != c,
    decreases s.len(),
{
    if s.len() > 0 && s[0] != c {
        let tail = s.subrange(1, s.len() as int);
        lemma_find_char(tail, c);
        assert forall|j: int| 0 <= j < spec_find_char(s, c) implies s[j] != c by {
            if j > 0 {
                assert(tail[j - 1] == s[j]);
            }
        }
    }
}

/// First occurrence of `c` in `s`, as executable code.
pub fn find_char(s: &str, c: char) -> (r: usize)
    ensures
        r == spec_find_char(s@, c),
        r <= s@.len(),
{
    let n = s.unicode_len();
    let mut i: usize = 0;
    while i < n
        invariant
            0 <= i <= n == s@.len(),
            forall|j: int| 0 <= j < i ==> s@[j] != c,
        decreases n - i,
    {
        if s.get_char(i) == c {
            proof {
                lemma_find_char_at(s@, c, i as int);
            }
            return i;
        }
        i += 1;
    }
    proof {
        lemma_find_char_none(s@, c);
    }
    n
}

/// If `c` first occurs at `i`, `spec_find_char` equals `i`.
proof fn lemma_find_char_at(s: Seq<char>, c: char, i: int)
    requires
        0 <= i < s.len(),
        s[i] == c,
        forall|j: int| 0 <= j < i ==> s[j] != c,
    ensures
        spec_find_char(s, c) == i,
    decreases i,
{
    if i > 0 {
        let tail = s.subrange(1, s.len() as int);
        assert(tail[i - 1] == s[i]);
        assert forall|j: int| 0 <= j < i - 1 implies tail[j] != c by {
            assert(tail[j] == s[j + 1]);
        }
        lemma_find_char_at(tail, c, i - 1);
    }
}

/// If `c` never occurs in `s`, `spec_find_char` equals `s.len()`.
proof fn lemma_find_char_none(s: Seq<char>, c: char)
    requires
        forall|j: int| 0 <= j < s.len() ==> s[j] != c,
    ensures
        spec_find_char(s, c) == s.len(),
    decreases s.len(),
{
    if s.len() > 0 {
        let tail = s.subrange(1, s.len() as int);
        assert forall|j: int| 0 <= j < tail.len() implies tail[j] != c by {
            assert(tail[j] == s[j + 1]);
        }
        lemma_find_char_none(tail, c);
    }
}

/// ASCII decimal digit.
pub open spec fn spec_is_digit(c: char) -> bool {
    ||| c == '0'
    ||| c == '1'
    ||| c == '2'
    ||| c == '3'
    ||| c == '4'
    ||| c == '5'
    ||| c == '6'
    ||| c == '7'
    ||| c == '8'
    ||| c == '9'
}

/// Numeric value of an ASCII digit; 0 for anything else.
pub open spec fn spec_digit_val(c: char) -> nat {
    if c == '1' {
        1
    } else if c == '2' {
        2
    } else if c == '3' {
        3
    } else if c == '4' {
        4
    } else if c == '5' {
        5
    } else if c == '6' {
        6
    } else if c == '7' {
        7
    } else if c == '8' {
        8
    } else if c == '9' {
        9
    } else {
        0
    }
}

/// Value of a digit string read in base ten.
pub open spec fn spec_digits_val(s: Seq<char>) -> nat
    decreases s.len(),
{
    if s.len() == 0 {
        0
    } else {
        spec_digits_val(s.drop_last()) * 10 + spec_digit_val(s.last())
    }
}

/// Every character of `s` is an ASCII digit.
pub open spec fn spec_all_digits(s: Seq<char>) -> bool {
    forall|i: int| 0 <= i < s.len() ==> spec_is_digit(s[i])
}

/// Lenient port reading: a non-empty all-digit string whose value fits
/// a port number is read in base ten; anything else degrades to the
/// Gopher default port 70.
pub open spec fn spec_parse_port(s: Seq<char>) -> u16 {
    if s.len() > 0 && spec_all_digits(s) && spec_digits_val(s) <= 65535 {
        spec_digits_val(s) as u16
    } else {
        70
    }
}

/// Reading a longer prefix of a digit string never yields a smaller
/// value.
proof fn lemma_digits_prefix_le(s: Seq<char>, i: int)
    requires
        0 <= i <= s.len(),
    ensures
        spec_digits_val(s.subrange(0, i)) <= spec_digits_val(s),
    decreases s.len() - i,
{
    if i < s.len() {
        let shorter = s.subrange(0, s.len() - 1);
        lemma_digits_prefix_le(shorter, i);
        assert(shorter.subrange(0, i) =~= s.subrange(0, i));
        assert(s.drop_last() =~= shorter);
    } else {
        assert(s.subrange(0, i) =~= s);
    }
}

/// Numeric value of an ASCII digit character, if it is one.
pub fn digit_val(c: char) -> (r: Option<u8>)
    ensures
        r is Some <==> spec_is_digit(c),
        r is Some ==> r->0 == spec_digit_val(c),
{
    if c == '0' {
        Some(0)
    } else if c == '1' {
        Some(1)
    } else if c == '2' {
        Some(2)
    } else if c == '3' {
        Some(3)
    } else if c == '4' {
        Some(4)
    } else if c == '5' {
        Some(5)
    } else if c == '6' {
        Some(6)
    } else if c == '7' {
        Some(7)
    } else if c == '8' {
        Some(8)
    } else if c == '9' {
        Some(9)
    } else {
        None
    }
}

/// Read a port number leniently, defaulting to 70.
pub fn parse_port(s: &str) -> (p: u16)
    ensures
        p == spec_parse_port(s@),
{
    let n = s.unicode_len();
    if n == 0 {
        return 70;
    }
    let mut acc: u32 = 0;
    let mut i: usize = 0;
    while i < n
        invariant
            0 < n == s@.len(),
            0 <= i <= n,
            spec_all_digits(s@.subrange(0, i as int)),
            acc == spec_digits_val(s@.subrange(0, i as int)),
            acc <= 65535,
        decreases n - i,
    {
        let c = s.get_char(i);
        let ghost pre = s@.subrange(0, i as int);
        let ghost ext = s@.subrange(0, i + 1 as int);
        proof {
            assert(ext.drop_last() =~= pre);
            assert(ext.last() == s@[i as int]);
        }
        match digit_val(c) {
            None => {
                assert(!spec_all_digits(s@)) by {
                    assert(!spec_is_digit(s@[i as int]));
                }
                return 70;
            },
            Some(d) => {
                let acc2: u32 = acc * 10 + (d as u32);
                assert(acc2 == spec_digits_val(ext));
                if acc2 > 65535 {
                    proof {
                        if spec_all_digits(s@) {
                            lemma_digits_prefix_le(s@, i + 1);
                            assert(spec_digits_val(s@) >= acc2);
                        }
                    }
                    return 70;
                }
                acc = acc2;
            },
        }
        i += 1;
    }
    proof {
        assert(s@.subrange(0, n as int) =~= s@);
    }
    acc as u16
}

/// Index of the first CR or LF, or `s.len()` if there is none.
pub open spec fn spec_first_eol(s: Seq<char>) -> int {
    if spec_find_char(s, '\r') < spec_find_char(s, '\n') {
        spec_find_char(s, '\r')
    } else {
        spec_find_char(s, '\n')
    }
}

/// Raw text split into lines at CR, LF or CRLF.
pub open spec fn spec_split_lines(s: Seq<char>) -> Seq<Seq<char>>
    decreases s.len(),
    via spec_split_lines_decreases
{
    if s.len() == 0 {
        Seq::<Seq<char>>::empty()
    } else {
        let e = spec_first_eol(s);
        let line = s.subrange(0, e);
        if e >= s.len() {
            seq![line]
        } else {
            let next = if s[e] == '\r' && e + 1 < s.len() && s[e + 1] == '\n' {
                e + 2
            } else {
                e + 1
            };
            seq![line] + spec_split_lines(s.subrange(next, s.len() as int))
        }
    }
}

#[via_fn]
proof fn spec_split_lines_decreases(s: Seq<char>) {
    lemma_find_char(s, '\r');
    lemma_find_char(s, '\n');
}

/// Split raw text into owned lines at CR, LF or CRLF.
pub fn split_lines(raw: &str) -> (r: Vec<String>)
    ensures
        views_of(r@) == spec_split_lines(raw@),
{
    let mut out: Vec<String> = Vec::new();
    split_lines_into(raw, &mut out);
    proof {
        assert(views_of(out@) =~= Seq::<Seq<char>>::empty() + spec_split_lines(raw@));
    }
    out
}

/// Append the lines of `s` to `out`.
fn split_lines_into(s: &str, out: &mut Vec<String>)
    ensures
        views_of(final(out)@) == views_of(old(out)@) + spec_split_lines(s@),
    decreases s@.len(),
{
    let n = s.unicode_len();
    if n == 0 {
        proof {
            assert(spec_split_lines(s@) =~= Seq::<Seq<char>>::empty());
            assert(views_of(out@) =~= views_of(out@) + spec_split_lines(s@));
        }
        return ;
    }
    let er = find_char(s, '\r');
    let en = find_char(s, '\n');
    proof {
        lemma_find_char(s@, '\r');
        lemma_find_char(s@, '\n');
    }
    let e = if er < en {
        er
    } else {
        en
    };
    assert(e == spec_first_eol(s@));
    let line = substr_copy(s, 0, e);
    out.push(line);
    if e >= n {
        proof {
            assert(spec_split_lines(s@) =~= seq![s@.subrange(0, e as int)]);
            assert(views_of(out@) =~= views_of(old(out)@) + spec_split_lines(s@));
        }
        return ;
    }
    let next = if s.get_char(e) == '\r' && e + 1 < n && s.get_char(e + 1) == '\n' {
        e + 2
    } else {
        e + 1
    };
    let rest = s.substring_char(next, n);
    let ghost mid = out@;
    split_lines_into(rest, out);
    proof {
        assert(spec_split_lines(s@) == seq![s@.subrange(0, e as int)] + spec_split_lines(rest@));
        assert(views_of(out@) =~= views_of(old(out)@) + spec_split_lines(s@));
    }
}

/// The views of a sequence of owned strings.
pub open spec fn views_of(ls: Seq<String>) -> Seq<Seq<char>> {
    ls.map_values(|x: String| x@)
}

/// Lines joined with a newline between consecutive lines.
pub open spec fn spec_join(ls: Seq<Seq<char>>) -> Seq<char>
    decreases ls.len(),
{
    if ls.len() == 0 {
        Seq::<char>::empty()
    } else if ls.len() == 1 {
        ls.last()
    } else {
        spec_join(ls.drop_last()) + seq!['\n'] + ls.last()
    }
}

/// Join the strings at indices `[from, to)` with newlines.
pub fn join_lines(ls: &Vec<String>, from: usize, to: usize) -> (r: String)
    requires
        from <= to <= ls@.len(),
    ensures
        r@ == spec_join(views_of(ls@.subrange(from as int, to as int))),
{
    let mut out = String::new();
    let mut i = from;
    proof {
        assert(out@ =~= spec_join(views_of(ls@.subrange(from as int, from as int))));
    }
    while i < to
        invariant
            from <= i <= to <= ls@.len(),
            out@ == spec_join(views_of(ls@.subrange(from as int, i as int))),
        decreases to - i,
    {
        if i > from {
            out.append("\n");
            proof {
                reveal_strlit("\n");
                assert("\n"@ =~= seq!['\n']);
            }
        }
        out.append(ls[i].as_str());
        proof {
            let ghost pre = views_of(ls@.subrange(from as int, i as int));
            let ghost ext = views_of(ls@.subrange(from as int, i + 1 as int));
            assert(ext.drop_last() =~= pre);
            assert(ext.last() == ls@[i as int]@);
            if i > from {
                assert(out@ =~= spec_join(pre) + seq!['\n'] + ext.last());
            } else {
                assert(out@ =~= ext.last());
            }
        }
        i += 1;
    }
    out
}

/// Relies on `String::push` of std: it appends exactly the one given
/// character to the end of the string.
#[verifier::external_body]
pub fn push_char(s: &mut String, c: char)
    ensures
        final(s)@ == old(s)@.push(c),
{
    s.push(c);
}

/// Status text with line breaks made visible: `\n` and `\r` become the
/// two-character escapes `\\n` and `\\r`.
pub open spec fn spec_escape(s: Seq<char>) -> Seq<char>
    decreases s.len(),
{
    if s.len() == 0 {
        Seq::<char>::empty()
    } else {
        spec_escape(s.drop_last()) + (if s.last() == '\n' {
            seq!['\\', 'n']
        } else if s.last() == '\r' {
            seq!['\\', 'r']
        } else {
            seq![s.last()]
        })
    }
}

/// Escape line breaks in status text.
pub fn escape_status(s: &str) -> (r: String)
    ensures
        r@ == spec_escape(s@),
{
    let n = s.unicode_len();
    let mut out = String::new();
    let mut i: usize = 0;
    proof {
        assert(out@ =~= spec_escape(s@.subrange(0, 0)));
    }
    while i < n
        invariant
            0 <= i <= n == s@.len(),
            out@ == spec_escape(s@.subrange(0, i as int)),
        decreases n - i,
    {
        let c = s.get_char(i);
        let ghost pre = s@.subrange(0, i as int);
        let ghost ext = s@.subrange(0, i + 1 as int);
        proof {
            assert(ext.drop_last() =~= pre);
            assert(ext.last() == s@[i as int]);
        }
        if c == '\n' {
            push_char(&mut out, '\\');
            push_char(&mut out, 'n');
        } else if c == '\r' {
            push_char(&mut out, '\\');
            push_char(&mut out, 'r');
        } else {
            push_char(&mut out, c);
        }
        proof {
            assert(out@ =~= spec_escape(ext));
        }
        i += 1;
    }
    proof {
        assert(s@.subrange(0, n as int) =~= s@);
    }
    out
}

/// Copy a character range of `s` into an owned string.
pub fn substr_copy(s: &str, from: usize, to: usize) -> (r: String)
    requires
        from <= to <= s@.len(),
    ensures
        r@ == s@.subrange(from as int, to as int),
{
    s.substring_char(from, to).to_owned()
}

} // verus!
