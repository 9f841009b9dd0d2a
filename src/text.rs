//! Character-level helpers: ASCII digits, decimal numbers, searching and
//! splitting text, trimming white space, and the std calls that move between
//! strings, characters and bytes.
use vstd::prelude::*;
use vstd::std_specs::iter::IteratorSpec;
use vstd::utf8::{decode_utf8, valid_utf8};

verus! {

/// An ASCII decimal digit.
pub open spec fn is_ascii_digit(c: char) -> bool {
    '0' <= c && c <= '9'
}

/// The value of an ASCII decimal digit.
pub open spec fn ascii_digit_value(c: char) -> int {
    (c as u32) - ('0' as u32)
}

/// The digit character for a value below ten.
pub open spec fn digit_char(d: u8) -> char {
    match d {
        0 => '0',
        1 => '1',
        2 => '2',
        3 => '3',
        4 => '4',
        5 => '5',
        6 => '6',
        7 => '7',
        8 => '8',
        _ => '9',
    }
}

/// Whether `c` is an ASCII decimal digit.
pub fn is_digit_char(c: char) -> (r: bool)
    ensures
        r == is_ascii_digit(c),
{
    '0' <= c && c <= '9'
}

/// The value of an ASCII decimal digit.
pub fn digit_of(c: char) -> (d: u8)
    requires
        is_ascii_digit(c),
    ensures
        d as int == ascii_digit_value(c),
        d <= 9,
{
    ((c as u32) - ('0' as u32)) as u8
}

fn char_of_digit(d: u8) -> (c: char)
    requires
        d <= 9,
    ensures
        c == digit_char(d),
{
    match d {
        0 => '0',
        1 => '1',
        2 => '2',
        3 => '3',
        4 => '4',
        5 => '5',
        6 => '6',
        7 => '7',
        8 => '8',
        _ => '9',
    }
}

// ---------------------------------------------------------------------------
// Decimal numbers
/// A non-empty run of ASCII digits.
pub open spec fn is_decimal(s: Seq<char>) -> bool {
    s.len() > 0 && forall|i: int| 0 <= i < s.len() ==> is_ascii_digit(#[trigger] s[i])
}

/// The value of a run of ASCII digits, read most significant first.
pub open spec fn decimal_value(s: Seq<char>) -> int
    decreases s.len(),
{
    if s.len() == 0 {
        0
    } else {
        decimal_value(s.drop_last()) * 10 + ascii_digit_value(s.last())
    }
}

/// The number that `s` spells in decimal, if it is one and at most `max`.
pub open spec fn parsed_decimal(s: Seq<char>, max: int) -> Option<int> {
    if is_decimal(s) && decimal_value(s) <= max {
        Some(decimal_value(s))
    } else {
        None
    }
}

/// The decimal text of a number, without leading zeros.
pub open spec fn decimal_text(n: nat) -> Seq<char>
    decreases n,
{
    if n < 10 {
        seq![digit_char(n as u8)]
    } else {
        decimal_text(n / 10).push(digit_char((n % 10) as u8))
    }
}

proof fn lemma_decimal_value_grows(s: Seq<char>, i: int)
    requires
        0 <= i <= s.len(),
        forall|k: int| 0 <= k < s.len() ==> is_ascii_digit(#[trigger] s[k]),
    ensures
        0 <= decimal_value(s.subrange(0, i)) <= decimal_value(s),
    decreases s.len() - i,
{
    if i < s.len() {
        lemma_decimal_value_grows(s, i + 1);
        let t = s.subrange(0, i + 1);
        assert(t.drop_last() =~= s.subrange(0, i));
        assert(is_ascii_digit(s[i]));
    } else {
        assert(s.subrange(0, i) =~= s);
        lemma_decimal_value_nonneg(s);
    }
}

proof fn lemma_decimal_value_nonneg(s: Seq<char>)
    requires
        forall|k: int| 0 <= k < s.len() ==> is_ascii_digit(#[trigger] s[k]),
    ensures
        decimal_value(s) >= 0,
    decreases s.len(),
{
    if s.len() > 0 {
        let t = s.drop_last();
        assert forall|k: int| 0 <= k < t.len() implies is_ascii_digit(#[trigger] t[k]) by {
            assert(t[k] == s[k]);
        }
        lemma_decimal_value_nonneg(t);
        assert(is_ascii_digit(s[s.len() - 1]));
    }
}

/// Read `cs[lo..hi]` as a decimal number no greater than `max`.
pub fn parse_decimal(cs: &Vec<char>, lo: usize, hi: usize, max: u32) -> (r: Option<u32>)
    requires
        lo <= hi <= cs@.len(),
        max <= 0xffff,
    ensures
        r matches Some(v) ==> parsed_decimal(cs@.subrange(lo as int, hi as int), max as int) == Some(
            v as int,
        ),
        r is None ==> parsed_decimal(cs@.subrange(lo as int, hi as int), max as int) is None,
{
    let ghost s = cs@.subrange(lo as int, hi as int);
    if lo == hi {
        return None;
    }
    let mut i: usize = lo;
    let mut v: u32 = 0;
    while i < hi
        invariant
            lo <= i <= hi <= cs@.len(),
            s == cs@.subrange(lo as int, hi as int),
            v <= max <= 0xffff,
            forall|k: int| lo <= k < i ==> is_ascii_digit(#[trigger] cs@[k]),
            v as int == decimal_value(s.subrange(0, i - lo)),
        decreases hi - i,
    {
        let c = cs[i];
        if !is_digit_char(c) {
            assert(s[i - lo] == c);
            return None;
        }
        let d = digit_of(c);
        let next: u32 = v * 10 + d as u32;
        proof {
            let t = s.subrange(0, i - lo + 1);
            assert(t.drop_last() =~= s.subrange(0, i - lo));
            assert(t.last() == c);
        }
        if next > max {
            proof {
                // Further digits only make the number larger.
                if forall|k: int| 0 <= k < s.len() ==> is_ascii_digit(#[trigger] s[k]) {
                    lemma_decimal_value_grows(s, i - lo + 1);
                }
            }
            return None;
        }
        v = next;
        i = i + 1;
    }
    assert(s.subrange(0, i - lo) =~= s);
    Some(v)
}

/// Append the decimal text of `n` to `s`.
pub fn push_decimal(s: &mut String, n: u16)
    ensures
        final(s)@ == old(s)@ + decimal_text(n as nat),
    decreases n,
{
    if n >= 10 {
        push_decimal(s, n / 10);
    }
    push_char(s, char_of_digit((n % 10) as u8));
    proof {
        if n >= 10 {
            assert(decimal_text(n as nat) == decimal_text((n / 10) as nat).push(digit_char((n % 10) as u8)));
        }
    }
}

// ---------------------------------------------------------------------------
// Searching
/// `i` is the position of the first `c` in `s`.
pub open spec fn is_first_index(s: Seq<char>, c: char, i: int) -> bool {
    &&& 0 <= i < s.len()
    &&& s[i] == c
    &&& forall|j: int| 0 <= j < i ==> s[j] != c
}

/// The position of the first `c` in `s`, or -1 when there is none.
pub open spec fn first_index_of(s: Seq<char>, c: char) -> int {
    if exists|i: int| is_first_index(s, c, i) {
        choose|i: int| is_first_index(s, c, i)
    } else {
        -1
    }
}

/// `i` is the position of the last `c` in `s`.
pub open spec fn is_last_index(s: Seq<char>, c: char, i: int) -> bool {
    &&& 0 <= i < s.len()
    &&& s[i] == c
    &&& forall|j: int| i < j < s.len() ==> s[j] != c
}

/// The position of the last `c` in `s`, or -1 when there is none.
pub open spec fn last_index_of(s: Seq<char>, c: char) -> int {
    if exists|i: int| is_last_index(s, c, i) {
        choose|i: int| is_last_index(s, c, i)
    } else {
        -1
    }
}

/// Three `c` in a row start at `i`.
pub open spec fn triple_at(s: Seq<char>, c: char, i: int) -> bool {
    0 <= i && i + 3 <= s.len() && s[i] == c && s[i + 1] == c && s[i + 2] == c
}

/// `i` is where the first run of three `c` starts.
pub open spec fn is_first_triple(s: Seq<char>, c: char, i: int) -> bool {
    triple_at(s, c, i) && forall|j: int| 0 <= j < i ==> !triple_at(s, c, j)
}

/// The start of the first run of three `c` in `s`, or -1 when there is none.
pub open spec fn first_triple_of(s: Seq<char>, c: char) -> int {
    if exists|i: int| is_first_triple(s, c, i) {
        choose|i: int| is_first_triple(s, c, i)
    } else {
        -1
    }
}

/// The position that satisfies `is_first_index` is the one `first_index_of` picks.
pub proof fn lemma_first_index(s: Seq<char>, c: char, i: int)
    requires
        is_first_index(s, c, i),
    ensures
        first_index_of(s, c) == i,
{
    let k = first_index_of(s, c);
    assert(is_first_index(s, c, k));
    if k < i {
        assert(s[k] != c);
    } else if k > i {
        assert(s[i] != c);
    }
}

/// Without any `c`, there is neither a first nor a last one.
pub proof fn lemma_no_index(s: Seq<char>, c: char)
    requires
        forall|j: int| 0 <= j < s.len() ==> s[j] != c,
    ensures
        first_index_of(s, c) == -1,
        last_index_of(s, c) == -1,
{
}

/// The position of the first `c` in `cs`.
pub fn find_char(cs: &Vec<char>, c: char) -> (r: Option<usize>)
    ensures
        r matches Some(i) ==> i as int == first_index_of(cs@, c),
        r is None ==> first_index_of(cs@, c) == -1,
{
    let mut i: usize = 0;
    while i < cs.len()
        invariant
            i <= cs@.len(),
            forall|j: int| 0 <= j < i ==> cs@[j] != c,
        decreases cs.len() - i,
    {
        if cs[i] == c {
            proof {
                lemma_first_index(cs@, c, i as int);
            }
            return Some(i);
        }
        i = i + 1;
    }
    None
}

/// The position of the last `c` in `cs`.
pub fn rfind_char(cs: &Vec<char>, c: char) -> (r: Option<usize>)
    ensures
        r matches Some(i) ==> i as int == last_index_of(cs@, c),
        r is None ==> last_index_of(cs@, c) == -1,
{
    let mut i: usize = cs.len();
    while i > 0
        invariant
            i <= cs@.len(),
            forall|j: int| i <= j < cs@.len() ==> cs@[j] != c,
        decreases i,
    {
        if cs[i - 1] == c {
            proof {
                let k = last_index_of(cs@, c);
                assert(is_last_index(cs@, c, i - 1));
                assert(is_last_index(cs@, c, k));
                if k < i - 1 {
                    assert(cs@[i - 1] != c);
                } else if k > i - 1 {
                    assert(cs@[k] != c);
                }
            }
            return Some(i - 1);
        }
        i = i - 1;
    }
    None
}

/// The start of the first run of three `c` in `cs`.
pub fn find_triple(cs: &Vec<char>, c: char) -> (r: Option<usize>)
    ensures
        r matches Some(i) ==> i as int == first_triple_of(cs@, c),
        r is None ==> first_triple_of(cs@, c) == -1,
{
    if cs.len() < 3 {
        proof {
            assert forall|j: int| 0 <= j implies !#[trigger] triple_at(cs@, c, j) by {}
        }
        return None;
    }
    let mut i: usize = 0;
    while i <= cs.len() - 3
        invariant
            cs@.len() >= 3,
            forall|j: int| 0 <= j < i ==> !triple_at(cs@, c, j),
        decreases cs.len() - i,
    {
        if cs[i] == c && cs[i + 1] == c && cs[i + 2] == c {
            proof {
                let k = first_triple_of(cs@, c);
                assert(is_first_triple(cs@, c, i as int));
                assert(is_first_triple(cs@, c, k));
                if k < i {
                    assert(!triple_at(cs@, c, k));
                } else if k > i {
                    assert(!triple_at(cs@, c, i as int));
                }
            }
            return Some(i);
        }
        i = i + 1;
    }
    proof {
        assert forall|j: int| 0 <= j implies !#[trigger] triple_at(cs@, c, j) by {
            if j >= i {
                assert(!(j + 3 <= cs@.len()));
            }
        }
    }
    None
}

// ---------------------------------------------------------------------------
// Splitting
/// The pieces of `s` between occurrences of `c`, in order. There is always at
/// least one piece.
pub open spec fn split_on(s: Seq<char>, c: char) -> Seq<Seq<char>>
    decreases s.len(),
{
    let i = first_index_of(s, c);
    if 0 <= i < s.len() {
        seq![s.subrange(0, i)] + split_on(s.subrange(i + 1, s.len() as int), c)
    } else {
        seq![s]
    }
}

/// The character sequences of a list of pieces.
pub open spec fn views_of(pieces: Seq<Vec<char>>) -> Seq<Seq<char>> {
    pieces.map_values(|p: Vec<char>| p@)
}

/// A copy of `cs[lo..hi]`.
pub fn slice_chars(cs: &Vec<char>, lo: usize, hi: usize) -> (r: Vec<char>)
    requires
        lo <= hi <= cs@.len(),
    ensures
        r@ == cs@.subrange(lo as int, hi as int),
{
    let mut r: Vec<char> = Vec::new();
    let mut i: usize = lo;
    while i < hi
        invariant
            lo <= i <= hi <= cs@.len(),
            r@ == cs@.subrange(lo as int, i as int),
        decreases hi - i,
    {
        r.push(cs[i]);
        i = i + 1;
        assert(r@ =~= cs@.subrange(lo as int, i as int));
    }
    r
}

/// Cut `cs` at every `c`.
pub fn split_chars(cs: &Vec<char>, c: char) -> (r: Vec<Vec<char>>)
    ensures
        views_of(r@) == split_on(cs@, c),
{
    let mut pieces: Vec<Vec<char>> = Vec::new();
    let mut start: usize = 0;
    let mut i: usize = 0;
    assert(cs@.subrange(0, cs@.len() as int) =~= cs@);
    assert(views_of(pieces@) =~= Seq::<Seq<char>>::empty());
    while i < cs.len()
        invariant
            start <= i <= cs@.len(),
            forall|j: int| start <= j < i ==> cs@[j] != c,
            views_of(pieces@) + split_on(cs@.subrange(start as int, cs@.len() as int), c) == split_on(
                cs@,
                c,
            ),
        decreases cs.len() - i,
    {
        if cs[i] == c {
            let piece = slice_chars(cs, start, i);
            proof {
                let rest = cs@.subrange(start as int, cs@.len() as int);
                assert(is_first_index(rest, c, i - start)) by {
                    assert forall|j: int| 0 <= j < i - start implies rest[j] != c by {
                        assert(rest[j] == cs@[start + j]);
                    }
                }
                lemma_first_index(rest, c, i - start);
                assert(rest.subrange(0, i - start) =~= piece@);
                assert(rest.subrange(i - start + 1, rest.len() as int) =~= cs@.subrange(
                    i + 1,
                    cs@.len() as int,
                ));
                assert(views_of(pieces@.push(piece)) =~= views_of(pieces@).push(piece@));
                assert(seq![piece@] + split_on(cs@.subrange(i + 1, cs@.len() as int), c)
                    == split_on(rest, c));
                assert(views_of(pieces@).push(piece@) + split_on(
                    cs@.subrange(i + 1, cs@.len() as int),
                    c,
                ) =~= views_of(pieces@) + (seq![piece@] + split_on(
                    cs@.subrange(i + 1, cs@.len() as int),
                    c,
                )));
            }
            pieces.push(piece);
            start = i + 1;
        }
        i = i + 1;
    }
    let last = slice_chars(cs, start, cs.len());
    proof {
        let rest = cs@.subrange(start as int, cs@.len() as int);
        assert forall|j: int| 0 <= j < rest.len() implies rest[j] != c by {
            assert(rest[j] == cs@[start + j]);
        }
        lemma_no_index(rest, c);
        assert(views_of(pieces@.push(last)) =~= views_of(pieces@).push(last@));
        assert(views_of(pieces@) + seq![rest] =~= views_of(pieces@).push(last@));
    }
    pieces.push(last);
    pieces
}

// ---------------------------------------------------------------------------
// White space
/// A character with the Unicode `White_Space` property.
pub open spec fn is_white_space(c: char) -> bool {
    ||| '\u{9}' <= c && c <= '\u{d}'
    ||| c == ' '
    ||| c == '\u{85}'
    ||| c == '\u{a0}'
    ||| c == '\u{1680}'
    ||| '\u{2000}' <= c && c <= '\u{200a}'
    ||| c == '\u{2028}'
    ||| c == '\u{2029}'
    ||| c == '\u{202f}'
    ||| c == '\u{205f}'
    ||| c == '\u{3000}'
}

/// Whether `c` is white space in Unicode's sense.
pub fn white_space(c: char) -> (r: bool)
    ensures
        r == is_white_space(c),
{
    ('\u{9}' <= c && c <= '\u{d}') || c == ' ' || c == '\u{85}' || c == '\u{a0}' || c
        == '\u{1680}' || ('\u{2000}' <= c && c <= '\u{200a}') || c == '\u{2028}' || c
        == '\u{2029}' || c == '\u{202f}' || c == '\u{205f}' || c == '\u{3000}'
}

/// `s` without its leading white space.
pub open spec fn trim_start(s: Seq<char>) -> Seq<char>
    decreases s.len(),
{
    if s.len() > 0 && is_white_space(s[0]) {
        trim_start(s.drop_first())
    } else {
        s
    }
}

/// `s` without its trailing white space.
pub open spec fn trim_end(s: Seq<char>) -> Seq<char>
    decreases s.len(),
{
    if s.len() > 0 && is_white_space(s.last()) {
        trim_end(s.drop_last())
    } else {
        s
    }
}

/// `s` without leading and trailing white space.
pub open spec fn trimmed(s: Seq<char>) -> Seq<char> {
    trim_end(trim_start(s))
}

/// The bounds of `cs[lo..]` once leading and trailing white space is cut.
pub fn trim_bounds(cs: &Vec<char>, lo: usize) -> (r: (usize, usize))
    requires
        lo <= cs@.len(),
    ensures
        lo <= r.0 <= r.1 <= cs@.len(),
        cs@.subrange(r.0 as int, r.1 as int) == trimmed(cs@.subrange(lo as int, cs@.len() as int)),
{
    let n = cs.len();
    let mut a: usize = lo;
    while a < n && white_space(cs[a])
        invariant
            lo <= a <= n == cs@.len(),
            trim_start(cs@.subrange(lo as int, n as int)) == trim_start(
                cs@.subrange(a as int, n as int),
            ),
        decreases n - a,
    {
        assert(cs@.subrange(a as int, n as int).drop_first() =~= cs@.subrange(a + 1, n as int));
        a = a + 1;
    }
    let mut b: usize = n;
    while b > a && white_space(cs[b - 1])
        invariant
            lo <= a <= b <= n == cs@.len(),
            trim_start(cs@.subrange(a as int, n as int)) == cs@.subrange(a as int, n as int),
            trim_end(cs@.subrange(a as int, n as int)) == trim_end(
                cs@.subrange(a as int, b as int),
            ),
        decreases b - a,
    {
        assert(cs@.subrange(a as int, b as int).drop_last() =~= cs@.subrange(a as int, b - 1));
        b = b - 1;
    }
    (a, b)
}

// ---------------------------------------------------------------------------
// Lines
/// A line without the carriage return that ended it.
pub open spec fn without_cr(line: Seq<char>) -> Seq<char> {
    if line.len() > 0 && line.last() == '\r' {
        line.drop_last()
    } else {
        line
    }
}

/// The lines of a text: cut at each `\n`, a `\r` before the `\n` dropped,
/// and no empty line after a final `\n`.
pub open spec fn text_lines(s: Seq<char>) -> Seq<Seq<char>> {
    let parts = split_on(s, '\n');
    let n = parts.len() - 1;
    let ended = parts.take(n).map_values(|p: Seq<char>| without_cr(p));
    if parts[n].len() == 0 {
        ended
    } else {
        ended.push(parts[n])
    }
}

/// Splitting always gives at least one piece.
pub proof fn lemma_split_nonempty(s: Seq<char>, c: char)
    ensures
        split_on(s, c).len() >= 1,
    decreases s.len(),
{
    let i = first_index_of(s, c);
    if 0 <= i < s.len() {
        lemma_split_nonempty(s.subrange(i + 1, s.len() as int), c);
    }
}

// ---------------------------------------------------------------------------
// std
/// The characters of a string, in order.
pub fn chars_of(s: &str) -> (r: Vec<char>)
    ensures
        r@ == s@,
{
    broadcast use vstd::string::group_string_axioms;

    let mut it = s.chars();
    let mut r: Vec<char> = Vec::new();
    loop
        invariant
            r@ + it.remaining() == s@,
            it.obeys_prophetic_iter_laws(),
        ensures
            r@ == s@,
        decreases s@.len() - r@.len(),
    {
        let ghost before = it;
        match it.next() {
            Some(c) => {
                r.push(c);
            },
            None => {
                assert(before.remaining().len() == 0);
                assert(r@ =~= s@);
                break ;
            },
        }
    }
    r
}

/// Relies on `String::push`: one character is appended.
#[verifier::external_body]
pub fn push_char(s: &mut String, c: char)
    ensures
        final(s)@ == old(s)@.push(c),
{
    s.push(c)
}

/// Relies on `String::from_utf8`: it succeeds exactly on valid UTF-8 and then
/// holds the characters that the bytes encode.
#[verifier::external_body]
pub fn string_from_utf8(bytes: Vec<u8>) -> (r: Option<String>)
    ensures
        r is Some <==> valid_utf8(bytes@),
        r matches Some(s) ==> s@ == decode_utf8(bytes@),
{
    String::from_utf8(bytes).ok()
}

/// A string holding the characters `cs[lo..hi]`.
pub fn string_of(cs: &Vec<char>, lo: usize, hi: usize) -> (r: String)
    requires
        lo <= hi <= cs@.len(),
    ensures
        r@ == cs@.subrange(lo as int, hi as int),
{
    let mut r = String::new();
    let mut i: usize = lo;
    while i < hi
        invariant
            lo <= i <= hi <= cs@.len(),
            r@ == cs@.subrange(lo as int, i as int),
        decreases hi - i,
    {
        push_char(&mut r, cs[i]);
        i = i + 1;
        assert(r@ =~= cs@.subrange(lo as int, i as int));
    }
    r
}

/// The lines of `text`, as `text_lines` describes them.
pub fn lines_of(text: &str) -> (r: Vec<String>)
    ensures
        r@.map_values(|l: String| l@) == text_lines(text@),
{
    let cs = chars_of(text);
    let parts = split_chars(&cs, '\n');
    proof {
        lemma_split_nonempty(cs@, '\n');
    }
    let ghost spec_parts = split_on(cs@, '\n');
    let n = parts.len() - 1;
    let mut lines: Vec<String> = Vec::new();
    let mut k: usize = 0;
    while k < n
        invariant
            n + 1 == parts@.len(),
            views_of(parts@) == spec_parts,
            k <= n,
            lines@.map_values(|l: String| l@) == spec_parts.take(k as int).map_values(
                |p: Seq<char>| without_cr(p),
            ),
        decreases n - k,
    {
        let piece = &parts[k];
        let mut end = piece.len();
        if end > 0 && piece[end - 1] == '\r' {
            end = end - 1;
        }
        let line = string_of(piece, 0, end);
        proof {
            assert(spec_parts[k as int] == piece@);
            assert(line@ =~= without_cr(piece@));
            assert(lines@.push(line).map_values(|l: String| l@) =~= lines@.map_values(
                |l: String| l@,
            ).push(line@));
            assert(spec_parts.take(k + 1).map_values(|p: Seq<char>| without_cr(p))
                =~= spec_parts.take(k as int).map_values(|p: Seq<char>| without_cr(p)).push(
                without_cr(spec_parts[k as int]),
            ));
        }
        lines.push(line);
        k = k + 1;
    }
    let last = &parts[n];
    assert(spec_parts[n as int] == last@);
    if last.len() > 0 {
        let line = string_of(last, 0, last.len());
        assert(line@ =~= last@);
        assert(lines@.push(line).map_values(|l: String| l@) =~= lines@.map_values(|l: String| l@).push(line@));
        lines.push(line);
    }
    lines
}

} // verus!
