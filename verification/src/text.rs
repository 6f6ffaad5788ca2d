//! Text helpers on character sequences: whitespace trimming, joining, line
//! splitting and decimal rendering of integers.

use vstd::prelude::*;
use vstd::string::{StringExecFns, StrSliceExecFns};

verus! {

/// Unicode `White_Space` characters, the ones that `char::is_whitespace` accepts.
pub open spec fn is_ws(c: char) -> bool {
    let u = c as u32;
    ||| 0x09 <= u <= 0x0d
    ||| u == 0x20
    ||| u == 0x85
    ||| u == 0xa0
    ||| u == 0x1680
    ||| 0x2000 <= u <= 0x200a
    ||| u == 0x2028
    ||| u == 0x2029
    ||| u == 0x202f
    ||| u == 0x205f
    ||| u == 0x3000
}

/// Whether `c` is a whitespace character.
pub fn is_whitespace(c: char) -> (r: bool)
    ensures
        r == is_ws(c),
{
    let u = c as u32;
    (0x09 <= u && u <= 0x0d) || u == 0x20 || u == 0x85 || u == 0xa0 || u == 0x1680 || (0x2000
        <= u && u <= 0x200a) || u == 0x2028 || u == 0x2029 || u == 0x202f || u == 0x205f || u
        == 0x3000
}

/// `s` without its leading whitespace.
pub open spec fn trim_start(s: Seq<char>) -> Seq<char>
    decreases s.len(),
{
    if s.len() > 0 && is_ws(s[0]) {
        trim_start(s.drop_first())
    } else {
        s
    }
}

/// `s` without its trailing whitespace.
pub open spec fn trim_end(s: Seq<char>) -> Seq<char>
    decreases s.len(),
{
    if s.len() > 0 && is_ws(s.last()) {
        trim_end(s.drop_last())
    } else {
        s
    }
}

/// `s` without leading and trailing whitespace.
pub open spec fn trim(s: Seq<char>) -> Seq<char> {
    trim_end(trim_start(s))
}

/// What trimming keeps is a piece of the text that neither starts nor ends
/// with whitespace, and everything cut off around it is whitespace.
pub proof fn lemma_trim_shape(s: Seq<char>)
    ensures
        exists|i: int, j: int|
            0 <= i <= j <= s.len() && trim(s) == s.subrange(i, j) && (forall|k: int|
                0 <= k < i ==> is_ws(#[trigger] s[k])) && (forall|k: int|
                j <= k < s.len() ==> is_ws(#[trigger] s[k])),
        trim(s).len() > 0 ==> !is_ws(trim(s)[0]) && !is_ws(trim(s).last()),
{
    let i = lemma_trim_start_index(s);
    let t = s.subrange(i, s.len() as int);
    let j = lemma_trim_end_index(t);
    assert(trim(s) == s.subrange(i, i + j));
    assert forall|k: int| i + j <= k < s.len() implies is_ws(#[trigger] s[k]) by {
        assert(t[k - i] == s[k]);
    }
}

proof fn lemma_trim_start_index(s: Seq<char>) -> (i: int)
    ensures
        0 <= i <= s.len(),
        trim_start(s) == s.subrange(i, s.len() as int),
        forall|k: int| 0 <= k < i ==> is_ws(#[trigger] s[k]),
        i < s.len() ==> !is_ws(s[i]),
    decreases s.len(),
{
    if s.len() > 0 && is_ws(s[0]) {
        let i0 = lemma_trim_start_index(s.drop_first());
        assert(s.drop_first().subrange(i0, s.drop_first().len() as int) =~= s.subrange(
            i0 + 1,
            s.len() as int,
        ));
        assert forall|k: int| 0 <= k < i0 + 1 implies is_ws(#[trigger] s[k]) by {
            if k > 0 {
                assert(s.drop_first()[k - 1] == s[k]);
            }
        }
        i0 + 1
    } else {
        assert(s.subrange(0, s.len() as int) =~= s);
        0
    }
}

proof fn lemma_trim_end_index(s: Seq<char>) -> (j: int)
    ensures
        0 <= j <= s.len(),
        trim_end(s) == s.subrange(0, j),
        forall|k: int| j <= k < s.len() ==> is_ws(#[trigger] s[k]),
        j > 0 ==> !is_ws(s[j - 1]),
        s.len() > 0 && !is_ws(s[0]) ==> j > 0,
    decreases s.len(),
{
    if s.len() > 0 && is_ws(s.last()) {
        let j0 = lemma_trim_end_index(s.drop_last());
        assert(s.drop_last().subrange(0, j0) =~= s.subrange(0, j0));
        assert forall|k: int| j0 <= k < s.len() implies is_ws(#[trigger] s[k]) by {
            if k < s.len() - 1 {
                assert(s.drop_last()[k] == s[k]);
            }
        }
        if s.len() > 0 && !is_ws(s[0]) {
            assert(s.drop_last()[0] == s[0]);
        }
        j0
    } else {
        assert(s.subrange(0, s.len() as int) =~= s);
        s.len() as int
    }
}

proof fn lemma_trim_start_step(s: Seq<char>, i: int)
    requires
        0 <= i < s.len(),
        is_ws(s[i]),
    ensures
        trim_start(s.subrange(i, s.len() as int)) == trim_start(s.subrange(i + 1, s.len() as int)),
{
    assert(s.subrange(i, s.len() as int).drop_first() =~= s.subrange(i + 1, s.len() as int));
}

proof fn lemma_trim_end_step(s: Seq<char>, i: int, j: int)
    requires
        0 <= i < j <= s.len(),
        is_ws(s[j - 1]),
    ensures
        trim_end(s.subrange(i, j)) == trim_end(s.subrange(i, j - 1)),
{
    assert(s.subrange(i, j).drop_last() =~= s.subrange(i, j - 1));
}

/// `s` with leading and trailing whitespace removed, as `str::trim` does.
pub fn trim_text(s: &str) -> (r: String)
    ensures
        r@ == trim(s@),
{
    let n = s.unicode_len();
    let mut i: usize = 0;
    assert(s@.subrange(0, n as int) =~= s@);
    while i < n && is_whitespace(s.get_char(i))
        invariant
            n == s@.len(),
            i <= n,
            trim_start(s@) == trim_start(s@.subrange(i as int, n as int)),
        decreases n - i,
    {
        proof {
            lemma_trim_start_step(s@, i as int);
        }
        i = i + 1;
    }
    proof {
        if i < n {
            assert(s@.subrange(i as int, n as int)[0] == s@[i as int]);
        }
        assert(trim_start(s@) == s@.subrange(i as int, n as int));
    }
    let mut j: usize = n;
    while j > i && is_whitespace(s.get_char(j - 1))
        invariant
            n == s@.len(),
            i <= j <= n,
            trim(s@) == trim_end(s@.subrange(i as int, j as int)),
        decreases j,
    {
        proof {
            lemma_trim_end_step(s@, i as int, j as int);
        }
        j = j - 1;
    }
    proof {
        if j > i {
            assert(s@.subrange(i as int, j as int).last() == s@[j - 1]);
        }
    }
    s.substring_char(i, j).to_owned()
}

/// The parts joined by single spaces.
pub open spec fn join_spaced(parts: Seq<Seq<char>>) -> Seq<char>
    decreases parts.len(),
{
    if parts.len() == 0 {
        seq![]
    } else if parts.len() == 1 {
        parts[0]
    } else {
        join_spaced(parts.drop_last()) + " "@ + parts.last()
    }
}

/// The parts one after another.
pub open spec fn concat_all(parts: Seq<Seq<char>>) -> Seq<char>
    decreases parts.len(),
{
    if parts.len() == 0 {
        seq![]
    } else {
        concat_all(parts.drop_last()) + parts.last()
    }
}

pub open spec fn strings_view(v: Seq<String>) -> Seq<Seq<char>> {
    v.map_values(|s: String| s@)
}

/// Joins the texts with single spaces, as `[String]::join(" ")` does.
pub fn join_with_spaces(parts: &Vec<String>) -> (r: String)
    ensures
        r@ == join_spaced(strings_view(parts@)),
{
    let mut out = String::new();
    let mut k: usize = 0;
    while k < parts.len()
        invariant
            k <= parts.len(),
            out@ == join_spaced(strings_view(parts@).take(k as int)),
        decreases parts.len() - k,
    {
        let ghost v = strings_view(parts@);
        proof {
            assert(v.take(k + 1).drop_last() =~= v.take(k as int));
            assert(v.take(k + 1).last() == parts@[k as int]@);
        }
        if k > 0 {
            out.append(" ");
        } else {
            assert(v.take(1) =~= seq![parts@[0]@]);
        }
        out.append(parts[k].as_str());
        k = k + 1;
    }
    assert(strings_view(parts@).take(parts.len() as int) =~= strings_view(parts@));
    out
}

/// Concatenates the texts.
pub fn concat_texts(parts: &Vec<String>) -> (r: String)
    ensures
        r@ == concat_all(strings_view(parts@)),
{
    let mut out = String::new();
    let mut k: usize = 0;
    while k < parts.len()
        invariant
            k <= parts.len(),
            out@ == concat_all(strings_view(parts@).take(k as int)),
        decreases parts.len() - k,
    {
        let ghost v = strings_view(parts@);
        proof {
            assert(v.take(k + 1).drop_last() =~= v.take(k as int));
        }
        out.append(parts[k].as_str());
        k = k + 1;
    }
    assert(strings_view(parts@).take(parts.len() as int) =~= strings_view(parts@));
    out
}

/// `s` begins with `p`.
pub open spec fn starts_with(s: Seq<char>, p: Seq<char>) -> bool {
    p.len() <= s.len() && s.subrange(0, p.len() as int) == p
}

/// `p` occurs in `s` at position `i`.
pub open spec fn occurs_at(s: Seq<char>, p: Seq<char>, i: int) -> bool {
    0 <= i && i + p.len() <= s.len() && s.subrange(i, i + p.len()) == p
}

/// `p` occurs somewhere in `s`.
pub open spec fn contains_seq(s: Seq<char>, p: Seq<char>) -> bool {
    exists|i: int| occurs_at(s, p, i)
}

/// Whether `s[at..]` begins with `p`.
fn matches_at(s: &str, n: usize, p: &str, m: usize, at: usize) -> (r: bool)
    requires
        n == s@.len(),
        m == p@.len(),
        at <= n,
    ensures
        r == occurs_at(s@, p@, at as int),
{
    if m > n - at {
        return false;
    }
    let mut k: usize = 0;
    while k < m
        invariant
            n == s@.len(),
            m == p@.len(),
            at + m <= n,
            k <= m,
            forall|j: int| 0 <= j < k ==> s@[at + j] == p@[j],
        decreases m - k,
    {
        if s.get_char(at + k) != p.get_char(k) {
            assert(s@.subrange(at as int, at + m)[k as int] != p@[k as int]);
            return false;
        }
        k = k + 1;
    }
    assert(s@.subrange(at as int, at + m) =~= p@);
    true
}

/// Whether `s` begins with `p`, as `str::starts_with` does.
pub fn has_prefix(s: &str, p: &str) -> (r: bool)
    ensures
        r == starts_with(s@, p@),
{
    matches_at(s, s.unicode_len(), p, p.unicode_len(), 0)
}

/// Whether `p` occurs in `s`, as `str::contains` does.
pub fn contains_text(s: &str, p: &str) -> (r: bool)
    ensures
        r == contains_seq(s@, p@),
{
    let n = s.unicode_len();
    let m = p.unicode_len();
    let mut at: usize = 0;
    while at < n
        invariant
            n == s@.len(),
            m == p@.len(),
            at <= n,
            forall|j: int| 0 <= j < at ==> !occurs_at(s@, p@, j),
        decreases n - at,
    {
        if matches_at(s, n, p, m, at) {
            return true;
        }
        at = at + 1;
    }
    let last = matches_at(s, n, p, m, n);
    assert(!last ==> forall|j: int| !occurs_at(s@, p@, j));
    last
}

/// Index of the first line feed at or after `i`, or the length of `s`.
pub open spec fn next_newline(s: Seq<char>, i: int) -> int
    decreases s.len() - i,
{
    if i >= s.len() {
        s.len() as int
    } else if s[i] == '\n' {
        i
    } else {
        next_newline(s, i + 1)
    }
}

pub proof fn lemma_next_newline(s: Seq<char>, i: int)
    requires
        0 <= i,
    ensures
        i <= s.len() ==> i <= next_newline(s, i) <= s.len(),
        i > s.len() ==> next_newline(s, i) == s.len(),
        next_newline(s, i) < s.len() ==> s[next_newline(s, i)] == '\n',
        forall|k: int| i <= k < next_newline(s, i) ==> s[k] != '\n',
    decreases s.len() - i,
{
    if i < s.len() && s[i] != '\n' {
        lemma_next_newline(s, i + 1);
    }
}

/// The line that starts at `start` and ends before the line feed at `e` (or
/// at the end of `s`); a carriage return right before a line feed is not part
/// of the line.
pub open spec fn line_text(s: Seq<char>, start: int, e: int) -> Seq<char> {
    if e < s.len() && e > start && s[e - 1] == '\r' {
        s.subrange(start, e - 1)
    } else {
        s.subrange(start, e)
    }
}

/// The lines of `s` from position `start` on.
pub open spec fn lines_from(s: Seq<char>, start: int) -> Seq<Seq<char>>
    decreases s.len() + 1 - start,
{
    if start < 0 || start >= s.len() {
        seq![]
    } else {
        let e = next_newline(s, start);
        proof {
            lemma_next_newline(s, start);
        }
        seq![line_text(s, start, e)] + lines_from(s, e + 1)
    }
}

/// The lines of `s`, as `str::lines` gives them: split at line feeds, a
/// carriage return before a line feed dropped, no empty line after a final
/// line feed.
pub open spec fn lines(s: Seq<char>) -> Seq<Seq<char>> {
    lines_from(s, 0)
}

/// The lines of `s`.
pub fn split_lines(s: &str) -> (r: Vec<String>)
    ensures
        strings_view(r@) == lines(s@),
{
    let n = s.unicode_len();
    let mut out: Vec<String> = Vec::new();
    let mut start: usize = 0;
    while start < n
        invariant
            n == s@.len(),
            start <= n,
            strings_view(out@) + lines_from(s@, start as int) == lines(s@),
        decreases n - start,
    {
        let mut e: usize = start;
        while e < n && s.get_char(e) != '\n'
            invariant
                n == s@.len(),
                start <= e <= n,
                next_newline(s@, start as int) == next_newline(s@, e as int),
            decreases n - e,
        {
            e = e + 1;
        }
        proof {
            lemma_next_newline(s@, start as int);
        }
        let end = if e < n && e > start && s.get_char(e - 1) == '\r' {
            e - 1
        } else {
            e
        };
        let line = s.substring_char(start, end).to_owned();
        let ghost before = strings_view(out@);
        out.push(line);
        proof {
            assert(strings_view(out@) =~= before.push(line_text(s@, start as int, e as int)));
            assert(lines_from(s@, start as int) == seq![line_text(s@, start as int, e as int)]
                + lines_from(s@, e + 1));
            assert(before + lines_from(s@, start as int) =~= before.push(
                line_text(s@, start as int, e as int),
            ) + lines_from(s@, e + 1));
        }
        if e < n {
            start = e + 1;
        } else {
            start = n;
        }
    }
    proof {
        assert(lines_from(s@, start as int) =~= Seq::<Seq<char>>::empty());
        assert(strings_view(out@) + Seq::<Seq<char>>::empty() =~= strings_view(out@));
    }
    out
}

/// The first of `ls` that begins with `p`.
pub open spec fn first_with_prefix(ls: Seq<Seq<char>>, p: Seq<char>) -> Option<Seq<char>>
    decreases ls.len(),
{
    if ls.len() == 0 {
        None
    } else if starts_with(ls[0], p) {
        Some(ls[0])
    } else {
        first_with_prefix(ls.drop_first(), p)
    }
}

/// The first line that begins with `p`, if any.
pub fn find_with_prefix<'a>(ls: &'a Vec<String>, p: &str) -> (r: Option<&'a String>)
    ensures
        match r {
            Some(l) => first_with_prefix(strings_view(ls@), p@) == Some(l@),
            None => first_with_prefix(strings_view(ls@), p@) is None,
        },
{
    let ghost v = strings_view(ls@);
    let mut i: usize = 0;
    assert(v.subrange(0, v.len() as int) =~= v);
    while i < ls.len()
        invariant
            i <= ls.len(),
            v == strings_view(ls@),
            first_with_prefix(v, p@) == first_with_prefix(v.subrange(i as int, v.len() as int), p@),
        decreases ls.len() - i,
    {
        let ghost rest = v.subrange(i as int, v.len() as int);
        assert(rest[0] == ls@[i as int]@);
        if has_prefix(ls[i].as_str(), p) {
            return Some(&ls[i]);
        }
        assert(rest.drop_first() =~= v.subrange(i + 1, v.len() as int));
        i = i + 1;
    }
    None
}

/// The character of a decimal digit.
pub open spec fn digit_char(d: nat) -> char {
    (48 + d) as char
}

/// Decimal rendering of a natural number, most significant digit first, with no leading zeros.
pub open spec fn spec_decimal(n: nat) -> Seq<char>
    decreases n,
{
    if n < 10 {
        seq![digit_char(n)]
    } else {
        spec_decimal(n / 10) + seq![digit_char(n % 10)]
    }
}

fn digit_str(d: u64) -> (r: &'static str)
    requires
        d < 10,
    ensures
        r@ == seq![digit_char(d as nat)],
{
    proof {
        reveal_strlit("0");
        reveal_strlit("1");
        reveal_strlit("2");
        reveal_strlit("3");
        reveal_strlit("4");
        reveal_strlit("5");
        reveal_strlit("6");
        reveal_strlit("7");
        reveal_strlit("8");
        reveal_strlit("9");
    }
    let r = match d {
        0 => "0",
        1 => "1",
        2 => "2",
        3 => "3",
        4 => "4",
        5 => "5",
        6 => "6",
        7 => "7",
        8 => "8",
        _ => "9",
    };
    assert(r@ =~= seq![digit_char(d as nat)]);
    r
}

/// Appends the decimal rendering of `n` to `out`.
pub fn append_decimal(out: &mut String, n: u64)
    ensures
        final(out)@ == old(out)@ + spec_decimal(n as nat),
    decreases n,
{
    if n >= 10 {
        append_decimal(out, n / 10);
    }
    out.append(digit_str(n % 10));
    proof {
        assert(old(out)@ + spec_decimal(n as nat) =~= if n >= 10 {
            old(out)@ + spec_decimal((n / 10) as nat) + seq![digit_char((n % 10) as nat)]
        } else {
            old(out)@ + seq![digit_char(n as nat)]
        });
    }
}


/// Concatenation is the sum of its parts: nothing gives nothing, and one more
/// part adds exactly that part at the end. So its length is the sum of the
/// parts' lengths.
pub proof fn lemma_concat_all_parts(parts: Seq<Seq<char>>, x: Seq<char>)
    ensures
        concat_all(Seq::<Seq<char>>::empty()) == Seq::<char>::empty(),
        concat_all(parts.push(x)) == concat_all(parts) + x,
        concat_all(parts.push(x)).len() == concat_all(parts).len() + x.len(),
{
    assert(parts.push(x).drop_last() =~= parts);
}

/// Joining: nothing gives nothing, one part gives that part, and one more part
/// adds a single space and then that part.
pub proof fn lemma_join_spaced_parts(parts: Seq<Seq<char>>, x: Seq<char>)
    ensures
        join_spaced(Seq::<Seq<char>>::empty()) == Seq::<char>::empty(),
        join_spaced(seq![x]) == x,
        parts.len() > 0 ==> join_spaced(parts.push(x)) == join_spaced(parts) + " "@ + x,
{
    assert(parts.push(x).drop_last() =~= parts);
}

/// The value of a string of decimal digits.
pub open spec fn digits_value(s: Seq<char>) -> int
    decreases s.len(),
{
    if s.len() == 0 {
        0
    } else {
        digits_value(s.drop_last()) * 10 + (s.last() as int - 48)
    }
}

/// The decimal rendering of `n` is made of digits only, starts with a nonzero
/// digit unless `n` is zero, and reads back as `n`.
pub proof fn lemma_decimal_reads_back(n: nat)
    ensures
        spec_decimal(n).len() >= 1,
        forall|i: int| 0 <= i < spec_decimal(n).len() ==> 48 <= #[trigger] (spec_decimal(n)[i] as int) <= 57,
        n > 0 ==> spec_decimal(n)[0] != '0',
        digits_value(spec_decimal(n)) == n,
    decreases n,
{
    if n < 10 {
        let s = spec_decimal(n);
        assert(s.drop_last() =~= Seq::<char>::empty());
        assert((48 + n) as char as int == 48 + n);
        assert(digits_value(s.drop_last()) == 0);
        assert(digits_value(s) == digits_value(s.drop_last()) * 10 + (s.last() as int - 48));
    } else {
        lemma_decimal_reads_back(n / 10);
        let a = spec_decimal(n / 10);
        let s = spec_decimal(n);
        let d = n % 10;
        assert(s == a + seq![digit_char(d)]);
        assert(s.drop_last() =~= a);
        assert((48 + d) as char as int == 48 + d);
        assert(s.last() == digit_char(d));
        assert(n == (n / 10) * 10 + d);
        assert forall|i: int| 0 <= i < s.len() implies 48 <= #[trigger] (s[i] as int) <= 57 by {
            if i < a.len() {
                assert(s[i] == a[i]);
            }
        }
        assert(s[0] == a[0]);
        assert(digits_value(s) == digits_value(a) * 10 + (s.last() as int - 48));
    }
}


/// The first line with a prefix is one of the lines, has that prefix, and no
/// line before it has it; when there is none, no line has the prefix.
pub proof fn lemma_first_with_prefix(ls: Seq<Seq<char>>, p: Seq<char>)
    ensures
        first_with_prefix(ls, p) matches Some(l) ==> exists|i: int|
            0 <= i < ls.len() && ls[i] == l && starts_with(l, p) && forall|j: int|
                0 <= j < i ==> !starts_with(#[trigger] ls[j], p),
        first_with_prefix(ls, p) is None ==> forall|j: int|
            0 <= j < ls.len() ==> !starts_with(#[trigger] ls[j], p),
    decreases ls.len(),
{
    if ls.len() > 0 && !starts_with(ls[0], p) {
        let rest = ls.drop_first();
        lemma_first_with_prefix(rest, p);
        if first_with_prefix(rest, p) is Some {
            let l = first_with_prefix(rest, p)->0;
            let i = choose|i: int|
                0 <= i < rest.len() && rest[i] == l && starts_with(l, p) && forall|j: int|
                    0 <= j < i ==> !starts_with(#[trigger] rest[j], p);
            assert(ls[i + 1] == l);
            assert forall|j: int| 0 <= j < i + 1 implies !starts_with(#[trigger] ls[j], p) by {
                if j > 0 {
                    assert(ls[j] == rest[j - 1]);
                }
            }
        } else {
            assert forall|j: int| 0 <= j < ls.len() implies !starts_with(#[trigger] ls[j], p) by {
                if j > 0 {
                    assert(ls[j] == rest[j - 1]);
                }
            }
        }
    } else if ls.len() > 0 {
        assert(ls[0] == ls[0]);
    }
}

} // verus!
