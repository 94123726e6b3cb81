//! Character-level helpers shared by the configuration parsers: splitting on a
//! separator, trimming Unicode white space, and decimal rendering.
use vstd::prelude::*;

verus! {

/// The pieces of `s` between occurrences of `sep`, in order; there is always at
/// least one piece (the empty string splits into one empty piece).
pub open spec fn split_spec(s: Seq<char>, sep: char) -> Seq<Seq<char>>
    decreases s.len(),
{
    if s.len() == 0 {
        seq![Seq::<char>::empty()]
    } else {
        let p = split_spec(s.drop_last(), sep);
        if s.last() == sep {
            p.push(Seq::<char>::empty())
        } else {
            p.update(p.len() - 1, p.last().push(s.last()))
        }
    }
}

/// A character with the Unicode `White_Space` property.
pub open spec fn is_white_space_spec(c: char) -> bool {
    let u = c as u32;
    ||| 0x9 <= u <= 0xD
    ||| u == 0x20
    ||| u == 0x85
    ||| u == 0xA0
    ||| u == 0x1680
    ||| 0x2000 <= u <= 0x200A
    ||| u == 0x2028
    ||| u == 0x2029
    ||| u == 0x202F
    ||| u == 0x205F
    ||| u == 0x3000
}

/// `s` without its leading white space.
pub open spec fn trim_start_spec(s: Seq<char>) -> Seq<char>
    decreases s.len(),
{
    if s.len() > 0 && is_white_space_spec(s[0]) {
        trim_start_spec(s.drop_first())
    } else {
        s
    }
}

/// `s` without its trailing white space.
pub open spec fn trim_end_spec(s: Seq<char>) -> Seq<char>
    decreases s.len(),
{
    if s.len() > 0 && is_white_space_spec(s.last()) {
        trim_end_spec(s.drop_last())
    } else {
        s
    }
}

/// `s` without leading and trailing white space.
pub open spec fn trim_spec(s: Seq<char>) -> Seq<char> {
    trim_end_spec(trim_start_spec(s))
}

/// The decimal digit character for `d < 10`.
pub open spec fn digit_spec(d: nat) -> char {
    (48 + d) as char
}

/// The decimal notation of `n`, without leading zeros.
pub open spec fn decimal_spec(n: nat) -> Seq<char>
    decreases n,
{
    if n < 10 {
        seq![digit_spec(n)]
    } else {
        decimal_spec(n / 10).push(digit_spec(n % 10))
    }
}

pub proof fn lemma_split_nonempty(s: Seq<char>, sep: char)
    ensures
        split_spec(s, sep).len() >= 1,
    decreases s.len(),
{
    if s.len() > 0 {
        lemma_split_nonempty(s.drop_last(), sep);
    }
}

/// A text without the separator is a single piece.
pub proof fn lemma_split_single(s: Seq<char>, sep: char)
    requires
        forall|i: int| 0 <= i < s.len() ==> s[i] != sep,
    ensures
        split_spec(s, sep) == seq![s],
    decreases s.len(),
{
    if s.len() > 0 {
        lemma_split_single(s.drop_last(), sep);
        assert(s.drop_last().push(s.last()) =~= s);
        assert(seq![s.drop_last()].update(0, s.drop_last().push(s.last())) =~= seq![s]);
    } else {
        assert(s =~= Seq::<char>::empty());
    }
}

/// Appending a separator and a text without the separator adds that text as
/// one more piece.
pub proof fn lemma_split_append(x: Seq<char>, sep: char, y: Seq<char>)
    requires
        forall|i: int| 0 <= i < y.len() ==> y[i] != sep,
    ensures
        split_spec(x + seq![sep] + y, sep) == split_spec(x, sep).push(y),
    decreases y.len(),
{
    if y.len() == 0 {
        assert(x + seq![sep] + y =~= x.push(sep));
        assert(x.push(sep).drop_last() =~= x);
        assert(y =~= Seq::<char>::empty());
    } else {
        let z = y.drop_last();
        lemma_split_append(x, sep, z);
        assert((x + seq![sep] + y).drop_last() =~= x + seq![sep] + z);
        assert(z.push(y.last()) =~= y);
        lemma_split_nonempty(x, sep);
        assert(split_spec(x, sep).push(z).update(split_spec(x, sep).len() as int, z.push(y.last()))
            =~= split_spec(x, sep).push(y));
    }
}

/// A text that neither starts nor ends with white space is its own trim.
pub proof fn lemma_trim_unchanged(s: Seq<char>)
    requires
        s.len() > 0,
        !is_white_space_spec(s[0]),
        !is_white_space_spec(s.last()),
    ensures
        trim_spec(s) == s,
{
}

proof fn lemma_trim_start_skip(s: Seq<char>, i: int)
    requires
        0 <= i <= s.len(),
        forall|j: int| 0 <= j < i ==> is_white_space_spec(#[trigger] s[j]),
    ensures
        trim_start_spec(s) == trim_start_spec(s.subrange(i, s.len() as int)),
    decreases i,
{
    if i > 0 {
        let t = s.drop_first();
        assert forall|j: int| 0 <= j < i - 1 implies is_white_space_spec(#[trigger] t[j]) by {
            assert(t[j] == s[j + 1]);
        }
        lemma_trim_start_skip(t, i - 1);
        assert(t.subrange(i - 1, t.len() as int) =~= s.subrange(i, s.len() as int));
    } else {
        assert(s.subrange(0, s.len() as int) =~= s);
    }
}

proof fn lemma_trim_end_skip(s: Seq<char>, e: int)
    requires
        0 <= e <= s.len(),
        forall|j: int| e <= j < s.len() ==> is_white_space_spec(#[trigger] s[j]),
    ensures
        trim_end_spec(s) == trim_end_spec(s.subrange(0, e)),
    decreases s.len() - e,
{
    if e < s.len() {
        let t = s.drop_last();
        assert forall|j: int| e <= j < t.len() implies is_white_space_spec(#[trigger] t[j]) by {
            assert(t[j] == s[j]);
        }
        assert(is_white_space_spec(s[s.len() - 1]));
        lemma_trim_end_skip(t, e);
        assert(t.subrange(0, e) =~= s.subrange(0, e));
    } else {
        assert(s.subrange(0, e) =~= s);
    }
}

proof fn lemma_trim_start_shape(s: Seq<char>) -> (k: int)
    ensures
        0 <= k <= s.len(),
        trim_start_spec(s) == s.subrange(k, s.len() as int),
        forall|i: int| 0 <= i < k ==> is_white_space_spec(#[trigger] s[i]),
        k < s.len() ==> !is_white_space_spec(s[k]),
    decreases s.len(),
{
    if s.len() > 0 && is_white_space_spec(s[0]) {
        let t = s.drop_first();
        let j = lemma_trim_start_shape(t);
        assert(t.subrange(j, t.len() as int) =~= s.subrange(j + 1, s.len() as int));
        assert forall|i: int| 0 <= i < j + 1 implies is_white_space_spec(#[trigger] s[i]) by {
            if i > 0 {
                assert(s[i] == t[i - 1]);
            }
        }
        j + 1
    } else {
        assert(s.subrange(0, s.len() as int) =~= s);
        0
    }
}

proof fn lemma_trim_end_shape(s: Seq<char>) -> (e: int)
    ensures
        0 <= e <= s.len(),
        trim_end_spec(s) == s.subrange(0, e),
        forall|i: int| e <= i < s.len() ==> is_white_space_spec(#[trigger] s[i]),
        e > 0 ==> !is_white_space_spec(s[e - 1]),
    decreases s.len(),
{
    if s.len() > 0 && is_white_space_spec(s.last()) {
        let t = s.drop_last();
        let j = lemma_trim_end_shape(t);
        assert(t.subrange(0, j) =~= s.subrange(0, j));
        assert forall|i: int| j <= i < s.len() implies is_white_space_spec(#[trigger] s[i]) by {
            if i < s.len() - 1 {
                assert(s[i] == t[i]);
            }
        }
        j
    } else {
        assert(s.subrange(0, s.len() as int) =~= s);
        s.len() as int
    }
}

/// Trimming removes exactly the white space at both ends: the result is a
/// contiguous part of the text, everything cut off is white space, and the
/// result neither starts nor ends with white space.
pub proof fn lemma_trim_removes_only_surrounding_white_space(s: Seq<char>)
    ensures
        exists|a: int, b: int|
            {
                &&& 0 <= a <= b <= s.len()
                &&& trim_spec(s) == s.subrange(a, b)
                &&& forall|i: int| 0 <= i < a ==> is_white_space_spec(#[trigger] s[i])
                &&& forall|i: int| b <= i < s.len() ==> is_white_space_spec(#[trigger] s[i])
                &&& a < b ==> !is_white_space_spec(s[a]) && !is_white_space_spec(s[b - 1])
            },
{
    let k = lemma_trim_start_shape(s);
    let mid = s.subrange(k, s.len() as int);
    let e = lemma_trim_end_shape(mid);
    assert(mid.subrange(0, e) =~= s.subrange(k, k + e));
    assert forall|i: int| k + e <= i < s.len() implies is_white_space_spec(#[trigger] s[i]) by {
        assert(s[i] == mid[i - k]);
    }
    if e > 0 {
        assert(s[k] == mid[0]);
        assert(s[k + e - 1] == mid[e - 1]);
    }
    assert(0 <= k <= k + e <= s.len());
}

/// The ASCII blank characters are white space; letters and digits are not.
pub proof fn lemma_white_space_examples(c: char)
    ensures
        is_white_space_spec(' '),
        is_white_space_spec('\t'),
        is_white_space_spec('\n'),
        is_white_space_spec('\r'),
        ('a' <= c <= 'z' || 'A' <= c <= 'Z' || '0' <= c <= '9' || c == '_' || c == '+')
            ==> !is_white_space_spec(c),
{
}

/// The number that a sequence of decimal digit characters denotes.
pub open spec fn digits_value(s: Seq<char>) -> int
    decreases s.len(),
{
    if s.len() == 0 {
        0
    } else {
        digits_value(s.drop_last()) * 10 + (s.last() as int - 48)
    }
}

/// The decimal notation of a number consists of digits, denotes that
/// number, and starts with a zero only for zero itself.
pub proof fn lemma_decimal_denotes_number(n: nat)
    ensures
        decimal_spec(n).len() > 0,
        forall|i: int|
            0 <= i < decimal_spec(n).len() ==> '0' <= #[trigger] decimal_spec(n)[i] <= '9',
        digits_value(decimal_spec(n)) == n,
        n > 0 ==> decimal_spec(n)[0] != '0',
    decreases n,
{
    if n >= 10 {
        lemma_decimal_denotes_number(n / 10);
        let d = decimal_spec(n);
        assert(d.drop_last() =~= decimal_spec(n / 10));
        assert(d[0] == decimal_spec(n / 10)[0]);
        assert forall|i: int| 0 <= i < d.len() implies '0' <= #[trigger] d[i] <= '9' by {
            if i < d.len() - 1 {
                assert(d[i] == decimal_spec(n / 10)[i]);
            }
        }
        assert((n / 10) * 10 + n % 10 == n) by (nonlinear_arith);
        assert(d.last() == digit_spec(n % 10));
        assert(digit_spec(n % 10) as int == 48 + n % 10);
        assert(digits_value(d) == digits_value(d.drop_last()) * 10 + (d.last() as int - 48));
        assert(digits_value(d.drop_last()) == n / 10);
        assert(digits_value(d) == (n / 10) * 10 + n % 10);
    } else {
        let d = decimal_spec(n);
        assert(d.drop_last() =~= Seq::<char>::empty());
        assert(digit_spec(n) as int == 48 + n);
        assert(digits_value(d.drop_last()) == 0);
        assert(d.last() == digit_spec(n));
        assert(digits_value(d) == digits_value(d.drop_last()) * 10 + (d.last() as int - 48));
    }
}

/// Appends one character to a string (std `String::push`).
#[verifier::external_body]
pub(crate) fn push_char(s: &mut String, c: char)
    ensures
        final(s)@ == old(s)@.push(c),
{
    s.push(c);
}

/// Copies `s` into a new string.
pub fn copy_str(s: &str) -> (res: String)
    ensures
        res@ == s@,
{
    s.to_owned()
}

/// Concatenates `a` and `b` into a new string.
pub fn concat(a: &str, b: &str) -> (res: String)
    ensures
        res@ == a@ + b@,
{
    let mut r = a.to_owned();
    r.append(b);
    r
}

/// Whether `c` has the Unicode `White_Space` property.
pub fn is_white_space(c: char) -> (res: bool)
    ensures
        res == is_white_space_spec(c),
{
    let u = c as u32;
    (0x9 <= u && u <= 0xD) || u == 0x20 || u == 0x85 || u == 0xA0 || u == 0x1680 || (0x2000 <= u
        && u <= 0x200A) || u == 0x2028 || u == 0x2029 || u == 0x202F || u == 0x205F || u == 0x3000
}

/// The characters of `s`, in order.
pub fn chars_of(s: &str) -> (res: Vec<char>)
    ensures
        res@ == s@,
{
    let mut res: Vec<char> = Vec::new();
    for c in it: s.chars()
        invariant
            it.seq() == s@,
            res@ == it.seq().take(it.index() as int),
    {
        res.push(c);
        assert(res@ == it.seq().take(it.index() + 1));
    }
    assert(res@ =~= s@);
    res
}

/// The string made of `v[from..to]`.
pub fn string_of_range(v: &Vec<char>, from: usize, to: usize) -> (res: String)
    requires
        from <= to <= v@.len(),
    ensures
        res@ == v@.subrange(from as int, to as int),
{
    let mut res = String::new();
    let mut i = from;
    while i < to
        invariant
            from <= i <= to <= v@.len(),
            res@ == v@.subrange(from as int, i as int),
        decreases to - i,
    {
        push_char(&mut res, v[i]);
        i = i + 1;
        assert(res@ =~= v@.subrange(from as int, i as int));
    }
    res
}

/// The pieces of `s` between occurrences of `sep` (as `str::split` with a
/// character pattern).
pub fn split_pieces(s: &str, sep: char) -> (res: Vec<String>)
    ensures
        res@.len() == split_spec(s@, sep).len(),
        forall|i: int| 0 <= i < res@.len() ==> #[trigger] res@[i]@ == split_spec(s@, sep)[i],
{
    let mut res: Vec<String> = Vec::new();
    res.push(String::new());
    let ghost mut done: Seq<char> = Seq::empty();
    for c in it: s.chars()
        invariant
            done == it.seq().take(it.index() as int),
            it.seq() == s@,
            res@.len() == split_spec(done, sep).len(),
            forall|i: int| 0 <= i < res@.len() ==> #[trigger] res@[i]@ == split_spec(done, sep)[i],
    {
        proof {
            lemma_split_nonempty(done, sep);
        }
        let ghost old_done = done;
        proof {
            done = done.push(c);
            assert(done.drop_last() == old_done);
        }
        if c == sep {
            res.push(String::new());
        } else {
            let mut piece = res.pop().unwrap();
            push_char(&mut piece, c);
            res.push(piece);
        }
        assert(done == it.seq().take(it.index() + 1));
    }
    assert(done =~= s@);
    res
}

/// `s` without leading and trailing white space (as `str::trim`).
pub fn trim(s: &str) -> (res: String)
    ensures
        res@ == trim_spec(s@),
{
    let v = chars_of(s);
    let n = v.len();
    let mut start: usize = 0;
    while start < n && is_white_space(v[start])
        invariant
            n == v@.len(),
            start <= n,
            forall|j: int| 0 <= j < start ==> is_white_space_spec(#[trigger] v@[j]),
        decreases n - start,
    {
        start = start + 1;
    }
    let ghost mid = v@.subrange(start as int, n as int);
    proof {
        lemma_trim_start_skip(v@, start as int);
        if mid.len() > 0 {
            assert(mid[0] == v@[start as int]);
        }
        assert(trim_start_spec(mid) == mid);
    }
    let mut end: usize = n;
    while end > start && is_white_space(v[end - 1])
        invariant
            n == v@.len(),
            start <= end <= n,
            forall|j: int| end <= j < n ==> is_white_space_spec(#[trigger] v@[j]),
        decreases end - start,
    {
        end = end - 1;
    }
    proof {
        assert forall|j: int| end - start <= j < mid.len() implies is_white_space_spec(
            #[trigger] mid[j],
        ) by {
            assert(mid[j] == v@[start + j]);
        }
        lemma_trim_end_skip(mid, end - start);
        let fin = mid.subrange(0, end - start);
        assert(fin =~= v@.subrange(start as int, end as int));
        if fin.len() > 0 {
            assert(fin.last() == v@[end - 1]);
        }
        assert(trim_end_spec(fin) == fin);
    }
    string_of_range(&v, start, end)
}

/// The decimal digit character for `d < 10`.
fn digit(d: u16) -> (c: char)
    requires
        d < 10,
    ensures
        c == digit_spec(d as nat),
{
    let b: u8 = 48 + d as u8;
    b as char
}

/// The decimal notation of `n` (as `u16`'s `Display`).
pub fn decimal_string(n: u16) -> (res: String)
    ensures
        res@ == decimal_spec(n as nat),
    decreases n,
{
    if n < 10 {
        let mut s = String::new();
        push_char(&mut s, digit(n));
        assert(s@ =~= decimal_spec(n as nat));
        s
    } else {
        let mut s = decimal_string(n / 10);
        push_char(&mut s, digit(n % 10));
        s
    }
}

} // verus!
