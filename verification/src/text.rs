//! Character-level string operations used by path resolution and the
//! cloud protocol, each stated over the string's sequence of characters.
use vstd::prelude::*;
use vstd::string::*;

verus! {

/// `s` with every leading occurrence of `c` removed.
pub open spec fn strip_leading(s: Seq<char>, c: char) -> Seq<char>
    decreases s.len(),
{
    if s.len() > 0 && s[0] == c {
        strip_leading(s.drop_first(), c)
    } else {
        s
    }
}

/// `s` with every trailing occurrence of `c` removed.
pub open spec fn strip_trailing(s: Seq<char>, c: char) -> Seq<char>
    decreases s.len(),
{
    if s.len() > 0 && s.last() == c {
        strip_trailing(s.drop_last(), c)
    } else {
        s
    }
}

/// `s` with every leading and trailing occurrence of `c` removed.
pub open spec fn strip_both(s: Seq<char>, c: char) -> Seq<char> {
    strip_trailing(strip_leading(s, c), c)
}

proof fn lemma_strip_leading_skip(s: Seq<char>, c: char, i: int)
    requires
        0 <= i <= s.len(),
        forall|k: int| 0 <= k < i ==> s[k] == c,
    ensures
        strip_leading(s, c) == strip_leading(s.subrange(i, s.len() as int), c),
    decreases i,
{
    if i > 0 {
        assert(s.drop_first().subrange(i - 1, s.drop_first().len() as int) =~= s.subrange(
            i,
            s.len() as int,
        ));
        lemma_strip_leading_skip(s.drop_first(), c, i - 1);
    } else {
        assert(s.subrange(0, s.len() as int) =~= s);
    }
}

proof fn lemma_strip_trailing_skip(s: Seq<char>, c: char, j: int)
    requires
        0 <= j <= s.len(),
        forall|k: int| j <= k < s.len() ==> s[k] == c,
    ensures
        strip_trailing(s, c) == strip_trailing(s.subrange(0, j), c),
    decreases s.len() - j,
{
    if j < s.len() {
        assert(s.drop_last().subrange(0, j) =~= s.subrange(0, j));
        lemma_strip_trailing_skip(s.drop_last(), c, j);
    } else {
        assert(s.subrange(0, j) =~= s);
    }
}

/// A copy of the characters `from..to` of `s`.
pub fn substring(s: &str, from: usize, to: usize) -> (r: String)
    requires
        from <= to <= s@.len(),
    ensures
        r@ == s@.subrange(from as int, to as int),
{
    s.substring_char(from, to).to_owned()
}

/// `s` without its leading occurrences of `c` (`str::trim_start_matches`).
pub fn trim_start_char(s: &str, c: char) -> (r: String)
    ensures
        r@ == strip_leading(s@, c),
{
    let n = s.unicode_len();
    let mut i: usize = 0;
    while i < n && s.get_char(i) == c
        invariant
            n == s@.len(),
            i <= n,
            forall|k: int| 0 <= k < i ==> s@[k] == c,
        decreases n - i,
    {
        i = i + 1;
    }
    proof {
        lemma_strip_leading_skip(s@, c, i as int);
    }
    substring(s, i, n)
}

/// `s` without its trailing occurrences of `c` (`str::trim_end_matches`).
pub fn trim_end_char(s: &str, c: char) -> (r: String)
    ensures
        r@ == strip_trailing(s@, c),
{
    let n = s.unicode_len();
    let mut j: usize = n;
    while j > 0 && s.get_char(j - 1) == c
        invariant
            n == s@.len(),
            j <= n,
            forall|k: int| j <= k < n ==> s@[k] == c,
        decreases j,
    {
        j = j - 1;
    }
    proof {
        lemma_strip_trailing_skip(s@, c, j as int);
        if j > 0 {
            assert(s@.subrange(0, j as int).last() == s@[j - 1]);
        }
    }
    substring(s, 0, j)
}

/// `s` without its leading and trailing occurrences of `c` (`str::trim_matches`).
pub fn trim_char(s: &str, c: char) -> (r: String)
    ensures
        r@ == strip_both(s@, c),
{
    let t = trim_start_char(s, c);
    trim_end_char(t.as_str(), c)
}


/// The character sequences of a sequence of strings.
pub open spec fn views(v: Seq<String>) -> Seq<Seq<char>> {
    v.map_values(|t: String| t@)
}

/// The state of splitting `s` at `'/'` from left to right: the finished
/// non-empty segments, and the segment still being read.
pub open spec fn split_state(s: Seq<char>) -> (Seq<Seq<char>>, Seq<char>)
    decreases s.len(),
{
    if s.len() == 0 {
        (Seq::empty(), Seq::empty())
    } else {
        let (segs, cur) = split_state(s.drop_last());
        if s.last() == '/' {
            (if cur.len() > 0 { segs.push(cur) } else { segs }, Seq::empty())
        } else {
            (segs, cur.push(s.last()))
        }
    }
}

/// The non-empty pieces of `s` between `'/'` separators, in order
/// (`s.split('/').filter(|p| !p.is_empty())`).
pub open spec fn segments(s: Seq<char>) -> Seq<Seq<char>> {
    let (segs, cur) = split_state(s);
    if cur.len() > 0 {
        segs.push(cur)
    } else {
        segs
    }
}

/// Splitting on from a point just after a separator appends the segments of
/// what follows to the segments already finished.
proof fn lemma_split_after_separator(p: Seq<char>, b: Seq<char>)
    requires
        split_state(p).1.len() == 0,
    ensures
        split_state(p + b) == (split_state(p).0 + split_state(b).0, split_state(b).1),
    decreases b.len(),
{
    if b.len() == 0 {
        assert(p + b =~= p);
        assert(split_state(p).0 + split_state(b).0 =~= split_state(p).0);
    } else {
        let b0 = b.drop_last();
        lemma_split_after_separator(p, b0);
        assert((p + b).drop_last() =~= p + b0);
        assert((p + b).last() == b.last());
        let (bs, bc) = split_state(b0);
        let ps = split_state(p).0;
        if b.last() == '/' {
            if bc.len() > 0 {
                assert((ps + bs).push(bc) =~= ps + bs.push(bc));
            }
        }
    }
}

/// The segments of `a`, a separator and `b` are those of `a` followed by those of `b`.
pub proof fn lemma_segments_join(a: Seq<char>, b: Seq<char>)
    ensures
        segments(a + seq!['/'] + b) == segments(a) + segments(b),
{
    let p = a + seq!['/'];
    assert(p.drop_last() =~= a);
    assert(split_state(p).0 == segments(a));
    lemma_split_after_separator(p, b);
    assert(a + seq!['/'] + b =~= p + b);
    let (bs, bc) = split_state(b);
    if bc.len() > 0 {
        assert((segments(a) + bs).push(bc) =~= segments(a) + bs.push(bc));
    }
}

/// Leading separators do not change the segments.
pub proof fn lemma_segments_strip_leading(s: Seq<char>)
    ensures
        segments(strip_leading(s, '/')) == segments(s),
    decreases s.len(),
{
    if s.len() > 0 && s[0] == '/' {
        lemma_segments_strip_leading(s.drop_first());
        lemma_segments_join(Seq::empty(), s.drop_first());
        assert(Seq::<char>::empty() + seq!['/'] + s.drop_first() =~= s);
        assert(segments(Seq::<char>::empty()) =~= Seq::<Seq<char>>::empty());
        assert(Seq::<Seq<char>>::empty() + segments(s.drop_first()) =~= segments(s.drop_first()));
    }
}

/// Trailing separators do not change the segments.
pub proof fn lemma_segments_strip_trailing(s: Seq<char>)
    ensures
        segments(strip_trailing(s, '/')) == segments(s),
    decreases s.len(),
{
    if s.len() > 0 && s.last() == '/' {
        lemma_segments_strip_trailing(s.drop_last());
        lemma_segments_join(s.drop_last(), Seq::empty());
        assert(s.drop_last() + seq!['/'] + Seq::<char>::empty() =~= s);
        assert(segments(s.drop_last()) + segments(Seq::<char>::empty()) =~= segments(s.drop_last()));
    }
}

/// What is left after stripping leading `c` does not begin with `c`.
pub proof fn lemma_strip_leading_start(s: Seq<char>, c: char)
    ensures
        strip_leading(s, c).len() > 0 ==> strip_leading(s, c)[0] != c,
    decreases s.len(),
{
    if s.len() > 0 && s[0] == c {
        lemma_strip_leading_start(s.drop_first(), c);
    }
}

/// Splits `s` into its non-empty `'/'`-separated segments.
pub fn split_segments(s: &str) -> (parts: Vec<String>)
    ensures
        views(parts@) == segments(s@),
{
    let n = s.unicode_len();
    let mut parts: Vec<String> = Vec::new();
    let mut start: usize = 0;
    let mut i: usize = 0;
    while i < n
        invariant
            n == s@.len(),
            start <= i <= n,
            split_state(s@.take(i as int)) == (views(parts@), s@.subrange(start as int, i as int)),
        decreases n - i,
    {
        let c = s.get_char(i);
        proof {
            assert(s@.take(i + 1).drop_last() =~= s@.take(i as int));
            assert(s@.take(i + 1).last() == c);
        }
        if c == '/' {
            if start < i {
                let piece = substring(s, start, i);
                let ghost before = parts@;
                parts.push(piece);
                proof {
                    assert(views(parts@) =~= views(before).push(piece@));
                }
            }
            start = i + 1;
        } else {
            proof {
                assert(s@.subrange(start as int, i + 1) =~= s@.subrange(start as int, i as int).push(c));
            }
        }
        i = i + 1;
    }
    proof {
        assert(s@.take(n as int) =~= s@);
    }
    if start < n {
        let piece = substring(s, start, n);
        let ghost before = parts@;
        parts.push(piece);
        proof {
            assert(views(parts@) =~= views(before).push(piece@));
        }
    }
    parts
}

/// `a` followed by `b`.
pub fn concat(a: &str, b: &str) -> (r: String)
    ensures
        r@ == a@ + b@,
{
    let mut r = a.to_owned();
    r.append(b);
    r
}

/// Whether two strings hold the same characters.
pub fn same_text(a: &str, b: &str) -> (r: bool)
    ensures
        r == (a@ == b@),
{
    let x = a.to_owned();
    let y = b.to_owned();
    x == y
}

/// `p` occurs in `s` as a contiguous run of characters.
pub open spec fn has_substring(s: Seq<char>, p: Seq<char>) -> bool {
    exists|i: int| 0 <= i && i + p.len() <= s.len() && #[trigger] s.subrange(i, i + p.len()) == p
}

/// Whether `p` occurs in `s` (`str::contains`).
pub fn contains_text(s: &str, p: &str) -> (r: bool)
    ensures
        r == has_substring(s@, p@),
{
    let n = s.unicode_len();
    let m = p.unicode_len();
    if m > n {
        return false;
    }
    if m == 0 {
        assert(s@.subrange(0, 0 + p@.len() as int) =~= p@);
        return true;
    }
    let mut i: usize = 0;
    while i <= n - m
        invariant
            n == s@.len(),
            m == p@.len(),
            1 <= m <= n,
            forall|k: int| 0 <= k < i ==> #[trigger] s@.subrange(k, k + m) != p@,
        decreases n - m + 1 - i,
    {
        let piece = substring(s, i, i + m);
        if same_text(piece.as_str(), p) {
            return true;
        }
        i = i + 1;
    }
    false
}

/// Whether `s` begins with the character `c`.
pub fn starts_with_char(s: &str, c: char) -> (r: bool)
    ensures
        r == (s@.len() > 0 && s@[0] == c),
{
    s.unicode_len() > 0 && s.get_char(0) == c
}


/// `s` with every occurrence of the character `c` replaced by `with`.
pub open spec fn replace_char(s: Seq<char>, c: char, with: Seq<char>) -> Seq<char>
    decreases s.len(),
{
    if s.len() == 0 {
        Seq::empty()
    } else {
        replace_char(s.drop_last(), c, with) + (if s.last() == c {
            with
        } else {
            seq![s.last()]
        })
    }
}

/// Replaces every `c` in `s` by `with` (`str::replace` with a character pattern).
pub fn replace_char_with(s: &str, c: char, with: &str) -> (r: String)
    ensures
        r@ == replace_char(s@, c, with@),
{
    let n = s.unicode_len();
    let mut r = String::new();
    let mut i: usize = 0;
    while i < n
        invariant
            n == s@.len(),
            i <= n,
            r@ == replace_char(s@.take(i as int), c, with@),
        decreases n - i,
    {
        proof {
            assert(s@.take(i + 1).drop_last() =~= s@.take(i as int));
            assert(s@.take(i + 1).last() == s@[i as int]);
        }
        if s.get_char(i) == c {
            r.append(with);
        } else {
            let one = substring(s, i, i + 1);
            proof {
                assert(one@ =~= seq![s@[i as int]]);
            }
            r.append(one.as_str());
        }
        i = i + 1;
    }
    proof {
        assert(s@.take(n as int) =~= s@);
    }
    r
}

/// The decimal digit character of `d`.
pub open spec fn digit_char(d: int) -> char {
    seq!['0', '1', '2', '3', '4', '5', '6', '7', '8', '9'][d]
}

/// The decimal representation of `n`, without leading zeros.
pub open spec fn decimal(n: nat) -> Seq<char>
    decreases n,
{
    if n < 10 {
        seq![digit_char(n as int)]
    } else {
        decimal(n / 10) + seq![digit_char((n % 10) as int)]
    }
}

/// The decimal text of a signed number.
pub open spec fn signed_decimal(n: int) -> Seq<char> {
    if n < 0 {
        seq!['-'] + decimal((-n) as nat)
    } else {
        decimal(n as nat)
    }
}

fn digit_text(d: u64) -> (r: String)
    requires
        d < 10,
    ensures
        r@ == seq![digit_char(d as int)],
{
    let digits = "0123456789";
    proof {
        reveal_strlit("0123456789");
    }
    let r = substring(digits, d as usize, d as usize + 1);
    proof {
        assert(r@ =~= seq![digit_char(d as int)]);
    }
    r
}

/// The decimal text of `n` (`u64::to_string`).
pub fn u64_text(n: u64) -> (r: String)
    ensures
        r@ == decimal(n as nat),
{
    let mut m = n;
    let mut r = digit_text(m % 10);
    m = m / 10;
    proof {
        if n >= 10 {
            assert(decimal(n as nat) == decimal((n / 10) as nat) + seq![digit_char((n % 10) as int)]);
        }
    }
    while m > 0
        invariant
            m == 0 ==> decimal(n as nat) == r@,
            m > 0 ==> decimal(n as nat) == decimal(m as nat) + r@,
        decreases m,
    {
        let d = digit_text(m % 10);
        proof {
            if m >= 10 {
                assert(decimal(m as nat) == decimal((m / 10) as nat) + seq![digit_char((m % 10) as int)]);
            }
        }
        r = concat(d.as_str(), r.as_str());
        proof {
            if m >= 10 {
                assert(decimal(n as nat) =~= decimal((m / 10) as nat) + r@);
            } else {
                assert(decimal(n as nat) =~= r@);
            }
        }
        m = m / 10;
    }
    r
}

/// The decimal text of `n` (`i32::to_string`).
pub fn i32_text(n: i32) -> (r: String)
    ensures
        r@ == signed_decimal(n as int),
{
    if n < 0 {
        let magnitude: u64 = (-(n as i64)) as u64;
        let digits = u64_text(magnitude);
        proof {
            reveal_strlit("-");
        }
        concat("-", digits.as_str())
    } else {
        u64_text(n as u64)
    }
}

} // verus!
