//! Character-level text model: UTF-8 byte widths, splitting at newlines, and
//! conversions between `String` and vectors of `char`.
use vstd::prelude::*;

verus! {

/// Number of bytes the UTF-8 encoding of `c` takes.
pub open spec fn char_width(c: char) -> nat {
    let u = c as u32;
    if u < 0x80 {
        1
    } else if u < 0x800 {
        2
    } else if u < 0x10000 {
        3
    } else {
        4
    }
}

/// Number of bytes of the UTF-8 encoding of `s` (what `str::len` returns).
pub open spec fn byte_len(s: Seq<char>) -> nat
    decreases s.len(),
{
    if s.len() == 0 {
        0
    } else {
        byte_len(s.drop_last()) + char_width(s.last())
    }
}

pub proof fn lemma_byte_len_take_step(s: Seq<char>, j: int)
    requires
        0 <= j < s.len(),
    ensures
        byte_len(s.take(j + 1)) == byte_len(s.take(j)) + char_width(s[j]),
{
    assert(s.take(j + 1).drop_last() =~= s.take(j));
}

pub proof fn lemma_byte_len_take_mono(s: Seq<char>, i: int, j: int)
    requires
        0 <= i <= j <= s.len(),
    ensures
        byte_len(s.take(i)) <= byte_len(s.take(j)),
        j > i ==> byte_len(s.take(i)) < byte_len(s.take(j)),
        byte_len(s.take(j)) <= byte_len(s),
    decreases s.len() - i, j - i,
{
    if i < j {
        lemma_byte_len_take_mono(s, i, j - 1);
        lemma_byte_len_take_mono(s, j, j);
        lemma_byte_len_take_step(s, j - 1);
    } else if j < s.len() {
        lemma_byte_len_take_mono(s, j + 1, j + 1);
        lemma_byte_len_take_step(s, j);
    } else {
        assert(s.take(j) =~= s);
    }
}

pub proof fn lemma_byte_len_concat(a: Seq<char>, b: Seq<char>)
    ensures
        byte_len(a + b) == byte_len(a) + byte_len(b),
    decreases b.len(),
{
    if b.len() > 0 {
        lemma_byte_len_concat(a, b.drop_last());
        assert((a + b).drop_last() =~= a + b.drop_last());
    } else {
        assert(a + b =~= a);
    }
}

pub proof fn lemma_byte_len_remove(s: Seq<char>, k: int)
    requires
        0 <= k < s.len(),
    ensures
        byte_len(s.remove(k)) + char_width(s[k]) == byte_len(s),
{
    let one = seq![s[k]];
    assert(one.drop_last() =~= Seq::<char>::empty());
    assert(byte_len(one.drop_last()) == 0);
    assert(one.last() == s[k]);
    assert(byte_len(one) == char_width(s[k]));
    lemma_byte_len_concat(s.take(k), s.skip(k + 1));
    lemma_byte_len_concat(s.take(k), seq![s[k]]);
    lemma_byte_len_concat(s.take(k) + seq![s[k]], s.skip(k + 1));
    assert(s.remove(k) =~= s.take(k) + s.skip(k + 1));
    assert(s =~= s.take(k) + seq![s[k]] + s.skip(k + 1));
}

/// Byte width of one character.
pub fn char_width_exec(c: char) -> (w: usize)
    ensures
        w == char_width(c),
        1 <= w <= 4,
{
    let u = c as u32;
    if u < 0x80 {
        1
    } else if u < 0x800 {
        2
    } else if u < 0x10000 {
        3
    } else {
        4
    }
}

/// The pieces of `s` between newline characters, as `str::split('\n')` yields them.
pub open spec fn segments(s: Seq<char>) -> Seq<Seq<char>>
    decreases s.len(),
{
    if s.len() == 0 {
        seq![Seq::empty()]
    } else {
        let p = segments(s.drop_last());
        if s.last() == '\n' {
            p.push(Seq::empty())
        } else {
            p.update(p.len() - 1, p.last().push(s.last()))
        }
    }
}

pub proof fn lemma_segments_nonempty(s: Seq<char>)
    ensures
        segments(s).len() >= 1,
    decreases s.len(),
{
    if s.len() > 0 {
        lemma_segments_nonempty(s.drop_last());
    }
}

/// `l` with one trailing carriage return removed.
pub open spec fn strip_cr(l: Seq<char>) -> Seq<char> {
    if l.len() > 0 && l.last() == '\r' {
        l.drop_last()
    } else {
        l
    }
}

/// The lines of `s` as `str::lines` yields them: split at `'\n'`, a final empty
/// piece dropped, and a `'\r'` before each removed `'\n'` stripped.
pub open spec fn lines(s: Seq<char>) -> Seq<Seq<char>> {
    let p = segments(s);
    let n = p.len();
    let count: nat = if n >= 1 && p[n - 1].len() == 0 {
        (n - 1) as nat
    } else {
        n
    };
    Seq::new(count, |i: int| if i < n - 1 { strip_cr(p[i]) } else { p[i] })
}

/// Byte length of line `y` of `s`, or `default` when `s` has no such line.
pub open spec fn line_len_or(s: Seq<char>, y: int, default: nat) -> nat {
    if 0 <= y < lines(s).len() {
        byte_len(lines(s)[y])
    } else {
        default
    }
}

/// Bytes of the non-newline characters that come before the `y`-th newline of `s`
/// (all of them when `s` has fewer newlines): the total length of the first `y`
/// pieces of `str::split('\n')`.
pub open spec fn bytes_before_line(s: Seq<char>, y: nat) -> nat
    decreases s.len(),
{
    if s.len() == 0 || y == 0 {
        0
    } else if s[0] == '\n' {
        bytes_before_line(s.drop_first(), (y - 1) as nat)
    } else {
        char_width(s[0]) + bytes_before_line(s.drop_first(), y)
    }
}

/// Computes `bytes_before_line(s, y)`.
pub fn bytes_before_line_exec(s: &Vec<char>, y: usize) -> (r: usize)
    requires
        bytes_before_line(s@, y as nat) <= usize::MAX,
    ensures
        r == bytes_before_line(s@, y as nat),
{
    let mut acc: usize = 0;
    let mut rest: usize = y;
    let mut i: usize = 0;
    proof {
        assert(s@.skip(0) =~= s@);
    }
    while i < s.len() && rest > 0
        invariant
            i <= s.len(),
            rest <= y,
            acc + bytes_before_line(s@.skip(i as int), rest as nat) == bytes_before_line(s@, y as nat),
            bytes_before_line(s@, y as nat) <= usize::MAX,
        decreases s.len() - i,
    {
        let ghost t = s@.skip(i as int);
        proof {
            assert(t.drop_first() =~= s@.skip(i as int + 1));
        }
        if s[i] == '\n' {
            rest = rest - 1;
        } else {
            acc = acc + char_width_exec(s[i]);
        }
        i += 1;
    }
    proof {
        if i == s.len() {
            assert(s@.skip(i as int).len() == 0);
        }
    }
    acc
}

pub proof fn lemma_byte_len_zero(s: Seq<char>)
    ensures
        byte_len(s) == 0 <==> s.len() == 0,
        byte_len(s) >= s.len(),
    decreases s.len(),
{
    if s.len() > 0 {
        lemma_byte_len_zero(s.drop_last());
    }
}

/// Byte lengths of the lines of `s`, as `str::lines` yields them.
pub fn line_lengths(s: &Vec<char>) -> (r: Vec<usize>)
    requires
        byte_len(s@) <= usize::MAX,
    ensures
        r.len() == lines(s@).len(),
        forall|k: int| 0 <= k < r.len() ==> r[k] == byte_len(#[trigger] lines(s@)[k]),
{
    let mut done: Vec<usize> = Vec::new();
    let mut cur_len: usize = 0;
    let mut cur_cr = false;
    let mut i: usize = 0;
    while i < s.len()
        invariant
            i <= s.len(),
            byte_len(s@) <= usize::MAX,
            cur_len <= byte_len(s@.take(i as int)),
            ({
                let p = segments(s@.take(i as int));
                &&& p.len() >= 1
                &&& done.len() == p.len() - 1
                &&& forall|k: int| 0 <= k < done.len() ==> done[k] == byte_len(#[trigger] strip_cr(p[k]))
                &&& cur_len == byte_len(p.last())
                &&& cur_cr == (p.last().len() > 0 && p.last().last() == '\r')
            }),
        decreases s.len() - i,
    {
        let c = s[i];
        let ghost p = segments(s@.take(i as int));
        proof {
            assert(s@.take(i as int + 1).drop_last() =~= s@.take(i as int));
            lemma_byte_len_take_step(s@, i as int);
            lemma_byte_len_take_mono(s@, i as int + 1, i as int + 1);
        }
        if c == '\n' {
            let l = if cur_cr { cur_len - 1 } else { cur_len };
            proof {
                let last = p.last();
                if cur_cr {
                    assert(strip_cr(last) =~= last.drop_last());
                } else {
                    lemma_byte_len_zero(last);
                }
            }
            done.push(l);
            cur_len = 0;
            cur_cr = false;
            proof {
                let q = segments(s@.take(i as int + 1));
                assert(q =~= p.push(Seq::empty()));
                assert forall|k: int| 0 <= k < done.len() implies done[k] == byte_len(
                    #[trigger] strip_cr(q[k]),
                ) by {
                    if k < done.len() - 1 {
                        assert(q[k] == p[k]);
                    }
                }
            }
        } else {
            cur_len = cur_len + char_width_exec(c);
            cur_cr = c == '\r';
            proof {
                let q = segments(s@.take(i as int + 1));
                assert(q =~= p.update(p.len() - 1, p.last().push(c)));
                assert(p.last().push(c).drop_last() =~= p.last());
                assert forall|k: int| 0 <= k < done.len() implies done[k] == byte_len(
                    #[trigger] strip_cr(q[k]),
                ) by {
                    assert(q[k] == p[k]);
                }
            }
        }
        i += 1;
    }
    proof {
        assert(s@.take(i as int) =~= s@);
        lemma_byte_len_zero(segments(s@).last());
    }
    if cur_len > 0 {
        done.push(cur_len);
    }
    proof {
        let p = segments(s@);
        let ls = lines(s@);
        assert forall|k: int| 0 <= k < done.len() implies done[k] == byte_len(#[trigger] ls[k]) by {
            if k < p.len() - 1 {
                assert(ls[k] == strip_cr(p[k]));
            } else {
                assert(ls[k] == p[k]);
            }
        }
    }
    done
}

/// Computes `byte_len(v)`.
pub fn byte_len_exec(v: &Vec<char>) -> (r: usize)
    requires
        byte_len(v@) <= usize::MAX,
    ensures
        r == byte_len(v@),
{
    let mut acc: usize = 0;
    let mut i: usize = 0;
    while i < v.len()
        invariant
            i <= v.len(),
            acc == byte_len(v@.take(i as int)),
            byte_len(v@) <= usize::MAX,
        decreases v.len() - i,
    {
        proof {
            lemma_byte_len_take_step(v@, i as int);
            lemma_byte_len_take_mono(v@, i as int + 1, i as int + 1);
        }
        acc = acc + char_width_exec(v[i]);
        i += 1;
    }
    proof {
        assert(v@.take(i as int) =~= v@);
    }
    acc
}

/// The pieces of `s` between newlines, as `str::split('\n')` yields them.
pub fn split_segments(s: &Vec<char>) -> (r: Vec<Vec<char>>)
    ensures
        r.len() == segments(s@).len(),
        forall|k: int| 0 <= k < r.len() ==> r[k]@ == #[trigger] segments(s@)[k],
{
    let mut done: Vec<Vec<char>> = Vec::new();
    let mut cur: Vec<char> = Vec::new();
    let mut i: usize = 0;
    while i < s.len()
        invariant
            i <= s.len(),
            ({
                let p = segments(s@.take(i as int));
                &&& p.len() >= 1
                &&& done.len() == p.len() - 1
                &&& forall|k: int| 0 <= k < done.len() ==> done[k]@ == #[trigger] p[k]
                &&& cur@ == p.last()
            }),
        decreases s.len() - i,
    {
        let c = s[i];
        let ghost p = segments(s@.take(i as int));
        proof {
            assert(s@.take(i as int + 1).drop_last() =~= s@.take(i as int));
        }
        if c == '\n' {
            done.push(cur);
            cur = Vec::new();
            proof {
                let q = segments(s@.take(i as int + 1));
                assert(q =~= p.push(Seq::empty()));
                assert(cur@ =~= q.last());
                assert forall|k: int| 0 <= k < done.len() implies done[k]@ == #[trigger] q[k] by {
                    if k < done.len() - 1 {
                        assert(q[k] == p[k]);
                    }
                }
            }
        } else {
            cur.push(c);
            proof {
                let q = segments(s@.take(i as int + 1));
                assert(q =~= p.update(p.len() - 1, p.last().push(c)));
                assert forall|k: int| 0 <= k < done.len() implies done[k]@ == #[trigger] q[k] by {
                    assert(q[k] == p[k]);
                }
            }
        }
        i += 1;
    }
    proof {
        assert(s@.take(i as int) =~= s@);
    }
    done.push(cur);
    proof {
        let p = segments(s@);
        assert forall|k: int| 0 <= k < done.len() implies done[k]@ == #[trigger] p[k] by {
        }
    }
    done
}

/// The lines of `s`, as `str::lines` yields them.
pub fn split_lines(s: &Vec<char>) -> (r: Vec<Vec<char>>)
    ensures
        r.len() == lines(s@).len(),
        forall|k: int| 0 <= k < r.len() ==> r[k]@ == #[trigger] lines(s@)[k],
{
    let mut done: Vec<Vec<char>> = Vec::new();
    let mut cur: Vec<char> = Vec::new();
    let mut i: usize = 0;
    while i < s.len()
        invariant
            i <= s.len(),
            ({
                let p = segments(s@.take(i as int));
                &&& p.len() >= 1
                &&& done.len() == p.len() - 1
                &&& forall|k: int| 0 <= k < done.len() ==> done[k]@ == #[trigger] strip_cr(p[k])
                &&& cur@ == p.last()
            }),
        decreases s.len() - i,
    {
        let c = s[i];
        let ghost p = segments(s@.take(i as int));
        proof {
            assert(s@.take(i as int + 1).drop_last() =~= s@.take(i as int));
        }
        if c == '\n' {
            let n = cur.len();
            if n > 0 && cur[n - 1] == '\r' {
                cur.pop();
            }
            proof {
                assert(cur@ == strip_cr(p.last()));
            }
            done.push(cur);
            cur = Vec::new();
            proof {
                let q = segments(s@.take(i as int + 1));
                assert(q =~= p.push(Seq::empty()));
                assert(cur@ =~= q.last());
                assert forall|k: int| 0 <= k < done.len() implies done[k]@ == #[trigger] strip_cr(
                    q[k],
                ) by {
                    if k < done.len() - 1 {
                        assert(q[k] == p[k]);
                    }
                }
            }
        } else {
            cur.push(c);
            proof {
                let q = segments(s@.take(i as int + 1));
                assert(q =~= p.update(p.len() - 1, p.last().push(c)));
                assert forall|k: int| 0 <= k < done.len() implies done[k]@ == #[trigger] strip_cr(
                    q[k],
                ) by {
                    assert(q[k] == p[k]);
                }
            }
        }
        i += 1;
    }
    proof {
        assert(s@.take(i as int) =~= s@);
    }
    if cur.len() > 0 {
        done.push(cur);
    }
    proof {
        let p = segments(s@);
        let ls = lines(s@);
        assert forall|k: int| 0 <= k < done.len() implies done[k]@ == #[trigger] ls[k] by {
            if k < p.len() - 1 {
                assert(ls[k] == strip_cr(p[k]));
            } else {
                assert(ls[k] == p[k]);
            }
        }
    }
    done
}

/// The characters of a string slice.
pub fn chars_of(s: &str) -> (v: Vec<char>)
    ensures
        v@ == s@,
{
    let mut v: Vec<char> = Vec::new();
    for c in it: s.chars()
        invariant
            it.seq() == s@,
            v@ == it.seq().take(it.index() as int),
    {
        proof {
            assert(it.seq().take(it.index() as int + 1) =~= v@.push(c));
        }
        v.push(c);
    }
    proof {
        assert(v@ =~= s@);
    }
    v
}

/// `String::push` from std: appends `c` at the end of `s`.
#[verifier::external_body]
fn push_char(s: &mut String, c: char)
    ensures
        final(s)@ == old(s)@.push(c),
{
    s.push(c);
}

/// The string made of the first `n` characters of `v`.
pub fn string_of_first(v: &[char], n: usize) -> (s: String)
    requires
        n <= v@.len(),
    ensures
        s@ == v@.take(n as int),
{
    let mut s = String::new();
    let mut i: usize = 0;
    while i < n
        invariant
            i <= n <= v@.len(),
            s@ == v@.take(i as int),
        decreases n - i,
    {
        proof {
            assert(v@.take(i as int + 1) =~= s@.push(v@[i as int]));
        }
        push_char(&mut s, v[i]);
        i += 1;
    }
    s
}

/// The string made of the characters `v`.
pub fn string_of(v: &[char]) -> (s: String)
    ensures
        s@ == v@,
{
    let s = string_of_first(v, v.len());
    proof {
        assert(v@.take(v@.len() as int) =~= v@);
    }
    s
}

/// Whether two string slices hold the same characters.
pub fn str_eq(a: &str, b: &str) -> (r: bool)
    ensures
        r == (a@ == b@),
{
    let x = chars_of(a);
    let y = chars_of(b);
    if x.len() != y.len() {
        return false;
    }
    let mut i: usize = 0;
    while i < x.len()
        invariant
            i <= x.len(),
            x.len() == y.len(),
            x@ == a@,
            y@ == b@,
            forall|k: int| 0 <= k < i ==> x[k] == y[k],
        decreases x.len() - i,
    {
        if x[i] != y[i] {
            proof {
                assert(a@[i as int] != b@[i as int]);
            }
            return false;
        }
        i += 1;
    }
    proof {
        assert(x@ =~= y@);
    }
    true
}

/// What `str::to_lowercase` returns for `s`.
pub uninterp spec fn lowercase(s: Seq<char>) -> Seq<char>;

/// What `str::to_uppercase` returns for `s`.
pub uninterp spec fn uppercase(s: Seq<char>) -> Seq<char>;

/// `str::to_lowercase` from std: the lowercase equivalent of `s` under the
/// Unicode case mapping, returned as the named result `lowercase(s)`.
#[verifier::external_body]
pub(crate) fn to_lowercase(s: &str) -> (r: String)
    ensures
        r@ == lowercase(s@),
{
    s.to_lowercase()
}

/// `str::to_uppercase` from std: the uppercase equivalent of `s` under the
/// Unicode case mapping, returned as the named result `uppercase(s)`.
#[verifier::external_body]
pub(crate) fn to_uppercase(s: &str) -> (r: String)
    ensures
        r@ == uppercase(s@),
{
    s.to_uppercase()
}

/// Whether `c` has the Unicode `White_Space` property (what `char::is_whitespace`
/// tests).
pub open spec fn is_whitespace(c: char) -> bool {
    let u = c as u32;
    (0x09 <= u && u <= 0x0d) || u == 0x20 || u == 0x85 || u == 0xa0 || u == 0x1680 || (0x2000
        <= u && u <= 0x200a) || u == 0x2028 || u == 0x2029 || u == 0x202f || u == 0x205f || u
        == 0x3000
}

pub fn is_whitespace_exec(c: char) -> (r: bool)
    ensures
        r == is_whitespace(c),
{
    let u = c as u32;
    (0x09 <= u && u <= 0x0d) || u == 0x20 || u == 0x85 || u == 0xa0 || u == 0x1680 || (0x2000
        <= u && u <= 0x200a) || u == 0x2028 || u == 0x2029 || u == 0x202f || u == 0x205f || u
        == 0x3000
}

/// Number of whitespace characters at the start of `s`.
pub open spec fn leading_ws(s: Seq<char>) -> nat
    decreases s.len(),
{
    if s.len() == 0 || !is_whitespace(s[0]) {
        0
    } else {
        1 + leading_ws(s.drop_first())
    }
}

/// Number of whitespace characters at the end of `s`.
pub open spec fn trailing_ws(s: Seq<char>) -> nat
    decreases s.len(),
{
    if s.len() == 0 || !is_whitespace(s.last()) {
        0
    } else {
        1 + trailing_ws(s.drop_last())
    }
}

/// `s` without whitespace at either end (what `str::trim` returns).
pub open spec fn trimmed(s: Seq<char>) -> Seq<char> {
    let a = leading_ws(s);
    if a == s.len() {
        Seq::empty()
    } else {
        s.subrange(a as int, s.len() - trailing_ws(s))
    }
}

proof fn lemma_leading_ws(s: Seq<char>, i: int)
    requires
        0 <= i <= s.len(),
        forall|k: int| 0 <= k < i ==> is_whitespace(s[k]),
    ensures
        leading_ws(s) == i + leading_ws(s.skip(i)),
    decreases i,
{
    if i > 0 {
        lemma_leading_ws(s.drop_first(), i - 1);
        assert(s.drop_first().skip(i - 1) =~= s.skip(i));
    } else {
        assert(s.skip(0) =~= s);
    }
}

proof fn lemma_trailing_ws(s: Seq<char>, j: int)
    requires
        0 <= j <= s.len(),
        forall|k: int| j <= k < s.len() ==> is_whitespace(s[k]),
    ensures
        trailing_ws(s) == (s.len() - j) + trailing_ws(s.take(j)),
    decreases s.len() - j,
{
    if j < s.len() {
        lemma_trailing_ws(s.drop_last(), j);
        assert(s.drop_last().take(j) =~= s.take(j));
    } else {
        assert(s.take(j) =~= s);
    }
}

proof fn lemma_leading_ws_le(s: Seq<char>)
    ensures
        leading_ws(s) <= s.len(),
        leading_ws(s) < s.len() ==> !is_whitespace(s[leading_ws(s) as int]),
    decreases s.len(),
{
    if s.len() > 0 && is_whitespace(s[0]) {
        lemma_leading_ws_le(s.drop_first());
    }
}

proof fn lemma_trailing_ws_le(s: Seq<char>)
    ensures
        trailing_ws(s) <= s.len(),
        trailing_ws(s) < s.len() ==> !is_whitespace(s[s.len() - 1 - trailing_ws(s)]),
    decreases s.len(),
{
    if s.len() > 0 && is_whitespace(s.last()) {
        lemma_trailing_ws_le(s.drop_last());
    }
}

/// The characters of `v` without whitespace at either end.
pub fn trim_chars(v: &Vec<char>) -> (r: Vec<char>)
    ensures
        r@ == trimmed(v@),
{
    let mut a: usize = 0;
    while a < v.len() && is_whitespace_exec(v[a])
        invariant
            a <= v.len(),
            forall|k: int| 0 <= k < a ==> is_whitespace(v[k]),
        decreases v.len() - a,
    {
        a += 1;
    }
    proof {
        lemma_leading_ws(v@, a as int);
        if a < v.len() {
            assert(v@.skip(a as int)[0] == v@[a as int]);
        } else {
            assert(v@.skip(a as int).len() == 0);
        }
    }
    if a == v.len() {
        return Vec::new();
    }
    let mut b: usize = v.len();
    while b > a && is_whitespace_exec(v[b - 1])
        invariant
            a < v.len(),
            a < b <= v.len(),
            !is_whitespace(v[a as int]),
            forall|k: int| b <= k < v.len() ==> is_whitespace(v[k]),
        decreases b,
    {
        b -= 1;
    }
    proof {
        lemma_trailing_ws(v@, b as int);
        assert(v@.take(b as int).last() == v@[b - 1]);
        assert(trailing_ws(v@.take(b as int)) == 0);
        assert(v@.skip(a as int).len() > 0 && !is_whitespace(v@.skip(a as int)[0]));
        assert(leading_ws(v@.skip(a as int)) == 0);
    }
    let mut r: Vec<char> = Vec::new();
    let mut i = a;
    while i < b
        invariant
            a <= i <= b <= v.len(),
            r@ == v@.subrange(a as int, i as int),
        decreases b - i,
    {
        r.push(v[i]);
        proof {
            assert(r@ =~= v@.subrange(a as int, i as int + 1));
        }
        i += 1;
    }
    r
}

/// Index of the first `c` in `s`, if any.
pub open spec fn first_index(s: Seq<char>, c: char) -> Option<int> {
    if exists|i: int| 0 <= i < s.len() && s[i] == c {
        Some(choose|i: int| 0 <= i < s.len() && s[i] == c && forall|j: int| 0 <= j < i ==> s[j] != c)
    } else {
        None
    }
}

/// Position of the first `c` in `v`.
pub fn find_char(v: &Vec<char>, c: char) -> (r: Option<usize>)
    ensures
        r matches Some(i) ==> first_index(v@, c) == Some(i as int) && i < v.len() && v@[i as int]
            == c && forall|j: int| 0 <= j < i ==> v@[j] != c,
        r is None ==> first_index(v@, c) is None,
{
    let mut i: usize = 0;
    while i < v.len()
        invariant
            i <= v.len(),
            forall|j: int| 0 <= j < i ==> v[j] != c,
        decreases v.len() - i,
    {
        if v[i] == c {
            proof {
                let k = choose|k: int|
                    0 <= k < v@.len() && v@[k] == c && forall|j: int| 0 <= j < k ==> v@[j] != c;
                assert(k == i) by {
                    if k > i {
                        assert(v@[i as int] != c);
                    }
                }
            }
            return Some(i);
        }
        i += 1;
    }
    None
}

/// The characters of `v` from index `a` to the end.
pub fn chars_from(v: &Vec<char>, a: usize) -> (r: Vec<char>)
    requires
        a <= v.len(),
    ensures
        r@ == v@.skip(a as int),
{
    let mut r: Vec<char> = Vec::new();
    let mut i = a;
    while i < v.len()
        invariant
            a <= i <= v.len(),
            r@ == v@.subrange(a as int, i as int),
        decreases v.len() - i,
    {
        r.push(v[i]);
        proof {
            assert(r@ =~= v@.subrange(a as int, i as int + 1));
        }
        i += 1;
    }
    proof {
        assert(r@ =~= v@.skip(a as int));
    }
    r
}

/// The first `n` characters of `v`.
pub fn chars_upto(v: &Vec<char>, n: usize) -> (r: Vec<char>)
    requires
        n <= v.len(),
    ensures
        r@ == v@.take(n as int),
{
    let mut r: Vec<char> = Vec::new();
    let mut i: usize = 0;
    while i < n
        invariant
            i <= n <= v.len(),
            r@ == v@.take(i as int),
        decreases n - i,
    {
        r.push(v[i]);
        proof {
            assert(r@ =~= v@.take(i as int + 1));
        }
        i += 1;
    }
    r
}

/// `s` with each occurrence of the two characters `a b` replaced by `rep`,
/// scanning left to right without overlap (`str::replace` with a two-character
/// pattern).
pub open spec fn replace_pair(s: Seq<char>, a: char, b: char, rep: Seq<char>) -> Seq<char>
    decreases s.len(),
{
    if s.len() == 0 {
        Seq::empty()
    } else if s.len() >= 2 && s[0] == a && s[1] == b {
        rep + replace_pair(s.skip(2), a, b, rep)
    } else {
        seq![s[0]] + replace_pair(s.skip(1), a, b, rep)
    }
}

/// Computes `replace_pair(v, a, b, rep)`.
pub fn replace_pair_exec(v: &Vec<char>, a: char, b: char, rep: &Vec<char>) -> (r: Vec<char>)
    ensures
        r@ == replace_pair(v@, a, b, rep@),
{
    let mut out: Vec<char> = Vec::new();
    let mut i: usize = 0;
    proof {
        assert(v@.skip(0) =~= v@);
    }
    while i < v.len()
        invariant
            i <= v.len(),
            out@ + replace_pair(v@.skip(i as int), a, b, rep@) == replace_pair(v@, a, b, rep@),
        decreases v.len() - i,
    {
        let ghost rest = v@.skip(i as int);
        if i + 1 < v.len() && v[i] == a && v[i + 1] == b {
            let ghost out0 = out@;
            let mut j: usize = 0;
            while j < rep.len()
                invariant
                    j <= rep.len(),
                    out@ == out0 + rep@.take(j as int),
                decreases rep.len() - j,
            {
                out.push(rep[j]);
                proof {
                    assert(out@ =~= out0 + rep@.take(j as int + 1));
                }
                j += 1;
            }
            proof {
                assert(rep@.take(j as int) =~= rep@);
                assert(rest.skip(2) =~= v@.skip(i as int + 2));
                assert(out0 + (rep@ + replace_pair(rest.skip(2), a, b, rep@)) =~= out@ + replace_pair(
                    v@.skip(i as int + 2),
                    a,
                    b,
                    rep@,
                ));
            }
            i += 2;
        } else {
            let ghost out0 = out@;
            out.push(v[i]);
            proof {
                assert(rest.skip(1) =~= v@.skip(i as int + 1));
                assert(out0 + (seq![rest[0]] + replace_pair(rest.skip(1), a, b, rep@)) =~= out@
                    + replace_pair(v@.skip(i as int + 1), a, b, rep@));
            }
            i += 1;
        }
    }
    proof {
        assert(v@.skip(i as int).len() == 0);
        assert(out@ + Seq::<char>::empty() =~= out@);
    }
    out
}

/// `s` with every `a` replaced by `b` (`str::replace` with one-character
/// pattern and replacement).
pub open spec fn replace_char(s: Seq<char>, a: char, b: char) -> Seq<char> {
    Seq::new(s.len(), |i: int| if s[i] == a { b } else { s[i] })
}

/// Computes `replace_char(v, a, b)`.
pub fn replace_char_exec(v: &Vec<char>, a: char, b: char) -> (r: Vec<char>)
    ensures
        r@ == replace_char(v@, a, b),
{
    let mut out: Vec<char> = Vec::new();
    let mut i: usize = 0;
    while i < v.len()
        invariant
            i <= v.len(),
            out@ =~= replace_char(v@.take(i as int), a, b),
        decreases v.len() - i,
    {
        out.push(if v[i] == a { b } else { v[i] });
        proof {
            assert(out@ =~= replace_char(v@.take(i as int + 1), a, b));
        }
        i += 1;
    }
    proof {
        assert(v@.take(i as int) =~= v@);
    }
    out
}

/// `parts` joined with a newline between each two.
pub open spec fn join_lines(parts: Seq<Seq<char>>) -> Seq<char>
    decreases parts.len(),
{
    if parts.len() == 0 {
        Seq::empty()
    } else if parts.len() == 1 {
        parts[0]
    } else {
        join_lines(parts.drop_last()) + seq!['\n'] + parts.last()
    }
}

/// `parts` one after another.
pub open spec fn concat_all(parts: Seq<Seq<char>>) -> Seq<char>
    decreases parts.len(),
{
    if parts.len() == 0 {
        Seq::empty()
    } else {
        concat_all(parts.drop_last()) + parts.last()
    }
}

/// Appends the characters of `s` to `out`.
pub fn append_str(out: &mut String, s: &str)
    ensures
        final(out)@ == old(out)@ + s@,
{
    out.append(s);
}

} // verus!
