//! Text rules shared by the entities: which characters count as white space,
//! and how free-text fields are trimmed before they are stored.

use vstd::prelude::*;

verus! {

/// What `Debug` formatting of a string slice writes for `s`: the text in double
/// quotes, with escapes.
pub uninterp spec fn quoted(s: Seq<char>) -> Seq<char>;

/// Formats a string slice with `Debug` (`format!("{:?}", s)`).
#[verifier::external_body]
pub(crate) fn quote(s: &str) -> (r: String)
    ensures
        r@ == quoted(s@),
{
    format!("{:?}", s)
}

/// Whether `c` has the Unicode property `White_Space`.
pub open spec fn is_whitespace_spec(c: char) -> bool {
    let n = c as u32;
    ||| 0x09 <= n <= 0x0D
    ||| n == 0x20
    ||| n == 0x85
    ||| n == 0xA0
    ||| n == 0x1680
    ||| 0x2000 <= n <= 0x200A
    ||| n == 0x2028
    ||| n == 0x2029
    ||| n == 0x202F
    ||| n == 0x205F
    ||| n == 0x3000
}

/// Number of white-space characters at the start of `s`.
pub open spec fn leading_whitespace(s: Seq<char>) -> nat
    decreases s.len(),
{
    if s.len() > 0 && is_whitespace_spec(s[0]) {
        1 + leading_whitespace(s.drop_first())
    } else {
        0
    }
}

/// Number of white-space characters at the end of `s`.
pub open spec fn trailing_whitespace(s: Seq<char>) -> nat
    decreases s.len(),
{
    if s.len() > 0 && is_whitespace_spec(s.last()) {
        1 + trailing_whitespace(s.drop_last())
    } else {
        0
    }
}

/// `s` without its leading and trailing white space.
pub open spec fn trim_spec(s: Seq<char>) -> Seq<char> {
    let rest = s.skip(leading_whitespace(s) as int);
    rest.take(rest.len() - trailing_whitespace(rest))
}

/// Whether every character of `s` before position `n` is white space.
pub open spec fn all_whitespace(s: Seq<char>, from: int, to: int) -> bool {
    forall|i: int| from <= i < to ==> is_whitespace_spec(#[trigger] s[i])
}

/// Tests `c` for the Unicode property `White_Space`.
pub fn is_whitespace(c: char) -> (b: bool)
    ensures
        b == is_whitespace_spec(c),
{
    let n: u32 = c as u32;
    (0x09 <= n && n <= 0x0D) || n == 0x20 || n == 0x85 || n == 0xA0 || n == 0x1680 || (0x2000 <= n
        && n <= 0x200A) || n == 0x2028 || n == 0x2029 || n == 0x202F || n == 0x205F || n == 0x3000
}

proof fn lemma_leading(s: Seq<char>, n: int)
    requires
        0 <= n <= s.len(),
        all_whitespace(s, 0, n),
        n == s.len() || !is_whitespace_spec(s[n]),
    ensures
        leading_whitespace(s) == n,
    decreases n,
{
    if n > 0 {
        let t = s.drop_first();
        assert(is_whitespace_spec(s[0]));
        assert forall|i: int| 0 <= i < n - 1 implies is_whitespace_spec(#[trigger] t[i]) by {
            assert(t[i] == s[i + 1]);
        }
        lemma_leading(t, n - 1);
    }
}

proof fn lemma_trailing(s: Seq<char>, n: int)
    requires
        0 <= n <= s.len(),
        all_whitespace(s, s.len() - n, s.len() as int),
        n == s.len() || !is_whitespace_spec(s[s.len() - n - 1]),
    ensures
        trailing_whitespace(s) == n,
    decreases n,
{
    if n > 0 {
        let t = s.drop_last();
        assert(is_whitespace_spec(s[s.len() - 1]));
        assert forall|i: int| t.len() - (n - 1) <= i < t.len() implies is_whitespace_spec(
            #[trigger] t[i],
        ) by {
            assert(t[i] == s[i]);
        }
        lemma_trailing(t, n - 1);
    }
}

proof fn lemma_leading_bound(s: Seq<char>)
    ensures
        leading_whitespace(s) <= s.len(),
        leading_whitespace(s) < s.len() ==> !is_whitespace_spec(s[leading_whitespace(s) as int]),
    decreases s.len(),
{
    if s.len() > 0 && is_whitespace_spec(s[0]) {
        let t = s.drop_first();
        lemma_leading_bound(t);
        if leading_whitespace(t) < t.len() {
            assert(t[leading_whitespace(t) as int] == s[leading_whitespace(t) as int + 1]);
        }
    }
}

proof fn lemma_trailing_bound(s: Seq<char>)
    ensures
        trailing_whitespace(s) <= s.len(),
        trailing_whitespace(s) < s.len() ==> !is_whitespace_spec(
            s[s.len() - trailing_whitespace(s) - 1],
        ),
    decreases s.len(),
{
    if s.len() > 0 && is_whitespace_spec(s.last()) {
        let t = s.drop_last();
        lemma_trailing_bound(t);
        if trailing_whitespace(t) < t.len() {
            assert(t[t.len() - trailing_whitespace(t) - 1] == s[s.len() - trailing_whitespace(s)
                - 1]);
        }
    }
}

/// A trimmed text neither starts nor ends with white space, is no longer
/// than the text it was trimmed from, and trimming it again changes nothing.
pub proof fn law_trim(s: Seq<char>)
    ensures
        trim_spec(s).len() <= s.len(),
        trim_spec(s).len() > 0 ==> !is_whitespace_spec(trim_spec(s).first())
            && !is_whitespace_spec(trim_spec(s).last()),
        trim_spec(trim_spec(s)) == trim_spec(s),
{
    lemma_leading_bound(s);
    let rest = s.skip(leading_whitespace(s) as int);
    lemma_trailing_bound(rest);
    let t = trim_spec(s);
    if t.len() > 0 {
        assert(t.first() == rest[0]);
        assert(rest[0] == s[leading_whitespace(s) as int]);
        assert(t.last() == rest[rest.len() - trailing_whitespace(rest) - 1]);
        assert(leading_whitespace(t) == 0);
        assert(trailing_whitespace(t) == 0);
        assert(t.skip(0) =~= t);
        assert(t.take(t.len() as int) =~= t);
    } else {
        assert(leading_whitespace(t) == 0);
        assert(t.skip(0) =~= t);
        assert(trailing_whitespace(t) == 0);
        assert(t.take(0) =~= t);
    }
}

/// Returns `s` with its leading and trailing white space removed.
pub fn trim(s: &str) -> (r: String)
    ensures
        r@ == trim_spec(s@),
{
    let len: usize = s.unicode_len();
    let mut start: usize = 0;
    while start < len && is_whitespace(s.get_char(start))
        invariant
            start <= len,
            len == s@.len(),
            all_whitespace(s@, 0, start as int),
        decreases len - start,
    {
        start += 1;
    }
    let mut end: usize = len;
    while end > start && is_whitespace(s.get_char(end - 1))
        invariant
            start <= end <= len,
            len == s@.len(),
            all_whitespace(s@, end as int, len as int),
        decreases end,
    {
        end -= 1;
    }
    proof {
        lemma_leading(s@, start as int);
        let rest = s@.skip(start as int);
        assert forall|i: int| rest.len() - (len - end) <= i < rest.len() implies is_whitespace_spec(
            #[trigger] rest[i],
        ) by {
            assert(rest[i] == s@[i + start]);
        }
        lemma_trailing(rest, len - end);
        assert(rest.take(rest.len() - (len - end)) =~= s@.subrange(start as int, end as int));
    }
    s.substring_char(start, end).to_owned()
}

/// The pieces of `s` between occurrences of `sep`, in order. A text without
/// `sep` is one piece; two adjacent separators enclose an empty piece.
pub open spec fn split_spec(s: Seq<char>, sep: char) -> Seq<Seq<char>>
    decreases s.len(),
{
    if s.len() == 0 {
        seq![Seq::empty()]
    } else {
        let before = split_spec(s.drop_last(), sep);
        if s.last() == sep {
            before.push(Seq::empty())
        } else {
            before.update(before.len() - 1, before.last().push(s.last()))
        }
    }
}

/// The views of a list of strings.
pub open spec fn texts(v: Seq<String>) -> Seq<Seq<char>> {
    v.map_values(|s: String| s@)
}

proof fn lemma_split_nonempty(s: Seq<char>, sep: char)
    ensures
        split_spec(s, sep).len() >= 1,
    decreases s.len(),
{
    if s.len() > 0 {
        lemma_split_nonempty(s.drop_last(), sep);
    }
}

/// Splits `s` at every occurrence of `sep`.
pub fn split(s: &str, sep: char) -> (pieces: Vec<String>)
    ensures
        texts(pieces@) == split_spec(s@, sep),
{
    let len: usize = s.unicode_len();
    let mut pieces: Vec<String> = Vec::new();
    let mut start: usize = 0;
    let mut i: usize = 0;
    proof {
        assert(s@.take(0) =~= Seq::<char>::empty());
        assert(texts(pieces@).push(s@.subrange(0, 0)) =~= split_spec(s@.take(0), sep));
    }
    while i < len
        invariant
            start <= i <= len,
            len == s@.len(),
            texts(pieces@).push(s@.subrange(start as int, i as int)) == split_spec(
                s@.take(i as int),
                sep,
            ),
        decreases len - i,
    {
        let c = s.get_char(i);
        proof {
            let next = s@.take(i + 1);
            assert(next.drop_last() =~= s@.take(i as int));
            assert(next.last() == c);
            lemma_split_nonempty(s@.take(i as int), sep);
        }
        if c == sep {
            let piece = s.substring_char(start, i).to_owned();
            let ghost before = texts(pieces@);
            pieces.push(piece);
            proof {
                assert(texts(pieces@) =~= before.push(s@.subrange(start as int, i as int)));
                assert(s@.subrange(i + 1, i + 1) =~= Seq::<char>::empty());
            }
            start = i + 1;
        } else {
            proof {
                let before = split_spec(s@.take(i as int), sep);
                assert(before.last() == s@.subrange(start as int, i as int));
                assert(s@.subrange(start as int, i as int).push(c) =~= s@.subrange(
                    start as int,
                    i + 1,
                ));
                assert(before.update(before.len() - 1, before.last().push(c)) =~= texts(
                    pieces@,
                ).push(s@.subrange(start as int, i + 1)));
            }
        }
        i += 1;
    }
    let piece = s.substring_char(start, len).to_owned();
    let ghost before = texts(pieces@);
    pieces.push(piece);
    proof {
        assert(texts(pieces@) =~= before.push(s@.subrange(start as int, len as int)));
        assert(s@.take(len as int) =~= s@);
    }
    pieces
}

/// Whether `a` stands before `b` in byte-wise lexicographic order.
pub open spec fn bytes_before(a: Seq<u8>, b: Seq<u8>) -> bool
    decreases a.len(),
{
    if b.len() == 0 {
        false
    } else if a.len() == 0 {
        true
    } else if a[0] != b[0] {
        a[0] < b[0]
    } else {
        bytes_before(a.drop_first(), b.drop_first())
    }
}

/// Whether the text `a` sorts before the text `b`: byte-wise, on their UTF-8
/// encodings.
pub open spec fn text_before(a: Seq<char>, b: Seq<char>) -> bool {
    bytes_before(vstd::utf8::encode_utf8(a), vstd::utf8::encode_utf8(b))
}

/// No byte string stands before itself.
pub proof fn lemma_bytes_before_irreflexive(a: Seq<u8>)
    ensures
        !bytes_before(a, a),
    decreases a.len(),
{
    if a.len() > 0 {
        lemma_bytes_before_irreflexive(a.drop_first());
    }
}

/// The byte-wise order is transitive.
pub proof fn lemma_bytes_before_transitive(a: Seq<u8>, b: Seq<u8>, c: Seq<u8>)
    requires
        bytes_before(a, b),
        bytes_before(b, c),
    ensures
        bytes_before(a, c),
    decreases a.len(),
{
    if a.len() > 0 && a[0] == b[0] && b[0] == c[0] {
        lemma_bytes_before_transitive(a.drop_first(), b.drop_first(), c.drop_first());
    }
}

/// Two byte strings of which neither stands before the other are equal.
pub proof fn lemma_bytes_before_total(a: Seq<u8>, b: Seq<u8>)
    requires
        !bytes_before(a, b),
        !bytes_before(b, a),
    ensures
        a == b,
    decreases a.len(),
{
    if a.len() > 0 && b.len() > 0 {
        lemma_bytes_before_total(a.drop_first(), b.drop_first());
        assert(a =~= seq![a[0]] + a.drop_first());
        assert(b =~= seq![b[0]] + b.drop_first());
    } else {
        assert(a =~= b);
    }
}

/// Whether the text `a` sorts before the text `b`.
pub fn sorts_before(a: &str, b: &str) -> (r: bool)
    ensures
        r == text_before(a@, b@),
{
    let x = a.as_bytes();
    let y = b.as_bytes();
    let mut i: usize = 0;
    assert(x@.skip(0) =~= x@ && y@.skip(0) =~= y@);
    while i < x.len() && i < y.len()
        invariant
            i <= x@.len(),
            i <= y@.len(),
            x@ == vstd::utf8::encode_utf8(a@),
            y@ == vstd::utf8::encode_utf8(b@),
            bytes_before(x@, y@) == bytes_before(x@.skip(i as int), y@.skip(i as int)),
        decreases x@.len() - i,
    {
        proof {
            let s = x@.skip(i as int);
            let t = y@.skip(i as int);
            assert(s.drop_first() =~= x@.skip(i + 1));
            assert(t.drop_first() =~= y@.skip(i + 1));
            assert(s.len() > 0 && t.len() > 0);
            assert(s[0] == x@[i as int] && t[0] == y@[i as int]);
            assert(bytes_before(s, t) == (if s[0] != t[0] {
                s[0] < t[0]
            } else {
                bytes_before(s.drop_first(), t.drop_first())
            }));
        }
        if x[i] != y[i] {
            return x[i] < y[i];
        }
        i += 1;
    }
    proof {
        let s = x@.skip(i as int);
        let t = y@.skip(i as int);
        assert(s.len() == x@.len() - i && t.len() == y@.len() - i);
    }
    i < y.len()
}

/// The character of the decimal digit `d`.
pub open spec fn digit(d: int) -> char {
    ((48 + d) as u8) as char
}

/// The decimal digits of a natural number, without leading zeros.
pub open spec fn digits(n: int) -> Seq<char>
    decreases n,
{
    if n < 10 {
        seq![digit(n)]
    } else {
        digits(n / 10).push(digit(n % 10))
    }
}

/// The decimal notation of an integer: a minus sign where it is negative,
/// then its digits.
pub open spec fn decimal_spec(n: int) -> Seq<char> {
    if n < 0 {
        seq!['-'] + digits(-n)
    } else {
        digits(n)
    }
}

fn digit_text(d: u32) -> (r: &'static str)
    requires
        d < 10,
    ensures
        r@ == seq![digit(d as int)],
{
    proof {
        reveal_strlit("0");
        reveal_strlit("1");
        reveal_strlit("2");
        reveal_strlit("3");
        reveal_strlit("4");
        reveal_strlit("5");
        reveal_strlit("6");
        reveal_strlit("7");
        reveal_strlit("8");
        reveal_strlit("9");
    }
    let r = if d == 0 {
        "0"
    } else if d == 1 {
        "1"
    } else if d == 2 {
        "2"
    } else if d == 3 {
        "3"
    } else if d == 4 {
        "4"
    } else if d == 5 {
        "5"
    } else if d == 6 {
        "6"
    } else if d == 7 {
        "7"
    } else if d == 8 {
        "8"
    } else {
        "9"
    };
    assert(r@ =~= seq![digit(d as int)]);
    r
}

fn append_digits(out: &mut String, n: u32)
    ensures
        final(out)@ == old(out)@ + digits(n as int),
    decreases n,
{
    if n >= 10 {
        append_digits(out, n / 10);
    }
    let ghost before = out@;
    out.append(digit_text(n % 10));
    proof {
        if n >= 10 {
            assert(out@ =~= old(out)@ + digits(n as int / 10).push(digit(n as int % 10)));
        } else {
            assert(out@ =~= old(out)@ + seq![digit(n as int)]);
        }
    }
}

/// Writes an integer in decimal notation.
pub fn decimal(n: i32) -> (r: String)
    ensures
        r@ == decimal_spec(n as int),
{
    let mut out = String::new();
    if n < 0 {
        proof {
            reveal_strlit("-");
        }
        out.append("-");
        assert(out@ =~= seq!['-']);
        let magnitude: i64 = -(n as i64);
        append_digits(&mut out, magnitude as u32);
    } else {
        append_digits(&mut out, n as u32);
        assert(out@ =~= digits(n as int));
    }
    out
}

} // verus!
