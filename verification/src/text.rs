//! Text helpers: decimal and hexadecimal renderings, and the few operations on
//! `String` that the library builds its messages with.

use vstd::prelude::*;
use vstd::string::*;
use vstd::utf8::*;

verus! {

/// The character of a decimal digit.
pub open spec fn decimal_digit(d: nat) -> char {
    (48 + d) as char
}

/// The decimal rendering of a natural number, without leading zeros.
pub open spec fn decimal(n: nat) -> Seq<char>
    decreases n,
{
    if n < 10 {
        seq![decimal_digit(n)]
    } else {
        decimal(n / 10).push(decimal_digit(n % 10))
    }
}

/// Whether a text holds no ':'.
pub open spec fn colon_free(s: Seq<char>) -> bool {
    forall|i: int| 0 <= i < s.len() ==> s[i] != ':'
}

/// A decimal rendering is a non-empty string of the digits '0' to '9', so it
/// holds no ':'.
pub proof fn lemma_decimal_digits(n: nat)
    ensures
        decimal(n).len() >= 1,
        forall|i: int| 0 <= i < decimal(n).len() ==> '0' <= #[trigger] decimal(n)[i] <= '9',
        colon_free(decimal(n)),
    decreases n,
{
    if n >= 10 {
        lemma_decimal_digits(n / 10);
    }
}

/// Distinct numbers have distinct decimal renderings.
pub proof fn lemma_decimal_injective(n: nat, m: nat)
    requires
        decimal(n) == decimal(m),
    ensures
        n == m,
    decreases n,
{
    lemma_decimal_digits(n / 10);
    lemma_decimal_digits(m / 10);
    lemma_digit_value(n % 10);
    lemma_digit_value(m % 10);
    if n >= 10 && m >= 10 {
        assert(decimal(n / 10) =~= decimal(n).drop_last());
        assert(decimal(m / 10) =~= decimal(m).drop_last());
        assert(decimal_digit(n % 10) == decimal(n).last());
        assert(decimal_digit(m % 10) == decimal(m).last());
        lemma_decimal_injective(n / 10, m / 10);
    } else if n < 10 && m < 10 {
        assert(decimal(n)[0] == decimal_digit(n));
        assert(decimal(m)[0] == decimal_digit(m));
    } else if n < 10 {
        assert(decimal(m).len() == decimal(m / 10).len() + 1);
    } else {
        assert(decimal(n).len() == decimal(n / 10).len() + 1);
    }
}

/// The code of a decimal digit's character.
proof fn lemma_digit_value(d: nat)
    requires
        d < 10,
    ensures
        decimal_digit(d) as int == 48 + d,
{
}

/// Where a ':' ends a colon-free text on both sides of an equation, the texts
/// before it and the rests after it are equal.
pub proof fn lemma_colon_split(x1: Seq<char>, r1: Seq<char>, x2: Seq<char>, r2: Seq<char>)
    requires
        colon_free(x1),
        colon_free(x2),
        x1 + seq![':'] + r1 == x2 + seq![':'] + r2,
    ensures
        x1 == x2,
        r1 == r2,
{
    let s1 = x1 + seq![':'] + r1;
    let s2 = x2 + seq![':'] + r2;
    if x1.len() < x2.len() {
        assert(s1[x1.len() as int] == ':');
        assert(s2[x1.len() as int] == x2[x1.len() as int]);
    } else if x2.len() < x1.len() {
        assert(s2[x2.len() as int] == ':');
        assert(s1[x2.len() as int] == x1[x2.len() as int]);
    }
    assert(x1 =~= s1.subrange(0, x1.len() as int));
    assert(x2 =~= s2.subrange(0, x2.len() as int));
    assert(r1 =~= s1.subrange(x1.len() as int + 1, s1.len() as int));
    assert(r2 =~= s2.subrange(x2.len() as int + 1, s2.len() as int));
}

/// The character of a lower-case hexadecimal digit.
pub open spec fn hex_digit(d: nat) -> char {
    if d < 10 {
        (48 + d) as char
    } else {
        (87 + d) as char
    }
}

/// The lower-case hexadecimal rendering of a byte string, two digits per byte.
pub open spec fn hex_lower(bytes: Seq<u8>) -> Seq<char> {
    Seq::new(
        2 * bytes.len(),
        |i: int|
            if i % 2 == 0 {
                hex_digit((bytes[i / 2] / 16) as nat)
            } else {
                hex_digit((bytes[i / 2] % 16) as nat)
            },
    )
}

/// Whether a byte is an ASCII hexadecimal digit, in either case.
pub open spec fn is_hex_byte(b: u8) -> bool {
    (48 <= b <= 57) || (65 <= b <= 70) || (97 <= b <= 102)
}

/// The value of an ASCII hexadecimal digit.
pub open spec fn hex_byte_value(b: u8) -> int {
    if b <= 57 {
        b - 48
    } else if b <= 70 {
        b - 55
    } else {
        b - 87
    }
}

/// Whether a byte string is a hexadecimal text: an even number of digits.
pub open spec fn hex_decodable(text: Seq<u8>) -> bool {
    &&& text.len() % 2 == 0
    &&& forall|i: int| 0 <= i < text.len() ==> is_hex_byte(#[trigger] text[i])
}

/// The bytes that a hexadecimal text stands for, the first digit of each pair
/// being the high one.
pub open spec fn hex_decoded(text: Seq<u8>) -> Seq<u8> {
    Seq::new(
        text.len() / 2,
        |i: int| (16 * hex_byte_value(text[2 * i]) + hex_byte_value(text[2 * i + 1])) as u8,
    )
}

/// The hexadecimal rendering of any bytes is ASCII, and reading it back gives
/// the bytes again.
pub proof fn lemma_hex_roundtrip(bytes: Seq<u8>)
    ensures
        is_ascii_chars(hex_lower(bytes)),
        hex_decodable(encode_utf8(hex_lower(bytes))),
        hex_decoded(encode_utf8(hex_lower(bytes))) =~= bytes,
{
    let h = hex_lower(bytes);
    assert forall|i: int| 0 <= i < h.len() implies '\0' <= #[trigger] h[i] <= '\u{7f}' by {
        let b = bytes[i / 2];
        assert(b / 16 < 16 && b % 16 < 16);
    }
    is_ascii_chars_encode_utf8(h);
    let t = encode_utf8(h);
    assert forall|i: int| 0 <= i < t.len() implies is_hex_byte(#[trigger] t[i]) by {
        let b = bytes[i / 2];
        assert(h[i] as u8 == t[i]);
    }
    assert forall|i: int| 0 <= i < bytes.len() implies #[trigger] hex_decoded(t)[i] == bytes[i] by {
        let b = bytes[i];
        assert(h[2 * i] as u8 == t[2 * i]);
        assert(h[2 * i + 1] as u8 == t[2 * i + 1]);
        assert((2 * i) / 2 == i);
        assert((2 * i + 1) / 2 == i);
        assert((2 * i) % 2 == 0);
        assert((2 * i + 1) % 2 == 1);
    }
}

/// The lower-case form of a text as `str::to_lowercase` computes it (Unicode
/// `Lowercase` mapping, with the final-sigma rule).
pub uninterp spec fn unicode_lowercase(s: Seq<char>) -> Seq<char>;

/// Whether a character has the Unicode `White_Space` property.
pub open spec fn is_white_space(c: char) -> bool {
    ||| '\u{9}' <= c <= '\u{d}'
    ||| c == ' '
    ||| c == '\u{85}'
    ||| c == '\u{a0}'
    ||| c == '\u{1680}'
    ||| '\u{2000}' <= c <= '\u{200a}'
    ||| c == '\u{2028}'
    ||| c == '\u{2029}'
    ||| c == '\u{202f}'
    ||| c == '\u{205f}'
    ||| c == '\u{3000}'
}

/// A text with its leading white space removed.
pub open spec fn trim_start(s: Seq<char>) -> Seq<char>
    decreases s.len(),
{
    if s.len() > 0 && is_white_space(s[0]) {
        trim_start(s.drop_first())
    } else {
        s
    }
}

/// A text with its trailing white space removed.
pub open spec fn trim_end(s: Seq<char>) -> Seq<char>
    decreases s.len(),
{
    if s.len() > 0 && is_white_space(s.last()) {
        trim_end(s.drop_last())
    } else {
        s
    }
}

/// A text with leading and trailing white space removed.
pub open spec fn unicode_trim(s: Seq<char>) -> Seq<char> {
    trim_end(trim_start(s))
}

/// `str::to_lowercase`.
#[verifier::external_body]
pub(crate) fn to_lowercase(s: &str) -> (r: String)
    ensures
        r@ == unicode_lowercase(s@),
{
    s.to_lowercase()
}

/// `str::trim`: its documentation defines white space by the Unicode
/// `White_Space` property.
#[verifier::external_body]
pub(crate) fn trim(s: &str) -> (r: &str)
    ensures
        r@ == unicode_trim(s@),
{
    s.trim()
}

/// A text with every occurrence of a character removed.
pub open spec fn without_char(s: Seq<char>, c: char) -> Seq<char>
    decreases s.len(),
{
    if s.len() == 0 {
        s
    } else if s.last() == c {
        without_char(s.drop_last(), c)
    } else {
        without_char(s.drop_last(), c).push(s.last())
    }
}

/// Removes every occurrence of a character (as `str::replace(c, "")` does).
pub fn remove_char(s: &str, c: char) -> (r: String)
    ensures
        r@ == without_char(s@, c),
{
    let n = s.unicode_len();
    let mut out = String::new();
    let mut i: usize = 0;
    assert(s@.take(0) =~= Seq::<char>::empty());
    while i < n
        invariant
            n == s@.len(),
            i <= n,
            out@ == without_char(s@.take(i as int), c),
        decreases n - i,
    {
        let ch = s.get_char(i);
        assert(s@.take(i + 1).drop_last() =~= s@.take(i as int));
        if ch != c {
            push_char(&mut out, ch);
        }
        i = i + 1;
    }
    assert(s@.take(n as int) =~= s@);
    out
}

/// The parts joined with a separator between each two.
pub open spec fn join(parts: Seq<Seq<char>>, sep: Seq<char>) -> Seq<char>
    decreases parts.len(),
{
    if parts.len() == 0 {
        Seq::empty()
    } else if parts.len() == 1 {
        parts[0]
    } else {
        join(parts.drop_last(), sep) + sep + parts.last()
    }
}

/// The texts of a list of strings.
pub open spec fn texts(v: Seq<String>) -> Seq<Seq<char>> {
    Seq::new(v.len(), |i: int| v[i]@)
}

/// Joins strings with a separator (as `[String]::join` does).
pub fn join_strings(list: &Vec<String>, sep: &str) -> (r: String)
    ensures
        r@ == join(texts(list@), sep@),
{
    let mut res = String::new();
    let mut i: usize = 0;
    while i < list.len()
        invariant
            i <= list@.len(),
            res@ == join(texts(list@).take(i as int), sep@),
        decreases list@.len() - i,
    {
        assert(texts(list@).take(i + 1).drop_last() =~= texts(list@).take(i as int));
        if i != 0 {
            res.append(sep);
        } else {
            assert(texts(list@).take(1) =~= seq![list@[0]@]);
        }
        res.append(list[i].as_str());
        i = i + 1;
    }
    assert(texts(list@).take(list@.len() as int) =~= texts(list@));
    res
}

/// The pieces of a text between separators (as `str::split(sep)` yields
/// them): one more piece than there are separators.
pub open spec fn split_on(s: Seq<char>, sep: char) -> Seq<Seq<char>>
    decreases s.len(),
{
    if s.len() == 0 {
        seq![Seq::empty()]
    } else {
        let p = split_on(s.drop_last(), sep);
        if s.last() == sep {
            p.push(Seq::empty())
        } else {
            p.update(p.len() - 1, p.last().push(s.last()))
        }
    }
}

/// Splitting yields at least one piece.
pub proof fn lemma_split_nonempty(s: Seq<char>, sep: char)
    ensures
        split_on(s, sep).len() >= 1,
    decreases s.len(),
{
    if s.len() > 0 {
        lemma_split_nonempty(s.drop_last(), sep);
    }
}

/// Splits a text at every occurrence of a separator.
pub fn split_text(s: &str, sep: char) -> (r: Vec<String>)
    ensures
        texts(r@) == split_on(s@, sep),
{
    let n = s.unicode_len();
    let mut pieces: Vec<String> = Vec::new();
    let mut current = String::new();
    let mut i: usize = 0;
    assert(s@.take(0) =~= Seq::<char>::empty());
    assert(texts(pieces@).push(current@) =~= split_on(s@.take(0), sep));
    while i < n
        invariant
            n == s@.len(),
            i <= n,
            texts(pieces@).push(current@) == split_on(s@.take(i as int), sep),
        decreases n - i,
    {
        let ch = s.get_char(i);
        let ghost before = s@.take(i as int);
        assert(s@.take(i + 1).drop_last() =~= before);
        assert(s@.take(i + 1).last() == ch);
        proof {
            lemma_split_nonempty(before, sep);
        }
        if ch == sep {
            let piece = current;
            pieces.push(piece);
            current = String::new();
            assert(texts(pieces@).push(current@) =~= split_on(before, sep).push(Seq::empty()));
        } else {
            let ghost old_pieces = pieces@;
            push_char(&mut current, ch);
            assert(texts(pieces@).push(current@) =~= split_on(before, sep).update(
                split_on(before, sep).len() - 1,
                split_on(before, sep).last().push(ch),
            ));
        }
        i = i + 1;
    }
    assert(s@.take(n as int) =~= s@);
    pieces.push(current);
    assert(texts(pieces@) =~= split_on(s@, sep));
    pieces
}

/// Appends a character to a string (`String::push`).
#[verifier::external_body]
pub(crate) fn push_char(s: &mut String, c: char)
    ensures
        final(s)@ == old(s)@.push(c),
{
    s.push(c);
}

/// Appends the decimal rendering of `n`.
pub fn push_decimal(out: &mut String, n: u64)
    ensures
        final(out)@ == old(out)@ + decimal(n as nat),
    decreases n,
{
    if n >= 10 {
        push_decimal(out, n / 10);
    }
    let d: u8 = (n % 10) as u8;
    push_char(out, (48u8 + d) as char);
    proof {
        assert(decimal_digit((n % 10) as nat) == (48u8 + d) as char);
    }
}

/// The concatenation of two texts.
pub fn concat2(a: &str, b: &str) -> (s: String)
    ensures
        s@ == a@ + b@,
{
    let mut s = String::from_str(a);
    s.append(b);
    s
}

/// The concatenation of three texts.
pub fn concat3(a: &str, b: &str, c: &str) -> (s: String)
    ensures
        s@ == a@ + b@ + c@,
{
    let mut s = String::from_str(a);
    s.append(b);
    s.append(c);
    s
}

/// Whether two texts are equal.
pub fn str_equal(a: &str, b: &str) -> (r: bool)
    ensures
        r == (a@ == b@),
{
    let sa = String::from_str(a);
    let sb = String::from_str(b);
    sa == sb
}

/// Whether two byte strings are equal.
pub fn bytes_equal(a: &[u8], b: &[u8]) -> (r: bool)
    ensures
        r == (a@ == b@),
{
    if a.len() != b.len() {
        return false;
    }
    let mut i: usize = 0;
    while i < a.len()
        invariant
            a@.len() == b@.len(),
            i <= a@.len(),
            forall|j: int| 0 <= j < i ==> a@[j] == b@[j],
        decreases a@.len() - i,
    {
        if a[i] != b[i] {
            return false;
        }
        i = i + 1;
    }
    assert(a@ =~= b@);
    true
}

} // verus!
