//! Byte- and character-level helpers for names, identifiers and message text.
//!
//! Names are compared the way the persistence layer compares them: either
//! exactly, or after folding the ASCII letters of their UTF-8 encoding to lower
//! case. Pairs of names are put in order by comparing their encodings byte by
//! byte.
use vstd::prelude::*;
use vstd::string::StringSliceAdditionalSpecFns;
use vstd::string::StrSliceExecFns;
use vstd::string::StringExecFns;
use vstd::utf8::encode_utf8;

verus! {

/// The lower-case form of an ASCII upper-case letter; every other byte is itself.
pub open spec fn lower_byte(b: u8) -> u8 {
    if 0x41 <= b <= 0x5a {
        (b + 0x20) as u8
    } else {
        b
    }
}

/// A byte string with each ASCII upper-case letter folded to lower case.
pub open spec fn fold_case(s: Seq<u8>) -> Seq<u8> {
    s.map_values(|b: u8| lower_byte(b))
}

/// Two names denote the same identity when their encodings agree up to the
/// case of ASCII letters.
pub open spec fn same_name(a: Seq<char>, b: Seq<char>) -> bool {
    fold_case(encode_utf8(a)) == fold_case(encode_utf8(b))
}

/// `a` comes strictly before `b` in byte-wise lexicographic order.
pub open spec fn lex_lt(a: Seq<u8>, b: Seq<u8>) -> bool
    decreases a.len(),
{
    if b.len() == 0 {
        false
    } else if a.len() == 0 {
        true
    } else if a[0] != b[0] {
        a[0] < b[0]
    } else {
        lex_lt(a.skip(1), b.skip(1))
    }
}

/// Order on names: the byte-wise lexicographic order of their encodings.
pub open spec fn name_lt(a: Seq<char>, b: Seq<char>) -> bool {
    lex_lt(encode_utf8(a), encode_utf8(b))
}

/// Every character is a printable ASCII character (space through tilde).
pub open spec fn printable_ascii(s: Seq<char>) -> bool {
    forall|i: int| 0 <= i < s.len() ==> ' ' <= #[trigger] s[i] <= '~'
}

/// Whether a character is white space: one of the characters with the
/// Unicode property White_Space.
pub open spec fn white_space(c: char) -> bool {
    let x = c as u32;
    ||| 0x09 <= x <= 0x0d
    ||| x == 0x20
    ||| x == 0x85
    ||| x == 0xa0
    ||| x == 0x1680
    ||| 0x2000 <= x <= 0x200a
    ||| x == 0x2028
    ||| x == 0x2029
    ||| x == 0x202f
    ||| x == 0x205f
    ||| x == 0x3000
}

/// A text without the white space at its beginning.
pub open spec fn without_leading_space(s: Seq<char>) -> Seq<char>
    decreases s.len(),
{
    if s.len() > 0 && white_space(s[0]) {
        without_leading_space(s.skip(1))
    } else {
        s
    }
}

/// A text without the white space at its end.
pub open spec fn without_trailing_space(s: Seq<char>) -> Seq<char>
    decreases s.len(),
{
    if s.len() > 0 && white_space(s.last()) {
        without_trailing_space(s.drop_last())
    } else {
        s
    }
}

/// A text without the white space at its beginning and at its end, as
/// `str::trim` gives it.
pub open spec fn trimmed(s: Seq<char>) -> Seq<char> {
    without_trailing_space(without_leading_space(s))
}

/// A text is blank when every character of it is white space.
pub open spec fn blank(s: Seq<char>) -> bool {
    forall|i: int| 0 <= i < s.len() ==> white_space(#[trigger] s[i])
}

/// What `str::to_lowercase` returns for a string.
pub uninterp spec fn lowercased(s: Seq<char>) -> Seq<char>;

/// The text before the first occurrence of `sep`, or the whole text if `sep`
/// does not occur.
pub open spec fn before_first(s: Seq<char>, sep: char) -> Seq<char>
    decreases s.len(),
{
    if s.len() == 0 {
        s
    } else if s[0] == sep {
        Seq::empty()
    } else {
        seq![s[0]] + before_first(s.skip(1), sep)
    }
}

/// Encoding a character string as UTF-8 loses nothing: equal encodings come
/// from equal strings.
pub proof fn lemma_utf8_injective(a: Seq<char>, b: Seq<char>)
    requires
        encode_utf8(a) == encode_utf8(b),
    ensures
        a == b,
{
    vstd::utf8::encode_utf8_decode_utf8(a);
    vstd::utf8::encode_utf8_decode_utf8(b);
}

/// Names that are equal are the same name.
pub proof fn lemma_same_name_reflexive(a: Seq<char>)
    ensures
        same_name(a, a),
{
}

/// `same_name` is symmetric.
pub proof fn lemma_same_name_symmetric(a: Seq<char>, b: Seq<char>)
    ensures
        same_name(a, b) == same_name(b, a),
{
}

/// `same_name` is transitive.
pub proof fn lemma_same_name_transitive(a: Seq<char>, b: Seq<char>, c: Seq<char>)
    requires
        same_name(a, b),
        same_name(b, c),
    ensures
        same_name(a, c),
{
}

/// If two byte strings agree on their first `i` bytes, their order is the
/// order of what follows.
pub proof fn lemma_lex_lt_common_prefix(a: Seq<u8>, b: Seq<u8>, i: int)
    requires
        0 <= i <= a.len(),
        i <= b.len(),
        forall|j: int| 0 <= j < i ==> a[j] == b[j],
    ensures
        lex_lt(a, b) == lex_lt(a.skip(i), b.skip(i)),
    decreases i,
{
    if i == 0 {
        assert(a.skip(0) =~= a);
        assert(b.skip(0) =~= b);
    } else {
        let a1 = a.skip(1);
        let b1 = b.skip(1);
        assert forall|j: int| 0 <= j < i - 1 implies a1[j] == b1[j] by {
            assert(a1[j] == a[j + 1]);
            assert(b1[j] == b[j + 1]);
        }
        lemma_lex_lt_common_prefix(a1, b1, i - 1);
        assert(a1.skip(i - 1) =~= a.skip(i));
        assert(b1.skip(i - 1) =~= b.skip(i));
        assert(a[0] == b[0]);
    }
}

/// No byte string comes before itself.
pub proof fn lemma_lex_lt_irreflexive(a: Seq<u8>)
    ensures
        !lex_lt(a, a),
    decreases a.len(),
{
    if a.len() > 0 {
        lemma_lex_lt_irreflexive(a.skip(1));
    }
}

/// Of two different byte strings exactly one comes before the other.
pub proof fn lemma_lex_lt_total(a: Seq<u8>, b: Seq<u8>)
    ensures
        a != b ==> (lex_lt(a, b) != lex_lt(b, a)),
        a == b ==> !lex_lt(a, b),
    decreases a.len(),
{
    if a == b {
        lemma_lex_lt_irreflexive(a);
    } else if a.len() == 0 || b.len() == 0 {
        if a.len() == 0 && b.len() == 0 {
            assert(a =~= b);
        }
    } else if a[0] == b[0] {
        lemma_lex_lt_total(a.skip(1), b.skip(1));
        if a.skip(1) == b.skip(1) {
            assert(a =~= seq![a[0]] + a.skip(1));
            assert(b =~= seq![b[0]] + b.skip(1));
        }
    }
}

/// The order on byte strings is transitive.
pub proof fn lemma_lex_lt_transitive(a: Seq<u8>, b: Seq<u8>, c: Seq<u8>)
    requires
        lex_lt(a, b),
        lex_lt(b, c),
    ensures
        lex_lt(a, c),
    decreases a.len(),
{
    if a.len() > 0 && a[0] == b[0] && b[0] == c[0] {
        lemma_lex_lt_transitive(a.skip(1), b.skip(1), c.skip(1));
    }
}

/// `a` comes before `b` in the order on names, or is `b`.
pub open spec fn name_le(a: Seq<char>, b: Seq<char>) -> bool {
    !name_lt(b, a)
}

/// Of two names one comes before the other, or they are the same.
pub proof fn lemma_name_le_total(a: Seq<char>, b: Seq<char>)
    ensures
        name_le(a, b) || name_le(b, a),
{
    lemma_lex_lt_total(encode_utf8(a), encode_utf8(b));
}

/// `name_le` is transitive.
pub proof fn lemma_name_le_transitive(a: Seq<char>, b: Seq<char>, c: Seq<char>)
    requires
        name_le(a, b),
        name_le(b, c),
    ensures
        name_le(a, c),
{
    let x = encode_utf8(a);
    let y = encode_utf8(b);
    let z = encode_utf8(c);
    lemma_lex_lt_total(x, y);
    lemma_lex_lt_total(y, z);
    if lex_lt(z, x) {
        if x == y {
        } else if y == z {
        } else {
            lemma_lex_lt_transitive(z, x, y);
        }
    }
}

pub fn bytes_eq(a: &[u8], b: &[u8]) -> (r: bool)
    ensures
        r == (a@ == b@),
{
    if a.len() != b.len() {
        return false;
    }
    let mut i: usize = 0;
    while i < a.len()
        invariant
            a@.len() == b@.len(),
            i <= a@.len(),
            forall|j: int| 0 <= j < i ==> a@[j] == b@[j],
        decreases a@.len() - i,
    {
        if a[i] != b[i] {
            return false;
        }
        i += 1;
    }
    assert(a@ =~= b@);
    true
}

/// Exact equality of two strings.
pub fn str_eq(a: &str, b: &str) -> (r: bool)
    ensures
        r == (a@ == b@),
{
    let r = bytes_eq(a.as_bytes(), b.as_bytes());
    proof {
        if r {
            lemma_utf8_injective(a@, b@);
        }
    }
    r
}

/// Exact equality of two optional strings.
pub fn opt_str_eq(a: &Option<String>, b: &Option<String>) -> (r: bool)
    ensures
        r == match (*a, *b) {
            (Some(x), Some(y)) => x@ == y@,
            (None, None) => true,
            _ => false,
        },
{
    match (a, b) {
        (Some(x), Some(y)) => str_eq(x.as_str(), y.as_str()),
        (None, None) => true,
        _ => false,
    }
}

pub fn to_lower_byte(b: u8) -> (r: u8)
    ensures
        r == lower_byte(b),
{
    if 0x41 <= b && b <= 0x5a {
        b + 0x20
    } else {
        b
    }
}

/// Equality of two names up to the case of ASCII letters.
pub fn eq_ignore_case(a: &str, b: &str) -> (r: bool)
    ensures
        r == same_name(a@, b@),
{
    let x = a.as_bytes();
    let y = b.as_bytes();
    assert(x@ == encode_utf8(a@));
    assert(y@ == encode_utf8(b@));
    if x.len() != y.len() {
        assert(fold_case(x@).len() != fold_case(y@).len());
        return false;
    }
    let mut i: usize = 0;
    while i < x.len()
        invariant
            x@ == encode_utf8(a@),
            y@ == encode_utf8(b@),
            x@.len() == y@.len(),
            i <= x@.len(),
            forall|j: int| 0 <= j < i ==> lower_byte(x@[j]) == lower_byte(y@[j]),
        decreases x@.len() - i,
    {
        if to_lower_byte(x[i]) != to_lower_byte(y[i]) {
            assert(fold_case(x@)[i as int] == lower_byte(x@[i as int]));
            assert(fold_case(y@)[i as int] == lower_byte(y@[i as int]));
            return false;
        }
        i += 1;
    }
    assert(fold_case(x@) =~= fold_case(y@));
    true
}

/// Whether `a` comes strictly before `b` in the order on names.
pub fn str_lt(a: &str, b: &str) -> (r: bool)
    ensures
        r == name_lt(a@, b@),
{
    let x = a.as_bytes();
    let y = b.as_bytes();
    let mut i: usize = 0;
    while i < x.len() && i < y.len()
        invariant
            x@ == encode_utf8(a@),
            y@ == encode_utf8(b@),
            i <= x@.len(),
            i <= y@.len(),
            forall|j: int| 0 <= j < i ==> x@[j] == y@[j],
        decreases x@.len() - i,
    {
        if x[i] != y[i] {
            proof {
                lemma_lex_lt_common_prefix(x@, y@, i as int);
                assert(x@.skip(i as int)[0] == x@[i as int]);
                assert(y@.skip(i as int)[0] == y@[i as int]);
            }
            return x[i] < y[i];
        }
        i += 1;
    }
    proof {
        lemma_lex_lt_common_prefix(x@, y@, i as int);
        assert(x@.skip(i as int).len() == x@.len() - i);
        assert(y@.skip(i as int).len() == y@.len() - i);
    }
    i < y.len()
}

/// Whether every character of `s` is printable ASCII.
pub fn is_printable_ascii(s: &str) -> (r: bool)
    ensures
        r == printable_ascii(s@),
{
    if !s.is_ascii() {
        proof {
            let i = choose|i: int| 0 <= i < s@.len() && !('\0' <= #[trigger] s@[i] <= '\u{7f}');
            assert(!(' ' <= s@[i] <= '~'));
        }
        return false;
    }
    let bytes = s.as_bytes();
    proof {
        vstd::string::is_ascii_spec_bytes(s);
    }
    let mut i: usize = 0;
    while i < bytes.len()
        invariant
            i <= bytes@.len(),
            bytes@.len() == s@.len(),
            vstd::string::is_ascii(s),
            forall|j: int| 0 <= j < bytes@.len() ==> bytes@[j] == s@[j] as u8,
            forall|j: int| 0 <= j < i ==> ' ' <= #[trigger] s@[j] <= '~',
        decreases bytes@.len() - i,
    {
        let b = bytes[i];
        assert('\0' <= s@[i as int] <= '\u{7f}');
        if b < 0x20 || b > 0x7e {
            assert(!(' ' <= s@[i as int] <= '~'));
            return false;
        }
        i += 1;
    }
    true
}

/// What is left of a text without the white space at its beginning is
/// empty exactly if the text is blank, and else begins with a character
/// that is no white space.
pub proof fn lemma_without_leading_space(s: Seq<char>)
    ensures
        without_leading_space(s).len() == 0 <==> blank(s),
        without_leading_space(s).len() > 0 ==> !white_space(without_leading_space(s)[0]),
    decreases s.len(),
{
    if s.len() > 0 && white_space(s[0]) {
        let rest = s.skip(1);
        lemma_without_leading_space(rest);
        if blank(rest) {
            assert forall|i: int| 0 <= i < s.len() implies white_space(#[trigger] s[i]) by {
                if i > 0 {
                    assert(s[i] == rest[i - 1]);
                }
            }
        }
        if blank(s) {
            assert forall|i: int| 0 <= i < rest.len() implies white_space(#[trigger] rest[i]) by {
                assert(rest[i] == s[i + 1]);
            }
        }
    } else if s.len() > 0 {
        assert(!white_space(s[0]));
    }
}

/// A text that begins with a character that is no white space keeps that
/// character when the white space at its end is taken off.
pub proof fn lemma_without_trailing_space(s: Seq<char>)
    requires
        s.len() > 0,
        !white_space(s[0]),
    ensures
        without_trailing_space(s).len() > 0,
    decreases s.len(),
{
    if white_space(s.last()) {
        assert(s.len() > 1);
        assert(s.drop_last()[0] == s[0]);
        lemma_without_trailing_space(s.drop_last());
    }
}

/// Nothing is left of a text after trimming exactly if the text is blank.
pub proof fn lemma_trimmed_blank(s: Seq<char>)
    ensures
        trimmed(s).len() == 0 <==> blank(s),
{
    lemma_without_leading_space(s);
    if without_leading_space(s).len() > 0 {
        lemma_without_trailing_space(without_leading_space(s));
    }
}

/// Whether a character is white space.
pub fn is_white_space(c: char) -> (r: bool)
    ensures
        r == white_space(c),
{
    let x = c as u32;
    (0x09 <= x && x <= 0x0d) || x == 0x20 || x == 0x85 || x == 0xa0 || x == 0x1680 || (0x2000
        <= x && x <= 0x200a) || x == 0x2028 || x == 0x2029 || x == 0x202f || x == 0x205f || x
        == 0x3000
}

/// The text of `s` without the white space at its beginning and at its
/// end.
pub fn trim(s: &str) -> (r: &str)
    ensures
        r@ == trimmed(s@),
{
    let n = s.unicode_len();
    let mut start: usize = 0;
    let mut scanning = true;
    proof {
        assert(s@.skip(0) =~= s@);
    }
    while scanning && start < n
        invariant
            n == s@.len(),
            start <= n,
            without_leading_space(s@) == without_leading_space(s@.skip(start as int)),
            !scanning ==> start < n && !white_space(s@[start as int]),
        decreases n - start + if scanning { 1nat } else { 0nat },
    {
        let c = s.get_char(start);
        proof {
            assert(s@.skip(start as int)[0] == s@[start as int]);
            assert(s@.skip(start as int).skip(1) =~= s@.skip(start + 1));
        }
        if is_white_space(c) {
            start += 1;
        } else {
            scanning = false;
        }
    }
    let ghost body = s@.skip(start as int);
    proof {
        if start < n {
            assert(body[0] == s@[start as int]);
        }
        assert(without_leading_space(s@) == body);
        assert(body =~= s@.subrange(start as int, n as int));
    }
    let mut end: usize = n;
    let mut scanning_end = true;
    while scanning_end && end > start
        invariant
            n == s@.len(),
            start <= end <= n,
            without_trailing_space(body) == without_trailing_space(
                s@.subrange(start as int, end as int),
            ),
            !scanning_end ==> end > start && !white_space(s@[end - 1]),
        decreases end - start + if scanning_end { 1nat } else { 0nat },
    {
        let c = s.get_char(end - 1);
        proof {
            let part = s@.subrange(start as int, end as int);
            assert(part.last() == s@[end - 1]);
            assert(part.drop_last() =~= s@.subrange(start as int, end - 1));
        }
        if is_white_space(c) {
            end -= 1;
        } else {
            scanning_end = false;
        }
    }
    proof {
        let part = s@.subrange(start as int, end as int);
        if end > start {
            assert(part.last() == s@[end - 1]);
        }
        assert(without_trailing_space(part) == part);
    }
    s.substring_char(start, end)
}

/// The lower-case form of `s`.
///
/// Calls `str::to_lowercase`; the result is the value named [`lowercased`].
#[verifier::external_body]
pub(crate) fn to_lowercase(s: &str) -> (r: String)
    ensures
        r@ == lowercased(s@),
{
    s.to_lowercase()
}

/// The part of `s` before the first `sep`, or all of `s` if there is none.
pub fn prefix_before(s: &str, sep: char) -> (r: &str)
    ensures
        r@ == before_first(s@, sep),
{
    let n = s.unicode_len();
    let mut i: usize = 0;
    proof {
        assert(s@.skip(0) =~= s@);
        assert(s@.take(0) + before_first(s@, sep) =~= before_first(s@, sep));
    }
    while i < n
        invariant
            n == s@.len(),
            i <= n,
            before_first(s@, sep) == s@.take(i as int) + before_first(s@.skip(i as int), sep),
        decreases n - i,
    {
        let c = s.get_char(i);
        let ghost rest = s@.skip(i as int);
        assert(rest[0] == s@[i as int]);
        if c == sep {
            assert(before_first(rest, sep) =~= Seq::<char>::empty());
            assert(s@.take(i as int) + Seq::<char>::empty() =~= s@.take(i as int));
            return s.substring_char(0, i);
        }
        proof {
            assert(rest.skip(1) =~= s@.skip(i + 1));
            assert(s@.take(i as int) + (seq![rest[0]] + before_first(rest.skip(1), sep))
                =~= s@.take(i + 1) + before_first(s@.skip(i + 1), sep));
        }
        i += 1;
    }
    proof {
        assert(s@.skip(n as int) =~= Seq::<char>::empty());
        assert(s@.take(n as int) + Seq::<char>::empty() =~= s@);
        assert(s@.subrange(0, n as int) =~= s@);
    }
    s.substring_char(0, n)
}

/// The concatenation of two strings.
pub fn concat_str(a: &str, b: &str) -> (r: String)
    ensures
        r@ == a@ + b@,
{
    let mut s = a.to_string();
    s.append(b);
    s
}

/// The character of a decimal digit.
pub open spec fn digit_char(d: nat) -> char {
    if d == 0 {
        '0'
    } else if d == 1 {
        '1'
    } else if d == 2 {
        '2'
    } else if d == 3 {
        '3'
    } else if d == 4 {
        '4'
    } else if d == 5 {
        '5'
    } else if d == 6 {
        '6'
    } else if d == 7 {
        '7'
    } else if d == 8 {
        '8'
    } else {
        '9'
    }
}

/// A natural number written in decimal, without leading zeros.
pub open spec fn decimal_text(n: nat) -> Seq<char>
    decreases n,
{
    if n < 10 {
        seq![digit_char(n)]
    } else {
        decimal_text(n / 10).push(digit_char(n % 10))
    }
}

/// A decimal digit as text.
pub fn digit_str(d: usize) -> (s: &'static str)
    requires
        d < 10,
    ensures
        s@ == seq![digit_char(d as nat)],
{
    proof {
        reveal_strlit("0");
        reveal_strlit("1");
        reveal_strlit("2");
        reveal_strlit("3");
        reveal_strlit("4");
        reveal_strlit("5");
        reveal_strlit("6");
        reveal_strlit("7");
        reveal_strlit("8");
        reveal_strlit("9");
    }
    let s = if d == 0 {
        "0"
    } else if d == 1 {
        "1"
    } else if d == 2 {
        "2"
    } else if d == 3 {
        "3"
    } else if d == 4 {
        "4"
    } else if d == 5 {
        "5"
    } else if d == 6 {
        "6"
    } else if d == 7 {
        "7"
    } else if d == 8 {
        "8"
    } else {
        "9"
    };
    assert(s@ =~= seq![digit_char(d as nat)]);
    s
}

/// Writes a number in decimal.
pub fn to_decimal(n: usize) -> (s: String)
    ensures
        s@ == decimal_text(n as nat),
    decreases n,
{
    if n < 10 {
        digit_str(n).to_string()
    } else {
        let mut s = to_decimal(n / 10);
        s.append(digit_str(n % 10));
        s
    }
}

/// The code of a character with ASCII upper-case letters folded to lower
/// case.
pub open spec fn fold_code(c: char) -> u32 {
    if 65 <= c as u32 <= 90 {
        (c as u32 + 32) as u32
    } else {
        c as u32
    }
}

/// Whether `text` matches the search pattern `pattern`: a percent sign
/// stands for any run of characters, an underscore for any one character,
/// and every other character for itself, whatever the case of ASCII
/// letters.
pub open spec fn like(pattern: Seq<char>, text: Seq<char>) -> bool
    decreases pattern.len() + text.len(),
{
    if pattern.len() == 0 {
        text.len() == 0
    } else if pattern[0] == '%' {
        like(pattern.skip(1), text) || (text.len() > 0 && like(pattern, text.skip(1)))
    } else {
        text.len() > 0 && (pattern[0] == '_' || fold_code(pattern[0]) == fold_code(text[0]))
            && like(pattern.skip(1), text.skip(1))
    }
}

/// The pattern that finds the texts in which `query` occurs.
pub open spec fn containing(query: Seq<char>) -> Seq<char> {
    seq!['%'] + query + seq!['%']
}

/// The characters of a string.
pub fn chars_of(s: &str) -> (r: Vec<char>)
    ensures
        r@ == s@,
{
    let n = s.unicode_len();
    let mut out: Vec<char> = Vec::new();
    let mut i: usize = 0;
    while i < n
        invariant
            n == s@.len(),
            i <= n,
            out@ == s@.take(i as int),
        decreases n - i,
    {
        out.push(s.get_char(i));
        proof {
            assert(s@.take(i + 1) =~= s@.take(i as int).push(s@[i as int]));
        }
        i += 1;
    }
    proof {
        assert(s@.take(n as int) =~= s@);
    }
    out
}

/// The code of a character with ASCII upper-case letters folded.
pub fn folded(c: char) -> (r: u32)
    ensures
        r == fold_code(c),
{
    let x = c as u32;
    if 65 <= x && x <= 90 {
        x + 32
    } else {
        x
    }
}

/// Whether the part of `text` from `ti` on matches the part of `pattern`
/// from `pi` on.
pub fn like_from(pattern: &Vec<char>, pi: usize, text: &Vec<char>, ti: usize) -> (r: bool)
    requires
        pi <= pattern@.len(),
        ti <= text@.len(),
    ensures
        r == like(pattern@.skip(pi as int), text@.skip(ti as int)),
    decreases (pattern@.len() - pi) + (text@.len() - ti),
{
    let ghost p = pattern@.skip(pi as int);
    let ghost t = text@.skip(ti as int);
    if pi == pattern.len() {
        return ti == text.len();
    }
    proof {
        assert(p[0] == pattern@[pi as int]);
        assert(p.skip(1) =~= pattern@.skip(pi + 1));
        if ti < text@.len() {
            assert(t[0] == text@[ti as int]);
            assert(t.skip(1) =~= text@.skip(ti + 1));
        }
    }
    if pattern[pi] == '%' {
        if like_from(pattern, pi + 1, text, ti) {
            return true;
        }
        ti < text.len() && like_from(pattern, pi, text, ti + 1)
    } else {
        ti < text.len() && (pattern[pi] == '_' || folded(pattern[pi]) == folded(text[ti]))
            && like_from(pattern, pi + 1, text, ti + 1)
    }
}

/// The pattern that finds the texts in which `query` occurs.
pub fn pattern_containing(query: &str) -> (r: Vec<char>)
    ensures
        r@ == containing(query@),
{
    let mut out: Vec<char> = Vec::new();
    out.push('%');
    let q = chars_of(query);
    let mut i: usize = 0;
    while i < q.len()
        invariant
            i <= q@.len(),
            out@ == seq!['%'] + q@.take(i as int),
        decreases q@.len() - i,
    {
        out.push(q[i]);
        proof {
            assert(q@.take(i + 1) =~= q@.take(i as int).push(q@[i as int]));
        }
        i += 1;
    }
    out.push('%');
    proof {
        assert(q@.take(q@.len() as int) =~= q@);
        assert(out@ =~= containing(query@));
    }
    out
}

/// Whether `text` matches the search pattern `pattern`.
pub fn matches_pattern(pattern: &Vec<char>, text: &str) -> (r: bool)
    ensures
        r == like(pattern@, text@),
{
    let t = chars_of(text);
    proof {
        assert(pattern@.skip(0) =~= pattern@);
        assert(t@.skip(0) =~= t@);
    }
    like_from(pattern, 0, &t, 0)
}

} // verus!
