//! Parsing of the 64-bit object identifiers (UIDs) that the command line takes
//! as hexadecimal text, such as `0x0000_0009_0001_0001`.
use crate::text::{
    all_whitespace, chars_of, decimal, decimal_string, law_decimal_injective, law_prefix_cancel, is_unicode_whitespace, law_trim_ignores_surrounding_whitespace,
    lemma_utf8_len_is_encoded_len, lemma_utf8_len_subrange, trim, trim_chars, utf8_len,
    utf8_len_exec,
};
use vstd::prelude::*;
use vstd::string::StringSliceAdditionalSpecFns;

verus! {

/// A 64-bit TCG object identifier.
#[derive(Clone, Copy, Debug, PartialEq, Eq, Structural)]
pub struct UID {
    pub value: u64,
}

impl UID {
    /// The UID with the given numeric value.
    pub fn new(value: u64) -> (r: Self)
        ensures
            r.value == value,
    {
        UID { value }
    }

    /// The numeric value of the UID.
    pub fn value(&self) -> (r: u64)
        ensures
            r == self.value,
    {
        self.value
    }
}

/// Why a text is not a UID.
#[derive(Clone, Copy, Debug, PartialEq, Eq, Structural)]
pub enum UidError {
    /// After trimming, removing `_` and the `0x` prefixes, the text does not
    /// have 16 bytes; the payload is the byte count it has.
    InvalidLength(usize),
    /// The 16 remaining bytes are not a hexadecimal number.
    InvalidHex,
}

/// The message that the tool reports for a UID error.
pub open spec fn uid_error_message(e: UidError) -> Seq<char> {
    match e {
        UidError::InvalidLength(got) => "Invalid UID length: expected 16 hex digits, got "@
            + decimal(got as nat),
        UidError::InvalidHex => "Failed to parse UID hex string"@,
    }
}

/// The cause under the message: for text that is not hexadecimal, what
/// `u64::from_str_radix` reports for an invalid digit (with 16 bytes the text
/// is never empty and never too large, so an invalid digit is the only way it
/// fails); a wrong length has no further cause.
pub open spec fn uid_error_cause(e: UidError) -> Option<Seq<char>> {
    match e {
        UidError::InvalidLength(_) => None,
        UidError::InvalidHex => Some("invalid digit found in string"@),
    }
}

/// Law: a wrong-length message ends in the byte count, so different counts
/// give different messages, and neither kind of message is the other's.
pub proof fn law_uid_error_message(a: usize, b: usize)
    ensures
        uid_error_message(UidError::InvalidLength(a)) == uid_error_message(
            UidError::InvalidLength(b),
        ) <==> a == b,
        uid_error_message(UidError::InvalidLength(a)) != uid_error_message(UidError::InvalidHex),
        uid_error_cause(UidError::InvalidLength(a)) is None,
        uid_error_cause(UidError::InvalidHex) is Some,
{
    law_prefix_cancel(
        "Invalid UID length: expected 16 hex digits, got "@,
        decimal(a as nat),
        decimal(b as nat),
    );
    law_decimal_injective(a as nat, b as nat);
    reveal_strlit("Invalid UID length: expected 16 hex digits, got ");
    reveal_strlit("Failed to parse UID hex string");
    assert(uid_error_message(UidError::InvalidLength(a))[0] == 'I');
    assert(uid_error_message(UidError::InvalidHex)[0] == 'F');
}

impl UidError {
    /// The message that the tool reports for this error.
    pub fn message(&self) -> (r: String)
        ensures
            r@ == uid_error_message(*self),
    {
        match self {
            UidError::InvalidLength(got) => {
                let mut m = String::from_str("Invalid UID length: expected 16 hex digits, got ");
                let n = decimal_string(*got as u64);
                m.append(n.as_str());
                m
            },
            UidError::InvalidHex => String::from_str("Failed to parse UID hex string"),
        }
    }

    /// The cause under the message, if there is one.
    pub fn cause(&self) -> (r: Option<&'static str>)
        ensures
            match r {
                Some(c) => uid_error_cause(*self) == Some(c@),
                None => uid_error_cause(*self) is None,
            },
    {
        match self {
            UidError::InvalidLength(_) => None,
            UidError::InvalidHex => Some("invalid digit found in string"),
        }
    }
}

// ---------------------------------------------------------------------------
// Specification
// ---------------------------------------------------------------------------
/// `s` with every `_` removed.
pub open spec fn remove_underscores(s: Seq<char>) -> Seq<char>
    decreases s.len(),
{
    if s.len() == 0 {
        s
    } else if s.last() == '_' {
        remove_underscores(s.drop_last())
    } else {
        remove_underscores(s.drop_last()).push(s.last())
    }
}

/// `s` with every leading `0x` removed, however often it repeats.
pub open spec fn strip_hex_prefixes(s: Seq<char>) -> Seq<char>
    decreases s.len(),
{
    if s.len() >= 2 && s[0] == '0' && s[1] == 'x' {
        strip_hex_prefixes(s.skip(2))
    } else {
        s
    }
}

/// The digits that remain of a UID text: trimmed, without `_`, without the
/// leading `0x` prefixes.
pub open spec fn uid_digits(s: Seq<char>) -> Seq<char> {
    strip_hex_prefixes(remove_underscores(trim(s)))
}

/// `0`-`9`, `a`-`f` and `A`-`F`.
pub open spec fn is_hex_digit(c: char) -> bool {
    ('0' <= c && c <= '9') || ('a' <= c && c <= 'f') || ('A' <= c && c <= 'F')
}

/// The value of a hexadecimal digit.
pub open spec fn hex_digit_value(c: char) -> nat {
    if '0' <= c && c <= '9' {
        (c as u32 - '0' as u32) as nat
    } else if 'a' <= c && c <= 'f' {
        (c as u32 - 'a' as u32 + 10) as nat
    } else {
        (c as u32 - 'A' as u32 + 10) as nat
    }
}

/// Every character of `s` is a hexadecimal digit.
pub open spec fn all_hex(s: Seq<char>) -> bool {
    forall|i: int| 0 <= i < s.len() ==> #[trigger] is_hex_digit(s[i])
}

/// The value of the hexadecimal numeral `s` (most significant digit first).
pub open spec fn hex_value(s: Seq<char>) -> nat
    decreases s.len(),
{
    if s.len() == 0 {
        0
    } else {
        hex_value(s.drop_last()) * 16 + hex_digit_value(s.last())
    }
}

/// What `u64::from_str_radix(s, 16)` accepts: an optional `+`, then one or
/// more hexadecimal digits whose value fits in 64 bits.
pub open spec fn parse_hex_u64(s: Seq<char>) -> Option<u64> {
    let body = if s.len() > 0 && s[0] == '+' {
        s.drop_first()
    } else {
        s
    };
    if body.len() > 0 && all_hex(body) && hex_value(body) <= u64::MAX {
        Some(hex_value(body) as u64)
    } else {
        None
    }
}

/// The result of parsing `s` as a UID: the remaining digits must take
/// exactly 16 bytes and form a hexadecimal number.
pub open spec fn spec_parse_uid(s: Seq<char>) -> Result<UID, UidError> {
    let d = uid_digits(s);
    if utf8_len(d) != 16 {
        Err(UidError::InvalidLength(utf8_len(d) as usize))
    } else {
        match parse_hex_u64(d) {
            Some(v) => Ok(UID { value: v }),
            None => Err(UidError::InvalidHex),
        }
    }
}

// ---------------------------------------------------------------------------
// Implementation
// ---------------------------------------------------------------------------
/// Removes every `_`.
pub fn remove_underscores_chars(s: &Vec<char>) -> (r: Vec<char>)
    ensures
        r@ == remove_underscores(s@),
        utf8_len(r@) <= utf8_len(s@),
{
    let n = s.len();
    let mut r: Vec<char> = Vec::new();
    let mut i: usize = 0;
    while i < n
        invariant
            n == s@.len(),
            i <= n,
            r@ == remove_underscores(s@.take(i as int)),
            utf8_len(r@) <= utf8_len(s@.take(i as int)),
        decreases n - i,
    {
        assert(s@.take(i + 1).drop_last() =~= s@.take(i as int));
        if s[i] != '_' {
            r.push(s[i]);
            assert(r@.drop_last() =~= remove_underscores(s@.take(i as int)));
        }
        i = i + 1;
    }
    assert(s@.take(n as int) =~= s@);
    r
}

/// Removes every leading `0x`.
pub fn strip_hex_prefixes_chars(s: &Vec<char>) -> (r: Vec<char>)
    ensures
        r@ == strip_hex_prefixes(s@),
        utf8_len(r@) <= utf8_len(s@),
{
    let n = s.len();
    let mut i: usize = 0;
    assert(s@.skip(0) =~= s@);
    while n - i >= 2 && s[i] == '0' && s[i + 1] == 'x'
        invariant
            n == s@.len(),
            i <= n,
            strip_hex_prefixes(s@) == strip_hex_prefixes(s@.skip(i as int)),
        decreases n - i,
    {
        assert(s@.skip(i as int).skip(2) =~= s@.skip(i + 2));
        i = i + 2;
    }
    let mut r: Vec<char> = Vec::new();
    let mut k: usize = i;
    while k < n
        invariant
            n == s@.len(),
            i <= k <= n,
            r@ == s@.subrange(i as int, k as int),
        decreases n - k,
    {
        r.push(s[k]);
        k = k + 1;
    }
    proof {
        assert(r@ =~= s@.skip(i as int));
        lemma_utf8_len_subrange(s@, i as int, n as int);
    }
    r
}

/// Executable form of [`is_hex_digit`] and [`hex_digit_value`].
pub fn hex_digit(c: char) -> (r: Option<u64>)
    ensures
        r is Some <==> is_hex_digit(c),
        r matches Some(v) ==> v == hex_digit_value(c) && v < 16,
{
    if '0' <= c && c <= '9' {
        Some((c as u32 - '0' as u32) as u64)
    } else if 'a' <= c && c <= 'f' {
        Some((c as u32 - 'a' as u32 + 10) as u64)
    } else if 'A' <= c && c <= 'F' {
        Some((c as u32 - 'A' as u32 + 10) as u64)
    } else {
        None
    }
}

/// A longer prefix of a hexadecimal numeral never has a smaller value.
pub proof fn lemma_hex_value_prefix(s: Seq<char>, i: int, j: int)
    requires
        0 <= i <= j <= s.len(),
    ensures
        hex_value(s.take(i)) <= hex_value(s.take(j)),
    decreases j - i,
{
    if i < j {
        lemma_hex_value_prefix(s, i, j - 1);
        assert(s.take(j).drop_last() =~= s.take(j - 1));
    }
}

/// Parses a hexadecimal number as `u64::from_str_radix(s, 16)` does.
pub fn parse_hex_u64_chars(s: &Vec<char>) -> (r: Option<u64>)
    ensures
        r == parse_hex_u64(s@),
{
    let n = s.len();
    let start: usize = if n > 0 && s[0] == '+' { 1 } else { 0 };
    let ghost body = if s@.len() > 0 && s@[0] == '+' { s@.drop_first() } else { s@ };
    assert(body =~= s@.skip(start as int));
    if start == n {
        return None;
    }
    let mut value: u64 = 0;
    let mut i: usize = start;
    while i < n
        invariant
            n == s@.len(),
            start <= i <= n,
            body == s@.skip(start as int),
            body == (if s@.len() > 0 && s@[0] == '+' { s@.drop_first() } else { s@ }),
            all_hex(body.take(i - start)),
            value == hex_value(body.take(i - start)),
        decreases n - i,
    {
        let ghost k = i - start;
        assert(body.take(k + 1).drop_last() =~= body.take(k));
        match hex_digit(s[i]) {
            None => {
                assert(!all_hex(body)) by {
                    assert(body[k] == s@[i as int]);
                }
                return None;
            },
            Some(d) => {
                if value > 0x0FFF_FFFF_FFFF_FFFF {
                    proof {
                        lemma_hex_value_prefix(body, k + 1, body.len() as int);
                        assert(body.take(body.len() as int) =~= body);
                        assert(body[k] == s@[i as int]);
                    }
                    return None;
                }
                value = value * 16 + d;
                assert(body[k] == s@[i as int]);
                assert(all_hex(body.take(k + 1))) by {
                    assert forall|m: int| 0 <= m < k + 1 implies #[trigger] is_hex_digit(
                        body.take(k + 1)[m],
                    ) by {
                        if m < k {
                            assert(body.take(k + 1)[m] == body.take(k)[m]);
                        }
                    }
                }
                i = i + 1;
            },
        }
    }
    assert(body.take(n - start) =~= body);
    Some(value)
}

/// Parses a UID given as hexadecimal text.
///
/// Surrounding whitespace, every `_` and every leading `0x` are removed; what
/// remains must be 16 bytes long and a hexadecimal number (an optional `+`
/// sign is accepted, as `u64::from_str_radix` accepts it).
pub fn parse_uid(s: &str) -> (r: Result<UID, UidError>)
    requires
        s.spec_bytes().len() <= usize::MAX,
    ensures
        r == spec_parse_uid(s@),
{
    proof {
        lemma_utf8_len_is_encoded_len(s@);
    }
    let chars = chars_of(s);
    let trimmed = trim_chars(&chars);
    let plain = remove_underscores_chars(&trimmed);
    let digits = strip_hex_prefixes_chars(&plain);
    let len = utf8_len_exec(&digits);
    if len != 16 {
        return Err(UidError::InvalidLength(len));
    }
    match parse_hex_u64_chars(&digits) {
        Some(v) => Ok(UID::new(v)),
        None => Err(UidError::InvalidHex),
    }
}



// ---------------------------------------------------------------------------
// UID arguments of the commands
// ---------------------------------------------------------------------------
/// What a UID argument of a command must identify.
#[derive(Clone, Copy, Debug, PartialEq, Eq, Structural)]
pub enum UidRole {
    /// An authority (a user or an admin).
    User,
    /// A locking range.
    Range,
}

/// A UID argument as the user typed it, with what it must identify.
#[derive(Debug)]
pub struct UidArgument {
    pub role: UidRole,
    pub text: String,
}

/// A UID argument as a role and a character sequence.
pub open spec fn uid_argument_view(a: UidArgument) -> (UidRole, Seq<char>) {
    (a.role, a.text@)
}

/// The UID arguments of a command, as roles and character sequences.
pub open spec fn uid_arguments_view(v: Seq<UidArgument>) -> Seq<(UidRole, Seq<char>)> {
    v.map_values(|a: UidArgument| uid_argument_view(a))
}

/// A UID argument with the given role and a copy of the given text.
pub fn uid_argument(role: UidRole, text: &String) -> (r: UidArgument)
    ensures
        r.role == role,
        r.text@ == text@,
{
    UidArgument { role, text: text.clone() }
}

// ---------------------------------------------------------------------------
// Laws
// ---------------------------------------------------------------------------
/// The hexadecimal digit for `d < 16`, in upper or lower case.
pub open spec fn hex_char(d: nat, upper: bool) -> char {
    if d < 10 {
        ((d + '0' as u32) as u32) as char
    } else if upper {
        ((d - 10 + 'A' as u32) as u32) as char
    } else {
        ((d - 10 + 'a' as u32) as u32) as char
    }
}

/// `v` written with exactly `n` hexadecimal digits of the given case (the
/// value is taken modulo 16^n).
pub open spec fn hex_digits(v: nat, n: nat, upper: bool) -> Seq<char>
    decreases n,
{
    if n == 0 {
        Seq::empty()
    } else {
        hex_digits(v / 16, (n - 1) as nat, upper).push(hex_char(v % 16, upper))
    }
}

/// The 16 hexadecimal digits of `v` in four groups of four, separated by
/// `_`, as in `0000_0009_0001_0001`.
pub open spec fn grouped_hex_digits(v: nat, upper: bool) -> Seq<char> {
    let h = hex_digits(v, 16, upper);
    h.subrange(0, 4) + seq!['_'] + h.subrange(4, 8) + seq!['_'] + h.subrange(8, 12) + seq!['_']
        + h.subrange(12, 16)
}

/// 16 to the power `n`.
pub open spec fn pow16(n: nat) -> nat
    decreases n,
{
    if n == 0 {
        1
    } else {
        16 * pow16((n - 1) as nat)
    }
}

/// No character of `s` is whitespace.
pub open spec fn no_whitespace(s: Seq<char>) -> bool {
    forall|i: int| 0 <= i < s.len() ==> !is_unicode_whitespace(#[trigger] s[i])
}

/// A sequence of ASCII characters that are hexadecimal digits.
spec fn plain_hex(s: Seq<char>) -> bool {
    forall|i: int| 0 <= i < s.len() ==> is_hex_digit(#[trigger] s[i]) && (s[i] as u32) < 0x80
}

proof fn lemma_hex_char(d: nat, upper: bool)
    requires
        d < 16,
    ensures
        is_hex_digit(hex_char(d, upper)),
        hex_digit_value(hex_char(d, upper)) == d,
        (hex_char(d, upper) as u32) < 0x80,
        hex_char(d, upper) != 'x',
        hex_char(d, upper) != '_',
        hex_char(d, upper) != '+',
{
}

proof fn lemma_hex_digits(v: nat, n: nat, upper: bool)
    requires
        v < pow16(n),
    ensures
        hex_digits(v, n, upper).len() == n,
        plain_hex(hex_digits(v, n, upper)),
        hex_value(hex_digits(v, n, upper)) == v,
    decreases n,
{
    if n > 0 {
        let m = (n - 1) as nat;
        assert(v / 16 < pow16(m)) by (nonlinear_arith)
            requires
                v < 16 * pow16(m),
        ;
        lemma_hex_digits(v / 16, m, upper);
        lemma_hex_char(v % 16, upper);
        let h = hex_digits(v, n, upper);
        assert(h.drop_last() =~= hex_digits(v / 16, m, upper));
        assert(v == (v / 16) * 16 + v % 16) by (nonlinear_arith);
    }
}

proof fn lemma_plain_hex_no_underscore(s: Seq<char>)
    requires
        plain_hex(s),
    ensures
        remove_underscores(s) == s,
        utf8_len(s) == s.len(),
        no_whitespace(s),
    decreases s.len(),
{
    if s.len() > 0 {
        assert(plain_hex(s.drop_last())) by {
            assert forall|i: int| 0 <= i < s.len() - 1 implies is_hex_digit(
                #[trigger] s.drop_last()[i],
            ) && (s.drop_last()[i] as u32) < 0x80 by {
                assert(s.drop_last()[i] == s[i]);
            }
        }
        lemma_plain_hex_no_underscore(s.drop_last());
        assert(is_hex_digit(s[s.len() - 1]));
        assert(s.drop_last().push(s.last()) =~= s);
        assert forall|i: int| 0 <= i < s.len() implies !is_unicode_whitespace(#[trigger] s[i]) by {
            assert(is_hex_digit(s[i]));
        }
    }
}

proof fn lemma_plain_hex_subrange(s: Seq<char>, i: int, j: int)
    requires
        plain_hex(s),
        0 <= i <= j <= s.len(),
    ensures
        plain_hex(s.subrange(i, j)),
{
    assert forall|k: int| 0 <= k < j - i implies is_hex_digit(#[trigger] s.subrange(i, j)[k])
        && (s.subrange(i, j)[k] as u32) < 0x80 by {
        assert(s.subrange(i, j)[k] == s[i + k]);
    }
}

/// Removing underscores works piece by piece.
pub proof fn lemma_remove_underscores_concat(a: Seq<char>, b: Seq<char>)
    ensures
        remove_underscores(a + b) == remove_underscores(a) + remove_underscores(b),
    decreases b.len(),
{
    if b.len() == 0 {
        assert(a + b =~= a);
        assert(remove_underscores(a) + remove_underscores(b) =~= remove_underscores(a));
    } else {
        assert((a + b).drop_last() =~= a + b.drop_last());
        assert((a + b).last() == b.last());
        lemma_remove_underscores_concat(a, b.drop_last());
        if b.last() != '_' {
            assert(remove_underscores(a) + remove_underscores(b.drop_last()).push(b.last())
                =~= (remove_underscores(a) + remove_underscores(b.drop_last())).push(b.last()));
        }
    }
}

proof fn lemma_remove_single_underscore()
    ensures
        remove_underscores(seq!['_']) == Seq::<char>::empty(),
{
    assert(seq!['_'].drop_last() =~= Seq::<char>::empty());
    assert(remove_underscores(Seq::<char>::empty()) == Seq::<char>::empty());
}

proof fn lemma_no_whitespace_concat(a: Seq<char>, b: Seq<char>)
    requires
        no_whitespace(a),
        no_whitespace(b),
    ensures
        no_whitespace(a + b),
{
    assert forall|i: int| 0 <= i < (a + b).len() implies !is_unicode_whitespace(
        #[trigger] (a + b)[i],
    ) by {
        if i < a.len() {
            assert((a + b)[i] == a[i]);
        } else {
            assert((a + b)[i] == b[i - a.len()]);
        }
    }
}

proof fn lemma_trim_no_whitespace(s: Seq<char>)
    requires
        no_whitespace(s),
    ensures
        trim(s) == s,
{
    if s.len() > 0 {
        assert(!is_unicode_whitespace(s[0]));
        assert(!is_unicode_whitespace(s[s.len() - 1]));
    }
}

proof fn lemma_pow16_16()
    ensures
        pow16(16) == 0x1_0000_0000_0000_0000,
{
    reveal_with_fuel(pow16, 17);
}

/// Law: in a UID text without whitespace, underscores do not matter: two
/// such texts that are equal once their `_` are removed parse alike.
pub proof fn law_parse_uid_ignores_underscores(s: Seq<char>, t: Seq<char>)
    requires
        no_whitespace(s),
        no_whitespace(t),
        remove_underscores(s) == remove_underscores(t),
    ensures
        spec_parse_uid(s) == spec_parse_uid(t),
{
    lemma_trim_no_whitespace(s);
    lemma_trim_no_whitespace(t);
}

/// Law: inserting `_` anywhere into a UID text without whitespace leaves
/// the result unchanged (repeated, this covers any number of insertions).
pub proof fn law_parse_uid_underscore_insertion(s: Seq<char>, i: int)
    requires
        no_whitespace(s),
        0 <= i <= s.len(),
    ensures
        spec_parse_uid(s.take(i) + seq!['_'] + s.skip(i)) == spec_parse_uid(s),
{
    let t = s.take(i) + seq!['_'] + s.skip(i);
    assert(s =~= s.take(i) + s.skip(i));
    lemma_remove_underscores_concat(s.take(i), s.skip(i));
    lemma_remove_underscores_concat(s.take(i), seq!['_']);
    lemma_remove_underscores_concat(s.take(i) + seq!['_'], s.skip(i));
    lemma_remove_single_underscore();
    assert(remove_underscores(s.take(i)) + Seq::<char>::empty() =~= remove_underscores(
        s.take(i),
    ));
    assert(no_whitespace(t)) by {
        assert forall|k: int| 0 <= k < t.len() implies !is_unicode_whitespace(#[trigger] t[k]) by {
            if k < i {
                assert(t[k] == s[k]);
            } else if k > i {
                assert(t[k] == s[k - 1]);
            }
        }
    }
    law_parse_uid_ignores_underscores(t, s);
}

/// Law: in a UID text without whitespace, a leading `0x` changes nothing,
/// however many times it repeats.
pub proof fn law_parse_uid_ignores_hex_prefix(s: Seq<char>)
    requires
        no_whitespace(s),
    ensures
        spec_parse_uid(seq!['0', 'x'] + s) == spec_parse_uid(s),
{
    let p = seq!['0', 'x'];
    assert(no_whitespace(p)) by {
        assert forall|i: int| 0 <= i < p.len() implies !is_unicode_whitespace(#[trigger] p[i]) by {
        }
    }
    lemma_no_whitespace_concat(p, s);
    lemma_trim_no_whitespace(p + s);
    lemma_trim_no_whitespace(s);
    assert(remove_underscores(p) == p) by {
        reveal_with_fuel(remove_underscores, 3);
        assert(p.drop_last() =~= seq!['0']);
        assert(p.drop_last().drop_last() =~= Seq::<char>::empty());
        assert(seq!['0'] =~= Seq::<char>::empty().push('0'));
        assert(p =~= seq!['0'].push('x'));
    }
    lemma_remove_underscores_concat(p, s);
    let ps = p + remove_underscores(s);
    assert(ps.skip(2) =~= remove_underscores(s));
}

/// Law: hexadecimal parsing accepts one leading `+` before a non-empty
/// numeral and rejects a leading `-`.
pub proof fn law_parse_hex_u64_signs(d: Seq<char>)
    requires
        d.len() == 0 || d[0] != '+',
    ensures
        parse_hex_u64(seq!['+'] + d) == (if d.len() > 0 {
            parse_hex_u64(d)
        } else {
            None
        }),
        parse_hex_u64(seq!['-'] + d) is None,
{
    assert((seq!['+'] + d).drop_first() =~= d);
    assert(!is_hex_digit((seq!['-'] + d)[0]));
}

/// Law: every 64-bit value, written as 16 hexadecimal digits in either case,
/// plain or in `_`-separated groups of four, with or without a leading `0x`,
/// parses back to the same UID.
pub proof fn law_parse_uid_round_trip(v: u64, upper: bool)
    ensures
        spec_parse_uid(hex_digits(v as nat, 16, upper)) == Ok::<UID, UidError>(UID { value: v }),
        spec_parse_uid(seq!['0', 'x'] + hex_digits(v as nat, 16, upper)) == Ok::<UID, UidError>(
            UID { value: v },
        ),
        spec_parse_uid(grouped_hex_digits(v as nat, upper)) == Ok::<UID, UidError>(
            UID { value: v },
        ),
        spec_parse_uid(seq!['0', 'x'] + grouped_hex_digits(v as nat, upper)) == Ok::<
            UID,
            UidError,
        >(UID { value: v }),
{
    lemma_pow16_16();
    let h = hex_digits(v as nat, 16, upper);
    lemma_hex_digits(v as nat, 16, upper);
    lemma_plain_hex_no_underscore(h);
    assert(is_hex_digit(h[0]) && is_hex_digit(h[1]));
    assert(h[1] != 'x' && h[0] != '+');
    assert(all_hex(h)) by {
        assert forall|i: int| 0 <= i < h.len() implies #[trigger] is_hex_digit(h[i]) by {
            assert(is_hex_digit(h[i]));
        }
    }
    // Plain digits.
    lemma_trim_no_whitespace(h);
    assert(strip_hex_prefixes(h) == h);
    assert(uid_digits(h) == h);
    // With the `0x` prefix.
    let p = seq!['0', 'x'];
    let ph = p + h;
    assert(no_whitespace(p)) by {
        assert forall|i: int| 0 <= i < p.len() implies !is_unicode_whitespace(#[trigger] p[i]) by {
        }
    }
    lemma_no_whitespace_concat(p, h);
    lemma_trim_no_whitespace(ph);
    assert(remove_underscores(p) == p) by {
        reveal_with_fuel(remove_underscores, 3);
        assert(p.drop_last() =~= seq!['0']);
        assert(p.drop_last().drop_last() =~= Seq::<char>::empty());
        assert(seq!['0'] =~= Seq::<char>::empty().push('0'));
        assert(p =~= seq!['0'].push('x'));
    }
    lemma_remove_underscores_concat(p, h);
    assert(ph.skip(2) =~= h);
    assert(uid_digits(ph) == h);
    // In groups of four.
    let g = grouped_hex_digits(v as nat, upper);
    let u = seq!['_'];
    let a = h.subrange(0, 4);
    let b = h.subrange(4, 8);
    let c = h.subrange(8, 12);
    let d = h.subrange(12, 16);
    lemma_plain_hex_subrange(h, 0, 4);
    lemma_plain_hex_subrange(h, 4, 8);
    lemma_plain_hex_subrange(h, 8, 12);
    lemma_plain_hex_subrange(h, 12, 16);
    lemma_plain_hex_no_underscore(a);
    lemma_plain_hex_no_underscore(b);
    lemma_plain_hex_no_underscore(c);
    lemma_plain_hex_no_underscore(d);
    lemma_remove_single_underscore();
    assert(no_whitespace(u)) by {
        assert forall|i: int| 0 <= i < u.len() implies !is_unicode_whitespace(#[trigger] u[i]) by {
        }
    }
    lemma_remove_underscores_concat(a, u);
    lemma_remove_underscores_concat(a + u, b);
    lemma_remove_underscores_concat(a + u + b, u);
    lemma_remove_underscores_concat(a + u + b + u, c);
    lemma_remove_underscores_concat(a + u + b + u + c, u);
    lemma_remove_underscores_concat(a + u + b + u + c + u, d);
    lemma_no_whitespace_concat(a, u);
    lemma_no_whitespace_concat(a + u, b);
    lemma_no_whitespace_concat(a + u + b, u);
    lemma_no_whitespace_concat(a + u + b + u, c);
    lemma_no_whitespace_concat(a + u + b + u + c, u);
    lemma_no_whitespace_concat(a + u + b + u + c + u, d);
    assert(g == a + u + b + u + c + u + d);
    assert(remove_underscores(g) =~= h);
    law_parse_uid_ignores_underscores(g, h);
    // In groups of four after `0x`.
    lemma_no_whitespace_concat(p, g);
    lemma_remove_underscores_concat(p, g);
    law_parse_uid_ignores_underscores(p + g, ph);
}

/// Law: whitespace before and after a UID text changes nothing about how it
/// parses.
pub proof fn law_parse_uid_ignores_surrounding_whitespace(
    before: Seq<char>,
    s: Seq<char>,
    after: Seq<char>,
)
    requires
        all_whitespace(before),
        all_whitespace(after),
    ensures
        spec_parse_uid(before + s + after) == spec_parse_uid(s),
{
    law_trim_ignores_surrounding_whitespace(before, s, after);
}

} // verus!
