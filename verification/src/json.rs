//! Transport-side JSON values and their text encoding.
//!
//! The boundary protocol only ever ships scalars (string, boolean, number)
//! and flat objects of scalars, so those are the shapes modeled here. The
//! encoding is specified character by character: `scalar_text`, `obj_text`
//! and friends say exactly which characters a value serializes to, and the
//! executable writers are proved to produce them.
//!
//! A number is carried as its decimal text. A text that does not match the
//! JSON number grammar (for example the rendering of a non-finite float) is
//! rejected at serialization time with [`JsonGenerateError`].

use vstd::prelude::*;
use vstd::string::*;

use crate::text::chars_of;
use crate::text::string_of_chars;

verus! {

/// A scalar JSON value: the only payload leaves the boundary produces.
#[derive(Debug, Clone, PartialEq)]
pub enum JsonScalar {
    /// A JSON string.
    Str(String),
    /// A JSON boolean.
    Bool(bool),
    /// A JSON number, carried as its decimal text.
    Num(String),
}

/// A flat JSON object: name/scalar pairs, serialized in order.
pub type JsonObj = Vec<(String, JsonScalar)>;

/// A payload of the transport envelope: a scalar or a flat object.
#[derive(Debug, Clone, PartialEq)]
pub enum JsonPayload {
    Scalar(JsonScalar),
    Object(JsonObj),
}

/// The JSON text could not be generated.
#[derive(Debug, Clone, PartialEq)]
pub enum JsonGenerateError {
    /// A number's text does not match the JSON number grammar.
    InvalidNumber(String),
}

// ---------------------------------------------------------------------------
// The JSON number grammar.
// ---------------------------------------------------------------------------
/// Decimal digit, by code point.
pub open spec fn is_digit(c: char) -> bool {
    48 <= (c as u32) && (c as u32) <= 57
}

/// Every character of `s` is a decimal digit.
pub open spec fn all_digits(s: Seq<char>) -> bool {
    forall|i: int| 0 <= i < s.len() ==> is_digit(#[trigger] s[i])
}

/// An unsigned integer part: digits, no leading zero unless it is just "0".
pub open spec fn is_uint_text(s: Seq<char>) -> bool {
    &&& s.len() > 0
    &&& all_digits(s)
    &&& (s[0] == '0' ==> s.len() == 1)
}

/// Index of the first `'.'` in `s` at or after `i`, or `s.len()` if none.
pub open spec fn first_dot(s: Seq<char>, i: int) -> int
    decreases s.len() - i,
{
    if i < 0 || i >= s.len() {
        s.len() as int
    } else if s[i] == '.' {
        i
    } else {
        first_dot(s, i + 1)
    }
}

/// The JSON number grammar without an exponent part: an optional minus sign,
/// an integer part, and an optional non-empty fraction. Since the integer
/// part may hold only digits, the separating dot is necessarily the first
/// dot of the text.
pub open spec fn is_json_number(s: Seq<char>) -> bool {
    let body = if s.len() > 0 && s[0] == '-' {
        s.subrange(1, s.len() as int)
    } else {
        s
    };
    let d = first_dot(body, 0);
    if d == body.len() {
        is_uint_text(body)
    } else {
        &&& is_uint_text(body.subrange(0, d))
        &&& d + 1 < body.len()
        &&& all_digits(body.subrange(d + 1, body.len() as int))
    }
}

proof fn lemma_first_dot_at(s: Seq<char>, i: int, d: int)
    requires
        0 <= i <= d < s.len(),
        s[d] == '.',
        forall|k: int| i <= k < d ==> s[k] != '.',
    ensures
        first_dot(s, i) == d,
    decreases d - i,
{
    if i < d {
        lemma_first_dot_at(s, i + 1, d);
    }
}

proof fn lemma_first_dot_none(s: Seq<char>, i: int)
    requires
        0 <= i <= s.len(),
        forall|k: int| i <= k < s.len() ==> s[k] != '.',
    ensures
        first_dot(s, i) == s.len(),
    decreases s.len() - i,
{
    if i < s.len() {
        lemma_first_dot_none(s, i + 1);
    }
}

proof fn lemma_first_dot_props(s: Seq<char>, i: int)
    requires
        0 <= i <= s.len(),
    ensures
        i <= first_dot(s, i) <= s.len(),
        first_dot(s, i) < s.len() ==> s[first_dot(s, i)] == '.',
        forall|k: int| i <= k < first_dot(s, i) ==> s[k] != '.',
    decreases s.len() - i,
{
    if i < s.len() && s[i] != '.' {
        lemma_first_dot_props(s, i + 1);
    }
}

proof fn lemma_dec_of_digits(n: nat)
    ensures
        all_digits(crate::text::dec_of(n)),
        crate::text::dec_of(n).len() >= 1,
        n >= 1 ==> crate::text::dec_of(n)[0] != '0',
        n < 10 ==> crate::text::dec_of(n).len() == 1,
    decreases n,
{
    if n >= 10 {
        lemma_dec_of_digits(n / 10);
    }
}

/// The decimal rendering of a natural number always matches the JSON
/// number grammar.
pub proof fn lemma_dec_of_is_json_number(n: nat)
    ensures
        is_json_number(crate::text::dec_of(n)),
{
    let s = crate::text::dec_of(n);
    lemma_dec_of_digits(n);
    assert(s[0] != '-');
    assert(forall|k: int| 0 <= k < s.len() ==> #[trigger] s[k] != '.');
    lemma_first_dot_none(s, 0);
    assert(is_uint_text(s));
}

fn is_digit_exec(c: char) -> (r: bool)
    ensures
        r == is_digit(c),
{
    let u = c as u32;
    48 <= u && u <= 57
}

/// Whether `cs` matches the JSON number grammar.
pub fn check_json_number(cs: &Vec<char>) -> (r: bool)
    ensures
        r == is_json_number(cs@),
{
    let n = cs.len();
    let ghost body = if cs@.len() > 0 && cs@[0] == '-' {
        cs@.subrange(1, cs@.len() as int)
    } else {
        cs@
    };
    let start: usize = if n > 0 && cs[0] == '-' {
        1
    } else {
        0
    };
    proof {
        assert(body =~= cs@.subrange(start as int, n as int));
    }
    if start >= n {
        return false;
    }
    // scan the integer part
    let mut p: usize = start;
    while p < n && is_digit_exec(cs[p])
        invariant
            start <= p <= n,
            n == cs@.len(),
            forall|k: int| start <= k < p ==> is_digit(#[trigger] cs@[k]),
        decreases n - p,
    {
        p += 1;
    }
    if p == start {
        // empty integer part: the first body character is not a digit
        proof {
            assert(body[0] == cs@[start as int]);
            lemma_first_dot_props(body, 0);
            let d = first_dot(body, 0);
            if 0 < d < body.len() {
                assert(body.subrange(0, d)[0] == body[0]);
                assert(!is_uint_text(body.subrange(0, d)));
            }
        }
        return false;
    }
    if cs[start] == '0' && p - start > 1 {
        // leading zero
        proof {
            assert(forall|k: int| 0 <= k < body.len() ==> body[k] == cs@[k + start]);
            lemma_first_dot_props(body, 0);
            let d = first_dot(body, 0);
            if d < body.len() {
                // digits are not dots, so the first dot lies past the scan
                assert(d >= p - start) by {
                    if d < p - start {
                        assert(is_digit(body[d]));
                    }
                }
                assert(body.subrange(0, d)[0] == '0');
                assert(body.subrange(0, d)[1] == body[1]);
                assert(!is_uint_text(body.subrange(0, d)));
            } else {
                assert(body[0] == '0' && body.len() > 1);
            }
        }
        return false;
    }
    if p == n {
        // pure integer
        proof {
            assert(forall|k: int| 0 <= k < body.len() ==> body[k] == cs@[k + start]);
            lemma_first_dot_none(body, 0);
            assert(is_uint_text(body));
        }
        return true;
    }
    if cs[p] != '.' {
        // an offending character ends the integer part
        proof {
            assert(forall|k: int| 0 <= k < body.len() ==> body[k] == cs@[k + start]);
            lemma_first_dot_props(body, 0);
            let d = first_dot(body, 0);
            if d == body.len() {
                assert(!is_digit(body[p - start]));
                assert(!is_uint_text(body));
            } else {
                // the first dot lies beyond the offending character
                assert(d > p - start) by {
                    if d < p - start {
                        assert(is_digit(body[d]));
                    }
                    assert(body[p - start] != '.');
                }
                assert(!is_digit(body.subrange(0, d)[p - start]));
                assert(!is_uint_text(body.subrange(0, d)));
            }
        }
        return false;
    }
    proof {
        assert(forall|k: int| 0 <= k < body.len() ==> body[k] == cs@[k + start]);
        assert(forall|k: int| 0 <= k < p - start ==> body[k] != '.');
        lemma_first_dot_at(body, 0, p - start);
    }
    if p + 1 >= n {
        // empty fraction
        return false;
    }
    // scan the fraction
    let mut q: usize = p + 1;
    while q < n && is_digit_exec(cs[q])
        invariant
            p + 1 <= q <= n,
            n == cs@.len(),
            forall|k: int| p + 1 <= k < q ==> is_digit(#[trigger] cs@[k]),
        decreases n - q,
    {
        q += 1;
    }
    if q < n {
        // an offending character inside the fraction
        proof {
            let d = (p - start) as int;
            assert(!is_digit(body.subrange(d + 1, body.len() as int)[q - p - 1]));
        }
        return false;
    }
    proof {
        let d = (p - start) as int;
        assert(is_uint_text(body.subrange(0, d))) by {
            assert(forall|k: int| 0 <= k < d ==> #[trigger] body.subrange(0, d)[k] == cs@[k + start]);
        }
        assert(all_digits(body.subrange(d + 1, body.len() as int))) by {
            assert(forall|k: int|
                0 <= k < body.len() - d - 1 ==> #[trigger] body.subrange(d + 1, body.len() as int)[k]
                    == cs@[k + p + 1]);
        }
    }
    true
}

// ---------------------------------------------------------------------------
// String escaping.
// ---------------------------------------------------------------------------
/// Hexadecimal digit character for a value below sixteen.
pub open spec fn hex_digit(d: int) -> char {
    if d < 10 {
        crate::text::dec_digit(d)
    } else if d == 10 {
        'a'
    } else if d == 11 {
        'b'
    } else if d == 12 {
        'c'
    } else if d == 13 {
        'd'
    } else if d == 14 {
        'e'
    } else {
        'f'
    }
}

/// How one character appears inside a JSON string literal.
pub open spec fn escaped_char(c: char) -> Seq<char> {
    if c == '"' {
        seq!['\\', '"']
    } else if c == '\\' {
        seq!['\\', '\\']
    } else if c == '\n' {
        seq!['\\', 'n']
    } else if c == '\r' {
        seq!['\\', 'r']
    } else if c == '\t' {
        seq!['\\', 't']
    } else if (c as u32) < 0x20 {
        seq!['\\', 'u', '0', '0', hex_digit((c as u32) as int / 16), hex_digit((c as u32) as int % 16)]
    } else {
        seq![c]
    }
}

/// The body of a JSON string literal for `s`.
pub open spec fn escape_text(s: Seq<char>) -> Seq<char>
    decreases s.len(),
{
    if s.len() == 0 {
        Seq::empty()
    } else {
        escaped_char(s[0]) + escape_text(s.subrange(1, s.len() as int))
    }
}

/// A complete JSON string literal for `s`, quotes included.
pub open spec fn quoted(s: Seq<char>) -> Seq<char> {
    seq!['"'] + escape_text(s) + seq!['"']
}

proof fn lemma_escape_snoc(s: Seq<char>, c: char)
    ensures
        escape_text(s.push(c)) == escape_text(s) + escaped_char(c),
    decreases s.len(),
{
    let whole = s.push(c);
    if s.len() == 0 {
        assert(whole[0] == c);
        assert(whole.subrange(1, whole.len() as int) =~= Seq::<char>::empty());
        assert(escape_text(Seq::<char>::empty()) =~= Seq::<char>::empty());
        assert(escape_text(s.push(c)) =~= escape_text(s) + escaped_char(c));
    } else {
        assert(whole[0] == s[0]);
        assert(whole.subrange(1, whole.len() as int) =~= s.subrange(1, s.len() as int).push(c));
        lemma_escape_snoc(s.subrange(1, s.len() as int), c);
        assert(escape_text(s.push(c)) =~= escape_text(s) + escaped_char(c));
    }
}

fn hex_digit_exec(d: u32) -> (c: char)
    requires
        d < 16,
    ensures
        c == hex_digit(d as int),
{
    match d {
        0 => '0',
        1 => '1',
        2 => '2',
        3 => '3',
        4 => '4',
        5 => '5',
        6 => '6',
        7 => '7',
        8 => '8',
        9 => '9',
        10 => 'a',
        11 => 'b',
        12 => 'c',
        13 => 'd',
        14 => 'e',
        _ => 'f',
    }
}

fn push_escaped_char(out: &mut Vec<char>, c: char)
    ensures
        final(out)@ == old(out)@ + escaped_char(c),
{
    if c == '"' {
        out.push('\\');
        out.push('"');
    } else if c == '\\' {
        out.push('\\');
        out.push('\\');
    } else if c == '\n' {
        out.push('\\');
        out.push('n');
    } else if c == '\r' {
        out.push('\\');
        out.push('r');
    } else if c == '\t' {
        out.push('\\');
        out.push('t');
    } else {
        let u = c as u32;
        if u < 0x20 {
            out.push('\\');
            out.push('u');
            out.push('0');
            out.push('0');
            out.push(hex_digit_exec(u / 16));
            out.push(hex_digit_exec(u % 16));
        } else {
            out.push(c);
        }
    }
    proof {
        assert(final(out)@ =~= old(out)@ + escaped_char(c));
    }
}

/// Append the characters of `s` unchanged.
pub fn push_chars(out: &mut Vec<char>, s: &str)
    ensures
        final(out)@ == old(out)@ + s@,
{
    let n = s.unicode_len();
    let mut i: usize = 0;
    while i < n
        invariant
            n == s@.len(),
            i <= n,
            out@ == old(out)@ + s@.subrange(0, i as int),
        decreases n - i,
    {
        out.push(s.get_char(i));
        i += 1;
        proof {
            assert(out@ =~= old(out)@ + s@.subrange(0, i as int));
        }
    }
    proof {
        assert(final(out)@ =~= old(out)@ + s@);
    }
}

/// Append the JSON string literal for `s`, quotes and escapes included.
pub fn push_quoted(out: &mut Vec<char>, s: &str)
    ensures
        final(out)@ == old(out)@ + quoted(s@),
{
    out.push('"');
    let n = s.unicode_len();
    let mut i: usize = 0;
    while i < n
        invariant
            n == s@.len(),
            i <= n,
            out@ == old(out)@ + seq!['"'] + escape_text(s@.subrange(0, i as int)),
        decreases n - i,
    {
        push_escaped_char(out, s.get_char(i));
        i += 1;
        proof {
            assert(s@.subrange(0, i as int) =~= s@.subrange(0, i - 1).push(s@[i - 1]));
            lemma_escape_snoc(s@.subrange(0, i - 1), s@[i - 1]);
        }
    }
    out.push('"');
    proof {
        assert(s@.subrange(0, n as int) =~= s@);
        assert(final(out)@ =~= old(out)@ + quoted(s@));
    }
}

// ---------------------------------------------------------------------------
// Serialization of scalars, objects and payloads.
// ---------------------------------------------------------------------------
/// A scalar can be serialized: a number must match the number grammar.
pub open spec fn scalar_wf(s: JsonScalar) -> bool {
    match s {
        JsonScalar::Num(t) => is_json_number(t@),
        _ => true,
    }
}

/// Every scalar of the object can be serialized.
pub open spec fn obj_wf(es: Seq<(String, JsonScalar)>) -> bool {
    forall|i: int| 0 <= i < es.len() ==> scalar_wf((#[trigger] es[i]).1)
}

/// The payload can be serialized.
pub open spec fn payload_wf(p: JsonPayload) -> bool {
    match p {
        JsonPayload::Scalar(s) => scalar_wf(s),
        JsonPayload::Object(es) => obj_wf(es@),
    }
}

/// The characters a scalar serializes to.
pub open spec fn scalar_text(s: JsonScalar) -> Seq<char> {
    match s {
        JsonScalar::Str(t) => quoted(t@),
        JsonScalar::Bool(b) => if b {
            "true"@
        } else {
            "false"@
        },
        JsonScalar::Num(t) => t@,
    }
}

/// The characters one `"name":value` member serializes to.
pub open spec fn entry_text(e: (String, JsonScalar)) -> Seq<char> {
    quoted(e.0@) + seq![':'] + scalar_text(e.1)
}

/// The comma-separated members of an object.
pub open spec fn entries_text(es: Seq<(String, JsonScalar)>) -> Seq<char>
    decreases es.len(),
{
    if es.len() == 0 {
        Seq::empty()
    } else if es.len() == 1 {
        entry_text(es[0])
    } else {
        entry_text(es[0]) + seq![','] + entries_text(es.subrange(1, es.len() as int))
    }
}

/// The characters an object serializes to.
pub open spec fn obj_text(es: Seq<(String, JsonScalar)>) -> Seq<char> {
    seq!['{'] + entries_text(es) + seq!['}']
}

/// The characters a payload serializes to.
pub open spec fn payload_text(p: JsonPayload) -> Seq<char> {
    match p {
        JsonPayload::Scalar(s) => scalar_text(s),
        JsonPayload::Object(es) => obj_text(es@),
    }
}

proof fn lemma_entries_snoc(es: Seq<(String, JsonScalar)>, e: (String, JsonScalar))
    ensures
        entries_text(es.push(e)) == if es.len() == 0 {
            entry_text(e)
        } else {
            entries_text(es) + seq![','] + entry_text(e)
        },
    decreases es.len(),
{
    let whole = es.push(e);
    if es.len() == 0 {
        assert(entries_text(whole) =~= entry_text(e));
    } else {
        assert(whole.subrange(1, whole.len() as int) =~= es.subrange(1, es.len() as int).push(e));
        lemma_entries_snoc(es.subrange(1, es.len() as int), e);
        if es.len() == 1 {
            assert(entries_text(whole) =~= entries_text(es) + seq![','] + entry_text(e));
        } else {
            assert(entries_text(whole) =~= entries_text(es) + seq![','] + entry_text(e));
        }
    }
}

/// Whether the scalar can be serialized; a number is held to the grammar.
pub fn check_scalar(s: &JsonScalar) -> (r: bool)
    ensures
        r == scalar_wf(*s),
{
    match s {
        JsonScalar::Num(t) => {
            let cs = chars_of(t.as_str());
            check_json_number(&cs)
        },
        _ => true,
    }
}

fn push_scalar(out: &mut Vec<char>, s: &JsonScalar)
    requires
        scalar_wf(*s),
    ensures
        final(out)@ == old(out)@ + scalar_text(*s),
{
    match s {
        JsonScalar::Str(t) => push_quoted(out, t.as_str()),
        JsonScalar::Bool(b) => {
            if *b {
                push_chars(out, "true");
            } else {
                push_chars(out, "false");
            }
        },
        JsonScalar::Num(t) => push_chars(out, t.as_str()),
    }
}

/// Append the serialized object, braces included.
pub fn push_obj(out: &mut Vec<char>, es: &JsonObj)
    requires
        obj_wf(es@),
    ensures
        final(out)@ == old(out)@ + obj_text(es@),
{
    out.push('{');
    let n = es.len();
    let mut i: usize = 0;
    while i < n
        invariant
            obj_wf(es@),
            n == es@.len(),
            i <= n,
            out@ == old(out)@ + seq!['{'] + entries_text(es@.subrange(0, i as int)),
        decreases n - i,
    {
        if i > 0 {
            out.push(',');
        }
        let entry = &es[i];
        push_quoted(out, entry.0.as_str());
        out.push(':');
        push_scalar(out, &entry.1);
        i += 1;
        proof {
            assert(es@.subrange(0, i as int) =~= es@.subrange(0, i - 1).push(es@[i - 1]));
            lemma_entries_snoc(es@.subrange(0, i - 1), es@[i - 1]);
            assert(out@ =~= old(out)@ + seq!['{'] + entries_text(es@.subrange(0, i as int)));
        }
    }
    out.push('}');
    proof {
        assert(es@.subrange(0, n as int) =~= es@);
        assert(final(out)@ =~= old(out)@ + obj_text(es@));
    }
}

/// Whether the payload can be serialized, and if not, which number text
/// broke the grammar.
pub fn check_payload(p: &JsonPayload) -> (r: Result<(), JsonGenerateError>)
    ensures
        match r {
            Ok(()) => payload_wf(*p),
            Err(JsonGenerateError::InvalidNumber(_)) => !payload_wf(*p),
        },
{
    match p {
        JsonPayload::Scalar(s) => {
            if check_scalar(s) {
                Ok(())
            } else {
                match s {
                    JsonScalar::Num(t) => Err(JsonGenerateError::InvalidNumber(t.clone())),
                    _ => unreached(),
                }
            }
        },
        JsonPayload::Object(es) => check_obj(es),
    }
}

/// Whether every member of the object can be serialized.
pub fn check_obj(es: &JsonObj) -> (r: Result<(), JsonGenerateError>)
    ensures
        match r {
            Ok(()) => obj_wf(es@),
            Err(JsonGenerateError::InvalidNumber(_)) => !obj_wf(es@),
        },
{
    let n = es.len();
    let mut i: usize = 0;
    while i < n
        invariant
            n == es@.len(),
            i <= n,
            forall|k: int| 0 <= k < i ==> scalar_wf((#[trigger] es@[k]).1),
        decreases n - i,
    {
        if !check_scalar(&es[i].1) {
            let bad = match &es[i].1 {
                JsonScalar::Num(t) => t.clone(),
                _ => unreached(),
            };
            return Err(JsonGenerateError::InvalidNumber(bad));
        }
        i += 1;
    }
    Ok(())
}

/// Append the serialized payload.
pub fn push_payload(out: &mut Vec<char>, p: &JsonPayload)
    requires
        payload_wf(*p),
    ensures
        final(out)@ == old(out)@ + payload_text(*p),
{
    match p {
        JsonPayload::Scalar(s) => push_scalar(out, s),
        JsonPayload::Object(es) => push_obj(out, es),
    }
}

/// Serialize a flat object to a JSON document.
pub fn obj_to_string(es: &JsonObj) -> (r: Result<String, JsonGenerateError>)
    ensures
        match r {
            Ok(s) => obj_wf(es@) && s@ == obj_text(es@),
            Err(_) => !obj_wf(es@),
        },
{
    match check_obj(es) {
        Err(e) => Err(e),
        Ok(()) => {
            let mut out: Vec<char> = Vec::new();
            push_obj(&mut out, es);
            proof {
                assert(out@ =~= obj_text(es@));
            }
            Ok(string_of_chars(&out))
        },
    }
}

} // verus!
