use vstd::prelude::*;

use crate::strutil::str_eq;

verus! {

/// A JSON value. Numbers are kept as raw text except when a builder of
/// this library produces an integer directly.
#[derive(Debug)]
pub enum Json {
    Null,
    Bool(bool),
    Int(i64),
    Num(String),
    Str(String),
    Arr(Vec<Json>),
    Obj(Vec<(String, Json)>),
}

/// The hexadecimal digit character for a value below sixteen.
pub open spec fn hex_char(d: int) -> char {
    if d < 10 {
        digit_char(d)
    } else if d == 10 {
        'a'
    } else if d == 11 {
        'b'
    } else if d == 12 {
        'c'
    } else if d == 13 {
        'd'
    } else if d == 14 {
        'e'
    } else {
        'f'
    }
}

/// One escaped character of a JSON string body: the named escapes for
/// the common characters, `\u00XX` for the other control characters.
pub open spec fn escape_char(c: char) -> Seq<char> {
    if c == '"' {
        seq!['\\', '"']
    } else if c == '\\' {
        seq!['\\', '\\']
    } else if c == '\n' {
        seq!['\\', 'n']
    } else if c == '\r' {
        seq!['\\', 'r']
    } else if c == '\t' {
        seq!['\\', 't']
    } else if (c as u32) < 32 {
        seq!['\\', 'u', '0', '0', hex_char(((c as u32) / 16) as int), hex_char(
            ((c as u32) % 16) as int,
        )]
    } else {
        seq![c]
    }
}

/// The escaped body of a JSON string.
pub open spec fn escape_text(s: Seq<char>) -> Seq<char>
    decreases s.len(),
{
    if s.len() == 0 {
        Seq::<char>::empty()
    } else {
        escape_text(s.drop_last()) + escape_char(s.last())
    }
}

pub open spec fn digit_char(d: int) -> char {
    if d == 0 {
        '0'
    } else if d == 1 {
        '1'
    } else if d == 2 {
        '2'
    } else if d == 3 {
        '3'
    } else if d == 4 {
        '4'
    } else if d == 5 {
        '5'
    } else if d == 6 {
        '6'
    } else if d == 7 {
        '7'
    } else if d == 8 {
        '8'
    } else {
        '9'
    }
}

/// Decimal digits of a non-negative integer.
pub open spec fn nat_text(n: int) -> Seq<char>
    decreases n,
{
    if n < 10 {
        seq![digit_char(n)]
    } else {
        nat_text(n / 10) + seq![digit_char(n % 10)]
    }
}

/// Decimal text of an integer, with a leading minus sign when negative.
pub open spec fn int_text(n: int) -> Seq<char> {
    if n < 0 {
        seq!['-'] + nat_text(-n)
    } else {
        nat_text(n)
    }
}

/// The text this library prints for a JSON value: compact form, no
/// whitespace, object fields in stored order.
pub open spec fn json_text(j: Json) -> Seq<char>
    decreases j, 0int,
{
    match j {
        Json::Null => seq!['n', 'u', 'l', 'l'],
        Json::Bool(b) => if b {
            seq!['t', 'r', 'u', 'e']
        } else {
            seq!['f', 'a', 'l', 's', 'e']
        },
        Json::Int(n) => int_text(n as int),
        Json::Num(t) => t@,
        Json::Str(s) => seq!['"'] + escape_text(s@) + seq!['"'],
        Json::Arr(v) => seq!['['] + arr_text(v@) + seq![']'],
        Json::Obj(f) => seq!['{'] + obj_text(f@) + seq!['}'],
    }
}

/// Comma-separated texts of the elements of a JSON array.
pub open spec fn arr_text(items: Seq<Json>) -> Seq<char>
    decreases items, 2int,
{
    if items.len() == 0 {
        Seq::<char>::empty()
    } else if items.len() == 1 {
        json_text(items[0])
    } else {
        arr_text(items.drop_last()) + seq![','] + json_text(items.last())
    }
}

/// One `"key":value` member of a JSON object.
pub open spec fn member_text(key: Seq<char>, val: Json) -> Seq<char>
    decreases val, 1int,
{
    seq!['"'] + escape_text(key) + seq!['"', ':'] + json_text(val)
}

/// Comma-separated members of a JSON object.
pub open spec fn obj_text(fields: Seq<(String, Json)>) -> Seq<char>
    decreases fields, 2int,
{
    if fields.len() == 0 {
        Seq::<char>::empty()
    } else if fields.len() == 1 {
        member_text(fields[0].0@, fields[0].1)
    } else {
        obj_text(fields.drop_last()) + seq![','] + member_text(
            fields.last().0@,
            fields.last().1,
        )
    }
}

/// Appends the escaped body of `t` to `out`.
fn hex_char_str(d: u32) -> (r: &'static str)
    requires
        d < 16,
    ensures
        r@ == seq![hex_char(d as int)],
{
    proof {
        reveal_strlit("a");
        reveal_strlit("b");
        reveal_strlit("c");
        reveal_strlit("d");
        reveal_strlit("e");
        reveal_strlit("f");
    }
    if d < 10 {
        digit_str(d as u64)
    } else if d == 10 {
        let r = "a";
        assert(r@ =~= seq![hex_char(d as int)]);
        r
    } else if d == 11 {
        let r = "b";
        assert(r@ =~= seq![hex_char(d as int)]);
        r
    } else if d == 12 {
        let r = "c";
        assert(r@ =~= seq![hex_char(d as int)]);
        r
    } else if d == 13 {
        let r = "d";
        assert(r@ =~= seq![hex_char(d as int)]);
        r
    } else if d == 14 {
        let r = "e";
        assert(r@ =~= seq![hex_char(d as int)]);
        r
    } else {
        let r = "f";
        assert(r@ =~= seq![hex_char(d as int)]);
        r
    }
}

#[verifier::loop_isolation(false)]
fn append_escaped(out: &mut String, t: &str)
    ensures
        final(out)@ == old(out)@ + escape_text(t@),
{
    proof {
        reveal_strlit("\\\"");
        reveal_strlit("\\\\");
        reveal_strlit("\\n");
        reveal_strlit("\\r");
        reveal_strlit("\\t");
        reveal_strlit("\\u00");
    }
    let n = t.unicode_len();
    let mut i: usize = 0;
    while i < n
        invariant
            t@.len() == n,
            0 <= i <= n,
            out@ == old(out)@ + escape_text(t@.subrange(0, i as int)),
        decreases n - i,
    {
        let c = t.get_char(i);
        if c == '"' {
            out.append("\\\"");
        } else if c == '\\' {
            out.append("\\\\");
        } else if c == '\n' {
            out.append("\\n");
        } else if c == '\r' {
            out.append("\\r");
        } else if c == '\t' {
            out.append("\\t");
        } else if (c as u32) < 32 {
            out.append("\\u00");
            out.append(hex_char_str((c as u32) / 16));
            out.append(hex_char_str((c as u32) % 16));
            proof {
                assert("\\u00"@ =~= seq!['\\', 'u', '0', '0']);
                assert(out@ =~= old(out)@ + escape_text(t@.subrange(0, i as int)) + escape_char(
                    t@[i as int],
                ));
            }
        } else {
            out.append(t.substring_char(i, i + 1));
            assert(t@.subrange(i as int, i + 1 as int) =~= seq![t@[i as int]]);
        }
        proof {
            let pre = t@.subrange(0, i as int);
            let post = t@.subrange(0, i + 1 as int);
            assert(post.drop_last() =~= pre);
            assert(post.last() == t@[i as int]);
            assert(escape_text(post) == escape_text(pre) + escape_char(t@[i as int]));
        }
        i += 1;
    }
    assert(t@.subrange(0, n as int) =~= t@);
}

fn digit_str(d: u64) -> (r: &'static str)
    requires
        d < 10,
    ensures
        r@ == seq![digit_char(d as int)],
{
    proof {
        reveal_strlit("0");
        reveal_strlit("1");
        reveal_strlit("2");
        reveal_strlit("3");
        reveal_strlit("4");
        reveal_strlit("5");
        reveal_strlit("6");
        reveal_strlit("7");
        reveal_strlit("8");
        reveal_strlit("9");
    }
    if d == 0 {
        let r = "0";
        assert(r@ =~= seq![digit_char(d as int)]);
        r
    } else if d == 1 {
        let r = "1";
        assert(r@ =~= seq![digit_char(d as int)]);
        r
    } else if d == 2 {
        let r = "2";
        assert(r@ =~= seq![digit_char(d as int)]);
        r
    } else if d == 3 {
        let r = "3";
        assert(r@ =~= seq![digit_char(d as int)]);
        r
    } else if d == 4 {
        let r = "4";
        assert(r@ =~= seq![digit_char(d as int)]);
        r
    } else if d == 5 {
        let r = "5";
        assert(r@ =~= seq![digit_char(d as int)]);
        r
    } else if d == 6 {
        let r = "6";
        assert(r@ =~= seq![digit_char(d as int)]);
        r
    } else if d == 7 {
        let r = "7";
        assert(r@ =~= seq![digit_char(d as int)]);
        r
    } else if d == 8 {
        let r = "8";
        assert(r@ =~= seq![digit_char(d as int)]);
        r
    } else {
        let r = "9";
        assert(r@ =~= seq![digit_char(d as int)]);
        r
    }
}

/// Decimal text of a `u64`.
pub fn u64_to_string(n: u64) -> (r: String)
    ensures
        r@ == nat_text(n as int),
    decreases n,
{
    if n < 10 {
        String::from_str(digit_str(n))
    } else {
        let mut s = u64_to_string(n / 10);
        s.append(digit_str(n % 10));
        s
    }
}

/// Decimal text of an `i64`, with a leading minus sign when negative.
pub fn i64_to_string(n: i64) -> (r: String)
    ensures
        r@ == int_text(n as int),
{
    proof {
        reveal_strlit("-");
    }
    if n >= 0 {
        u64_to_string(n as u64)
    } else {
        let m: u64 = if n == i64::MIN {
            9223372036854775808u64
        } else {
            (-n) as u64
        };
        let mut s = String::from_str("-");
        assert(s@ =~= seq!['-']);
        let digits = u64_to_string(m);
        s.append(digits.as_str());
        s
    }
}

/// Prints a JSON value in the compact form of `json_text`.
#[verifier::loop_isolation(false)]
pub fn json_to_string(j: &Json) -> (r: String)
    ensures
        r@ == json_text(*j),
    decreases *j,
{
    proof {
        reveal_strlit("null");
        reveal_strlit("true");
        reveal_strlit("false");
        reveal_strlit("\"");
        reveal_strlit("\":");
        reveal_strlit("[");
        reveal_strlit("]");
        reveal_strlit("{");
        reveal_strlit("}");
        reveal_strlit(",");
    }
    match j {
        Json::Null => {
            let r = String::from_str("null");
            assert(r@ =~= json_text(*j));
            r
        },
        Json::Bool(b) => {
            if *b {
                let r = String::from_str("true");
                assert(r@ =~= json_text(*j));
                r
            } else {
                let r = String::from_str("false");
                assert(r@ =~= json_text(*j));
                r
            }
        },
        Json::Int(n) => i64_to_string(*n),
        Json::Num(t) => t.clone(),
        Json::Str(s) => {
            let mut out = String::from_str("\"");
            assert(out@ =~= seq!['"']);
            append_escaped(&mut out, s.as_str());
            out.append("\"");
            assert(out@ =~= json_text(*j));
            out
        },
        Json::Arr(v) => {
            let mut out = String::from_str("[");
            assert(out@ =~= seq!['[']);
            let mut i: usize = 0;
            while i < v.len()
                invariant
                    0 <= i <= v@.len(),
                    out@ == seq!['['] + arr_text(v@.subrange(0, i as int)),
                decreases v@.len() - i,
            {
                if i > 0 {
                    out.append(",");
                }
                proof {
                    assert(decreases_to!(*j => v@));
                    assert(decreases_to!(v@ => v@[i as int]));
                }
                let piece = json_to_string(&v[i]);
                out.append(piece.as_str());
                proof {
                    let pre = v@.subrange(0, i as int);
                    let post = v@.subrange(0, i + 1 as int);
                    assert(post.drop_last() =~= pre);
                    assert(post.last() == v@[i as int]);
                    if i == 0 {
                        assert(post.len() == 1);
                        assert(post[0] == v@[0]);
                        assert(arr_text(post) == json_text(v@[0]));
                        assert(out@ =~= seq!['['] + arr_text(post));
                    } else {
                        assert(arr_text(post) == arr_text(pre) + seq![','] + json_text(
                            v@[i as int],
                        ));
                        assert(out@ =~= seq!['['] + arr_text(post));
                    }
                }
                i += 1;
            }
            out.append("]");
            proof {
                assert(v@.subrange(0, v@.len() as int) =~= v@);
                assert(out@ =~= json_text(*j));
            }
            out
        },
        Json::Obj(f) => {
            let mut out = String::from_str("{");
            assert(out@ =~= seq!['{']);
            let mut i: usize = 0;
            while i < f.len()
                invariant
                    0 <= i <= f@.len(),
                    out@ == seq!['{'] + obj_text(f@.subrange(0, i as int)),
                decreases f@.len() - i,
            {
                if i > 0 {
                    out.append(",");
                }
                out.append("\"");
                append_escaped(&mut out, f[i].0.as_str());
                out.append("\":");
                proof {
                    assert(decreases_to!(*j => f@));
                    assert(decreases_to!(f@ => f@[i as int]));
                    assert(decreases_to!(f@[i as int] => f@[i as int].1));
                }
                let piece = json_to_string(&f[i].1);
                out.append(piece.as_str());
                proof {
                    let pre = f@.subrange(0, i as int);
                    let post = f@.subrange(0, i + 1 as int);
                    assert(post.drop_last() =~= pre);
                    assert(post.last() == f@[i as int]);
                    assert("\":"@ =~= seq!['"', ':']);
                    if i == 0 {
                        assert(post.len() == 1);
                        assert(post[0] == f@[0]);
                        assert(obj_text(post) == member_text(f@[0].0@, f@[0].1));
                        assert(out@ =~= seq!['{'] + obj_text(post));
                    } else {
                        assert(obj_text(post) == obj_text(pre) + seq![','] + member_text(
                            f@[i as int].0@,
                            f@[i as int].1,
                        ));
                        assert(out@ =~= seq!['{'] + obj_text(post));
                    }
                }
                i += 1;
            }
            out.append("}");
            proof {
                assert(f@.subrange(0, f@.len() as int) =~= f@);
                assert(out@ =~= json_text(*j));
            }
            out
        },
    }
}

/// First match for `key` among the fields at or after position `i`.
pub open spec fn obj_get_from(fields: Seq<(String, Json)>, key: Seq<char>, i: int) -> Option<Json>
    decreases fields.len() - i,
{
    if i < 0 || i >= fields.len() {
        None
    } else if fields[i].0@ == key {
        Some(fields[i].1)
    } else {
        obj_get_from(fields, key, i + 1)
    }
}

/// Field lookup on an object value; `None` on any other shape.
pub open spec fn json_get(j: Json, key: Seq<char>) -> Option<Json> {
    match j {
        Json::Obj(f) => obj_get_from(f@, key, 0),
        _ => None,
    }
}

pub open spec fn json_has_key(j: Json, key: Seq<char>) -> bool {
    json_get(j, key) is Some
}

/// The value is a JSON string equal to `v`.
pub open spec fn is_string_value(j: Json, v: Seq<char>) -> bool {
    match j {
        Json::Str(s) => s@ == v,
        _ => false,
    }
}

pub open spec fn is_string(j: Json) -> bool {
    j is Str
}

pub open spec fn is_number(j: Json) -> bool {
    j is Int || j is Num
}

pub open spec fn is_object(j: Json) -> bool {
    j is Obj
}

pub open spec fn is_array(j: Json) -> bool {
    j is Arr
}

pub open spec fn is_bool(j: Json) -> bool {
    j is Bool
}

impl Json {
    /// Looks `key` up among the fields of an object value: the first
    /// field with that name, or `None` when absent or when the value is
    /// not an object.
    #[verifier::loop_isolation(false)]
    pub fn get<'a>(&'a self, key: &str) -> (r: Option<&'a Json>)
        ensures
            match r {
                Some(v) => json_get(*self, key@) == Some(*v),
                None => json_get(*self, key@) is None,
            },
    {
        match self {
            Json::Obj(f) => {
                let mut i: usize = 0;
                while i < f.len()
                    invariant
                        0 <= i <= f@.len(),
                        obj_get_from(f@, key@, 0) == obj_get_from(f@, key@, i as int),
                    decreases f@.len() - i,
                {
                    let pair = &f[i];
                    if str_eq(pair.0.as_str(), key) {
                        proof {
                            assert(*pair == f@[i as int]);
                            assert(f@[i as int].0@ == key@);
                            assert(obj_get_from(f@, key@, i as int) == Some(f@[i as int].1));
                            assert(*self == Json::Obj(*f));
                            assert(json_get(*self, key@) == Some(f@[i as int].1));
                            assert(pair.1 == f@[i as int].1);
                        }
                        return Some(&pair.1);
                    }
                    proof {
                        assert(f@[i as int].0@ != key@);
                        assert(obj_get_from(f@, key@, i as int) == obj_get_from(
                            f@,
                            key@,
                            i + 1 as int,
                        ));
                    }
                    i += 1;
                }
                None
            },
            _ => None,
        }
    }

    /// The string content of a string value.
    pub fn as_string<'a>(&'a self) -> (r: Option<&'a String>)
        ensures
            match r {
                Some(s) => self is Str && is_string_value(*self, s@),
                None => !(self is Str),
            },
    {
        match self {
            Json::Str(s) => Some(s),
            _ => None,
        }
    }
}

pub open spec fn is_ws_char(c: char) -> bool {
    c == ' ' || c == '\t' || c == '\n' || c == '\r'
}

fn is_ws(c: char) -> (r: bool)
    ensures
        r == is_ws_char(c),
{
    c == ' ' || c == '\t' || c == '\n' || c == '\r'
}

fn is_digit(c: char) -> (r: bool)
    ensures
        r == (c == '0' || c == '1' || c == '2' || c == '3' || c == '4' || c == '5' || c == '6'
            || c == '7' || c == '8' || c == '9'),
{
    c == '0' || c == '1' || c == '2' || c == '3' || c == '4' || c == '5' || c == '6' || c == '7'
        || c == '8' || c == '9'
}

fn is_number_char(c: char) -> (r: bool) {
    is_digit(c) || c == '-' || c == '+' || c == '.' || c == 'e' || c == 'E'
}

fn skip_ws(s: &str, i: usize, n: usize) -> (r: usize)
    requires
        s@.len() == n,
        i <= n,
    ensures
        i <= r <= n,
{
    let mut k: usize = i;
    while k < n
        invariant
            s@.len() == n,
            i <= k <= n,
        decreases n - k,
    {
        if !is_ws(s.get_char(k)) {
            return k;
        }
        k += 1;
    }
    k
}

/// Relies on char::from_u32: the character for a scalar value, or
/// nothing for a surrogate or out-of-range code point.
#[verifier::external_body]
fn char_from_u32(v: u32) -> (r: Option<char>) {
    char::from_u32(v)
}

/// Relies on String::push: appends one character.
#[verifier::external_body]
fn push_char(out: &mut String, c: char)
    ensures
        final(out)@ == old(out)@ + seq![c],
{
    out.push(c);
}

/// The value of one hexadecimal digit.
fn hex_digit(c: char) -> (r: Option<u32>)
    ensures
        r matches Some(v) ==> v < 16,
{
    if c == '0' {
        Some(0)
    } else if c == '1' {
        Some(1)
    } else if c == '2' {
        Some(2)
    } else if c == '3' {
        Some(3)
    } else if c == '4' {
        Some(4)
    } else if c == '5' {
        Some(5)
    } else if c == '6' {
        Some(6)
    } else if c == '7' {
        Some(7)
    } else if c == '8' {
        Some(8)
    } else if c == '9' {
        Some(9)
    } else if c == 'a' || c == 'A' {
        Some(10)
    } else if c == 'b' || c == 'B' {
        Some(11)
    } else if c == 'c' || c == 'C' {
        Some(12)
    } else if c == 'd' || c == 'D' {
        Some(13)
    } else if c == 'e' || c == 'E' {
        Some(14)
    } else if c == 'f' || c == 'F' {
        Some(15)
    } else {
        None
    }
}

/// The value of the four hexadecimal digits at `s[i..i+4)`.
fn hex4(s: &str, i: usize, n: usize) -> (r: Option<u32>)
    requires
        s@.len() == n,
        i + 4 <= n,
    ensures
        r matches Some(v) ==> v < 65536,
{
    let d0 = match hex_digit(s.get_char(i)) {
        Some(d) => d,
        None => {
            return None;
        },
    };
    let d1 = match hex_digit(s.get_char(i + 1)) {
        Some(d) => d,
        None => {
            return None;
        },
    };
    let d2 = match hex_digit(s.get_char(i + 2)) {
        Some(d) => d,
        None => {
            return None;
        },
    };
    let d3 = match hex_digit(s.get_char(i + 3)) {
        Some(d) => d,
        None => {
            return None;
        },
    };
    Some(d0 * 4096 + d1 * 256 + d2 * 16 + d3)
}

/// Reads a JSON string body starting after the opening quote at `i - 1`;
/// returns the decoded content and the position after the closing
/// quote. All the escapes of the JSON grammar are read, `\uXXXX` and
/// surrogate pairs included; a lone surrogate is rejected.
fn parse_string_body(s: &str, i: usize, n: usize) -> (r: Option<(String, usize)>)
    requires
        s@.len() == n,
        i <= n,
    ensures
        match r {
            Some(p) => i < p.1 <= n,
            None => true,
        },
{
    let mut out = String::new();
    let mut k: usize = i;
    while k < n
        invariant
            s@.len() == n,
            i <= k <= n,
        decreases n - k,
    {
        let c = s.get_char(k);
        if c == '"' {
            return Some((out, k + 1));
        } else if c == '\\' {
            if k + 1 >= n {
                return None;
            }
            let e = s.get_char(k + 1);
            if e == '"' {
                out.append("\"");
                k += 2;
            } else if e == '\\' {
                out.append("\\");
                k += 2;
            } else if e == '/' {
                out.append("/");
                k += 2;
            } else if e == 'n' {
                out.append("\n");
                k += 2;
            } else if e == 'r' {
                out.append("\r");
                k += 2;
            } else if e == 't' {
                out.append("\t");
                k += 2;
            } else if e == 'b' {
                match char_from_u32(8) {
                    Some(ch) => push_char(&mut out, ch),
                    None => {
                        return None;
                    },
                }
                k += 2;
            } else if e == 'f' {
                match char_from_u32(12) {
                    Some(ch) => push_char(&mut out, ch),
                    None => {
                        return None;
                    },
                }
                k += 2;
            } else if e == 'u' {
                if n - k < 6 {
                    return None;
                }
                let h = match hex4(s, k + 2, n) {
                    Some(h) => h,
                    None => {
                        return None;
                    },
                };
                if 0xD800 <= h && h <= 0xDBFF {
                    // A high surrogate must pair with a low one.
                    if n - k < 12 {
                        return None;
                    }
                    if s.get_char(k + 6) != '\\' || s.get_char(k + 7) != 'u' {
                        return None;
                    }
                    let lo = match hex4(s, k + 8, n) {
                        Some(lo) => lo,
                        None => {
                            return None;
                        },
                    };
                    if !(0xDC00 <= lo && lo <= 0xDFFF) {
                        return None;
                    }
                    let cp = 0x10000 + (h - 0xD800) * 0x400 + (lo - 0xDC00);
                    match char_from_u32(cp) {
                        Some(ch) => push_char(&mut out, ch),
                        None => {
                            return None;
                        },
                    }
                    k += 12;
                } else if 0xDC00 <= h && h <= 0xDFFF {
                    return None;
                } else {
                    match char_from_u32(h) {
                        Some(ch) => push_char(&mut out, ch),
                        None => {
                            return None;
                        },
                    }
                    k += 6;
                }
            } else {
                return None;
            }
        } else {
            out.append(s.substring_char(k, k + 1));
            k += 1;
        }
    }
    None
}

/// Checks that the literal `lit` stands at position `i` of `s`.
fn expect_lit(s: &str, i: usize, n: usize, lit: &str) -> (r: bool)
    requires
        s@.len() == n,
        i <= n,
{
    let m = lit.unicode_len();
    if m > n - i {
        return false;
    }
    let mut k: usize = 0;
    while k < m
        invariant
            s@.len() == n,
            lit@.len() == m,
            i <= n,
            m <= n - i,
            0 <= k <= m,
        decreases m - k,
    {
        if s.get_char(i + k) != lit.get_char(k) {
            return false;
        }
        k += 1;
    }
    true
}

/// Reads a plain decimal integer literal (an optional minus sign and
/// digits) into an `i64`; `None` for any other form or on overflow.
fn decimal_to_i64(s: &str) -> (r: Option<i64>) {
    let n = s.unicode_len();
    if n == 0 {
        return None;
    }
    let neg = s.get_char(0) == '-';
    let start: usize = if neg {
        1
    } else {
        0
    };
    if start >= n {
        return None;
    }
    let mut acc: u64 = 0;
    let mut k: usize = start;
    while k < n
        invariant
            s@.len() == n,
            start <= k <= n,
        decreases n - k,
    {
        let c = s.get_char(k);
        let d: u64 = if c == '0' {
            0
        } else if c == '1' {
            1
        } else if c == '2' {
            2
        } else if c == '3' {
            3
        } else if c == '4' {
            4
        } else if c == '5' {
            5
        } else if c == '6' {
            6
        } else if c == '7' {
            7
        } else if c == '8' {
            8
        } else if c == '9' {
            9
        } else {
            return None;
        };
        if acc > 1844674407370955160 {
            return None;
        }
        acc = acc * 10;
        if acc > u64::MAX - d {
            return None;
        }
        acc = acc + d;
        k += 1;
    }
    if neg {
        if acc > 9223372036854775808 {
            None
        } else if acc == 9223372036854775808 {
            Some(i64::MIN)
        } else {
            Some(-(acc as i64))
        }
    } else {
        if acc > 9223372036854775807 {
            None
        } else {
            Some(acc as i64)
        }
    }
}

/// Recursive-descent reader for one JSON value starting at `i`.
/// Structural well-formedness is all this reader promises; the exact
/// judgments on the parsed value are made by the callers' checks.
fn parse_value(s: &str, i: usize, n: usize) -> (r: Option<(Json, usize)>)
    requires
        s@.len() == n,
        i <= n,
    ensures
        match r {
            Some(p) => i < p.1 <= n,
            None => true,
        },
    decreases n - i,
{
    if i >= n {
        return None;
    }
    let c = s.get_char(i);
    if c == '"' {
        match parse_string_body(s, i + 1, n) {
            Some((content, k)) => Some((Json::Str(content), k)),
            None => None,
        }
    } else if c == 'n' {
        if expect_lit(s, i, n, "null") && n - i >= 4 {
            Some((Json::Null, i + 4))
        } else {
            None
        }
    } else if c == 't' {
        if expect_lit(s, i, n, "true") && n - i >= 4 {
            Some((Json::Bool(true), i + 4))
        } else {
            None
        }
    } else if c == 'f' {
        if expect_lit(s, i, n, "false") && n - i >= 5 {
            Some((Json::Bool(false), i + 5))
        } else {
            None
        }
    } else if c == '-' || is_digit(c) {
        let mut k: usize = i + 1;
        while k < n
            invariant
                s@.len() == n,
                i + 1 <= k <= n,
            decreases n - k,
        {
            if !is_number_char(s.get_char(k)) {
                break;
            }
            k += 1;
        }
        let raw = s.substring_char(i, k);
        match decimal_to_i64(raw) {
            Some(v) => Some((Json::Int(v), k)),
            None => Some((Json::Num(String::from_str(raw)), k)),
        }
    } else if c == '[' {
        let mut items: Vec<Json> = Vec::new();
        let mut k: usize = skip_ws(s, i + 1, n);
        if k < n && s.get_char(k) == ']' {
            return Some((Json::Arr(items), k + 1));
        }
        loop
            invariant
                s@.len() == n,
                i < k <= n,
            decreases n - k,
        {
            match parse_value(s, k, n) {
                Some((item, k2)) => {
                    items.push(item);
                    let k3 = skip_ws(s, k2, n);
                    if k3 < n && s.get_char(k3) == ',' {
                        let k4 = skip_ws(s, k3 + 1, n);
                        k = k4;
                    } else if k3 < n && s.get_char(k3) == ']' {
                        return Some((Json::Arr(items), k3 + 1));
                    } else {
                        return None;
                    }
                },
                None => {
                    return None;
                },
            }
        }
    } else if c == '{' {
        let mut fields: Vec<(String, Json)> = Vec::new();
        let mut k: usize = skip_ws(s, i + 1, n);
        if k < n && s.get_char(k) == '}' {
            return Some((Json::Obj(fields), k + 1));
        }
        loop
            invariant
                s@.len() == n,
                i < k <= n,
            decreases n - k,
        {
            if k >= n || s.get_char(k) != '"' {
                return None;
            }
            match parse_string_body(s, k + 1, n) {
                Some((key, k2)) => {
                    let k3 = skip_ws(s, k2, n);
                    if !(k3 < n && s.get_char(k3) == ':') {
                        return None;
                    }
                    let k4 = skip_ws(s, k3 + 1, n);
                    match parse_value(s, k4, n) {
                        Some((val, k5)) => {
                            fields.push((key, val));
                            let k6 = skip_ws(s, k5, n);
                            if k6 < n && s.get_char(k6) == ',' {
                                let k7 = skip_ws(s, k6 + 1, n);
                                if k7 <= k {
                                    return None;
                                }
                                k = k7;
                            } else if k6 < n && s.get_char(k6) == '}' {
                                return Some((Json::Obj(fields), k6 + 1));
                            } else {
                                return None;
                            }
                        },
                        None => {
                            return None;
                        },
                    }
                },
                None => {
                    return None;
                },
            }
        }
    } else {
        None
    }
}

/// Reads a whole text as one JSON value; `None` unless the text is a
/// single value surrounded by nothing but whitespace.
pub fn parse_json(s: &str) -> (r: Option<Json>) {
    let n = s.unicode_len();
    let start = skip_ws(s, 0, n);
    match parse_value(s, start, n) {
        Some((v, k)) => {
            let after = skip_ws(s, k, n);
            if after == n {
                Some(v)
            } else {
                None
            }
        },
        None => None,
    }
}

/// The JSON text of a string value: quoted and escaped.
pub open spec fn json_string_text(s: Seq<char>) -> Seq<char> {
    seq!['"'] + escape_text(s) + seq!['"']
}

/// Appends the JSON text of the string value `s` to `out`.
pub fn append_json_string(out: &mut String, s: &str)
    ensures
        final(out)@ == old(out)@ + json_string_text(s@),
{
    proof {
        reveal_strlit("\"");
    }
    out.append("\"");
    append_escaped(out, s);
    out.append("\"");
    assert(final(out)@ =~= old(out)@ + json_string_text(s@));
}

/// The raw JSON text of a string value.
pub fn json_string_value(s: &str) -> (r: String)
    ensures
        r@ == json_string_text(s@),
{
    let mut out = String::new();
    append_json_string(&mut out, s);
    out
}

} // verus!
