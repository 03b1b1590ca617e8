//! Rendering JSON values into the service's wire format, and building the
//! request envelope.
//!
//! Every outbound request is one JSON object `{"method": ..., "token":
//! ..., "param": ...}`, rendered compactly: no whitespace, object keys in
//! insertion order, strings escaped the way the service's JSON dialect
//! expects (`"` and `\` backslashed, the named control characters as
//! `\b \t \n \f \r`, the remaining control characters as `\u00..`).
//!
//! `OtherNumber` marks a number that only appears in decoded inbound
//! trees; no outbound value ever holds one, and the rendering gives it no
//! text.
use vstd::prelude::*;
use vstd::string::StrSliceExecFns;
use vstd::string::StringExecFns;

use crate::json::{
    lemma_models_of, lemma_pair_models_of, models_of, pair_models_of, JsonModel, JsonValue,
};

verus! {

broadcast use vstd::std_specs::vec::group_vec_axioms;

/// The decimal digit characters.
pub open spec fn dec_digit_char(d: int) -> char {
    if d == 0 {
        '0'
    } else if d == 1 {
        '1'
    } else if d == 2 {
        '2'
    } else if d == 3 {
        '3'
    } else if d == 4 {
        '4'
    } else if d == 5 {
        '5'
    } else if d == 6 {
        '6'
    } else if d == 7 {
        '7'
    } else if d == 8 {
        '8'
    } else {
        '9'
    }
}

/// The lower-case hexadecimal digit characters.
pub open spec fn hex_digit_char(d: int) -> char {
    if d < 10 {
        dec_digit_char(d)
    } else if d == 10 {
        'a'
    } else if d == 11 {
        'b'
    } else if d == 12 {
        'c'
    } else if d == 13 {
        'd'
    } else if d == 14 {
        'e'
    } else {
        'f'
    }
}

/// The decimal digits of `n`, most significant first.
pub open spec fn dec_digits(n: nat) -> Seq<char>
    decreases n,
{
    if n < 10 {
        seq![dec_digit_char(n as int)]
    } else {
        dec_digits(n / 10).push(dec_digit_char((n % 10) as int))
    }
}

/// The decimal text of an integer, with a leading minus when negative.
pub open spec fn int_text(i: int) -> Seq<char> {
    if i >= 0 {
        dec_digits(i as nat)
    } else {
        seq!['-'] + dec_digits((-i) as nat)
    }
}

/// What one character renders to inside a JSON string.
pub open spec fn escape_char(c: char) -> Seq<char> {
    if c == '"' {
        seq!['\\', '"']
    } else if c == '\\' {
        seq!['\\', '\\']
    } else if c == '\u{8}' {
        seq!['\\', 'b']
    } else if c == '\t' {
        seq!['\\', 't']
    } else if c == '\n' {
        seq!['\\', 'n']
    } else if c == '\u{c}' {
        seq!['\\', 'f']
    } else if c == '\r' {
        seq!['\\', 'r']
    } else if (c as u32) < 32 {
        seq!['\\', 'u', '0', '0', hex_digit_char(((c as u32) / 16) as int), hex_digit_char(
            ((c as u32) % 16) as int,
        )]
    } else {
        seq![c]
    }
}

/// A character sequence rendered inside a JSON string.
pub open spec fn escaped(s: Seq<char>) -> Seq<char>
    decreases s.len(),
{
    if s.len() == 0 {
        Seq::empty()
    } else {
        escaped(s.drop_last()) + escape_char(s.last())
    }
}

/// A character sequence rendered as a JSON string, quotes included.
pub open spec fn quoted(s: Seq<char>) -> Seq<char> {
    seq!['"'] + escaped(s) + seq!['"']
}

/// The wire text of a JSON value: compact, keys in order, strings
/// escaped as `escape_char` states. `OtherNumber` renders to nothing; it
/// never occurs in an outbound value.
pub open spec fn json_text(m: JsonModel) -> Seq<char>
    decreases m,
{
    match m {
        JsonModel::Null => seq!['n', 'u', 'l', 'l'],
        JsonModel::Bool(b) => if b {
            seq!['t', 'r', 'u', 'e']
        } else {
            seq!['f', 'a', 'l', 's', 'e']
        },
        JsonModel::Int(n) => int_text(n as int),
        JsonModel::OtherNumber => Seq::empty(),
        JsonModel::Text(s) => quoted(s),
        JsonModel::Array(items) => seq!['['] + list_text(items) + seq![']'],
        JsonModel::Object(pairs) => seq!['{'] + pairs_text(pairs) + seq!['}'],
    }
}

/// The elements of an array, rendered and joined with commas.
pub open spec fn list_text(items: Seq<JsonModel>) -> Seq<char>
    decreases items,
{
    if items.len() == 0 {
        Seq::empty()
    } else if items.len() == 1 {
        json_text(items[0])
    } else {
        list_text(items.drop_last()) + seq![','] + json_text(items.last())
    }
}

/// One object binding, rendered as quoted key, colon, value.
pub open spec fn pair_text(p: (Seq<char>, JsonModel)) -> Seq<char>
    decreases p,
{
    quoted(p.0) + seq![':'] + json_text(p.1)
}

/// The bindings of an object, rendered and joined with commas.
pub open spec fn pairs_text(pairs: Seq<(Seq<char>, JsonModel)>) -> Seq<char>
    decreases pairs,
{
    if pairs.len() == 0 {
        Seq::empty()
    } else if pairs.len() == 1 {
        pair_text(pairs[0])
    } else {
        pairs_text(pairs.drop_last()) + seq![','] + pair_text(pairs.last())
    }
}

/// One decimal digit as a character, exactly `dec_digit_char`.
fn dec_digit(d: u64) -> (c: char)
    requires
        d < 10,
    ensures
        c == dec_digit_char(d as int),
{
    match d {
        0 => '0',
        1 => '1',
        2 => '2',
        3 => '3',
        4 => '4',
        5 => '5',
        6 => '6',
        7 => '7',
        8 => '8',
        _ => '9',
    }
}

/// One hexadecimal digit as a character, exactly `hex_digit_char`.
fn hex_digit(d: u32) -> (c: char)
    requires
        d < 16,
    ensures
        c == hex_digit_char(d as int),
{
    match d {
        0 => '0',
        1 => '1',
        2 => '2',
        3 => '3',
        4 => '4',
        5 => '5',
        6 => '6',
        7 => '7',
        8 => '8',
        9 => '9',
        10 => 'a',
        11 => 'b',
        12 => 'c',
        13 => 'd',
        14 => 'e',
        _ => 'f',
    }
}

/// Appends the rendering of one string character, exactly `escape_char`.
fn push_escaped(c: char, out: &mut Vec<char>)
    ensures
        final(out)@ == old(out)@ + escape_char(c),
{
    if c == '"' {
        out.push('\\');
        out.push('"');
    } else if c == '\\' {
        out.push('\\');
        out.push('\\');
    } else if c == '\u{8}' {
        out.push('\\');
        out.push('b');
    } else if c == '\t' {
        out.push('\\');
        out.push('t');
    } else if c == '\n' {
        out.push('\\');
        out.push('n');
    } else if c == '\u{c}' {
        out.push('\\');
        out.push('f');
    } else if c == '\r' {
        out.push('\\');
        out.push('r');
    } else {
        let u = c as u32;
        if u < 32 {
            out.push('\\');
            out.push('u');
            out.push('0');
            out.push('0');
            out.push(hex_digit(u / 16));
            out.push(hex_digit(u % 16));
        } else {
            out.push(c);
        }
    }
    assert(final(out)@ =~= old(out)@ + escape_char(c));
}

/// Appends a whole string rendered as a JSON string, exactly `quoted`.
fn push_quoted(s: &str, out: &mut Vec<char>)
    ensures
        final(out)@ == old(out)@ + quoted(s@),
{
    out.push('"');
    let n = s.unicode_len();
    let mut i: usize = 0;
    while i < n
        invariant
            n == s@.len(),
            i <= n,
            out@ == old(out)@ + seq!['"'] + escaped(s@.take(i as int)),
        decreases n - i,
    {
        let c = s.get_char(i);
        push_escaped(c, out);
        proof {
            assert(s@.take(i + 1).drop_last() =~= s@.take(i as int));
            assert(s@.take(i + 1).last() == s@[i as int]);
            assert(out@ =~= old(out)@ + seq!['"'] + escaped(s@.take(i + 1)));
        }
        i = i + 1;
    }
    out.push('"');
    proof {
        assert(s@.take(n as int) =~= s@);
        assert(out@ =~= old(out)@ + quoted(s@));
    }
}

/// Appends the decimal text of an integer, exactly `int_text`.
fn push_int(n: i64, out: &mut Vec<char>)
    ensures
        final(out)@ == old(out)@ + int_text(n as int),
{
    if n == 0 {
        out.push('0');
        assert(final(out)@ =~= old(out)@ + int_text(0));
        return ;
    }
    let neg = n < 0;
    let mag: u64 = if n >= 0 {
        n as u64
    } else {
        let wide: i128 = n as i128;
        (-wide) as u64
    };
    assert(mag == if n >= 0 { n as int } else { -(n as int) });
    if neg {
        out.push('-');
    }
    let ghost mid = out@;
    let mut digits: Vec<char> = Vec::new();
    let mut x = mag;
    proof {
        assert(digits@.reverse() =~= Seq::<char>::empty());
        assert(dec_digits(mag as nat) =~= dec_digits(mag as nat) + digits@.reverse());
    }
    while x > 0
        invariant
            mag > 0,
            x > 0 ==> dec_digits(mag as nat) == dec_digits(x as nat) + digits@.reverse(),
            x == 0 ==> dec_digits(mag as nat) == digits@.reverse(),
        decreases x,
    {
        let ghost prev = digits@;
        let ghost x0 = x as nat;
        let d = x % 10;
        let c = dec_digit(d);
        digits.push(c);
        x = x / 10;
        proof {
            assert(digits@.reverse() =~= seq![c] + prev.reverse());
            if x0 < 10 {
                assert(dec_digits(x0) =~= seq![c]);
                assert(dec_digits(x0) + prev.reverse() =~= digits@.reverse());
            } else {
                assert(dec_digits(x0) == dec_digits(x0 / 10).push(c));
                assert(dec_digits(x0 / 10).push(c) + prev.reverse() =~= dec_digits(x0 / 10) + (
                seq![c] + prev.reverse()));
                assert(dec_digits(mag as nat) =~= dec_digits(x as nat) + digits@.reverse());
            }
        }
    }
    let mut k = digits.len();
    proof {
        assert(digits@.subrange(k as int, digits@.len() as int).reverse() =~= Seq::<
            char,
        >::empty());
        assert(out@ =~= mid + digits@.subrange(k as int, digits@.len() as int).reverse());
    }
    while k > 0
        invariant
            k <= digits@.len(),
            dec_digits(mag as nat) == digits@.reverse(),
            mid == old(out)@ + (if neg {
                seq!['-']
            } else {
                Seq::<char>::empty()
            }),
            out@ == mid + digits@.subrange(k as int, digits@.len() as int).reverse(),
        decreases k,
    {
        k = k - 1;
        out.push(digits[k]);
        proof {
            assert(digits@.subrange(k as int, digits@.len() as int).reverse() =~= digits@.subrange(
                k + 1,
                digits@.len() as int,
            ).reverse().push(digits@[k as int]));
            assert(out@ =~= mid + digits@.subrange(k as int, digits@.len() as int).reverse());
        }
    }
    proof {
        assert(digits@.subrange(0, digits@.len() as int) =~= digits@);
        assert(out@ =~= mid + dec_digits(mag as nat));
        assert(out@ =~= old(out)@ + int_text(n as int));
    }
}

/// Appends the wire text of a JSON value, exactly `json_text`.
pub fn write_value(v: &JsonValue, out: &mut Vec<char>)
    ensures
        final(out)@ == old(out)@ + json_text(v.model()),
    decreases *v,
{
    match v {
        JsonValue::Null => {
            out.push('n');
            out.push('u');
            out.push('l');
            out.push('l');
            assert(final(out)@ =~= old(out)@ + json_text(v.model()));
        },
        JsonValue::Bool(b) => {
            if *b {
                out.push('t');
                out.push('r');
                out.push('u');
                out.push('e');
            } else {
                out.push('f');
                out.push('a');
                out.push('l');
                out.push('s');
                out.push('e');
            }
            assert(final(out)@ =~= old(out)@ + json_text(v.model()));
        },
        JsonValue::Int(n) => {
            push_int(*n, out);
        },
        JsonValue::OtherNumber => {
            assert(final(out)@ =~= old(out)@ + json_text(v.model()));
        },
        JsonValue::Text(s) => {
            push_quoted(s.as_str(), out);
        },
        JsonValue::Array(items) => {
            let ghost ms = models_of(items@);
            proof {
                lemma_models_of(items@);
            }
            out.push('[');
            let n = items.len();
            let mut i: usize = 0;
            proof {
                assert(list_text(ms.take(0)) =~= Seq::<char>::empty());
                assert(out@ =~= old(out)@ + seq!['['] + list_text(ms.take(0)));
            }
            while i < n
                invariant
                    n == items@.len(),
                    i <= n,
                    ms == models_of(items@),
                    ms.len() == n,
                    forall|j: int| 0 <= j < n ==> ms[j] == items@[j].model(),
                    *v == JsonValue::Array(*items),
                    out@ == old(out)@ + seq!['['] + list_text(ms.take(i as int)),
                decreases n - i,
            {
                if i > 0 {
                    out.push(',');
                }
                proof {
                    assert(decreases_to!(*v => v->Array_0));
                    assert(v->Array_0 == *items);
                    assert(decreases_to!(*items => items@));
                    assert(decreases_to!(items@ => items@[i as int]));
                    assert(decreases_to!(*v => items@[i as int]));
                }
                write_value(&items[i], out);
                proof {
                    assert(ms.take(i + 1).drop_last() =~= ms.take(i as int));
                    assert(ms.take(i + 1).last() == ms[i as int]);
                    if i == 0 {
                        assert(list_text(ms.take(1)) == json_text(ms[0]));
                    }
                    assert(out@ =~= old(out)@ + seq!['['] + list_text(ms.take(i + 1)));
                }
                i = i + 1;
            }
            out.push(']');
            proof {
                assert(ms.take(n as int) =~= ms);
                assert(out@ =~= old(out)@ + json_text(v.model()));
            }
        },
        JsonValue::Object(pairs) => {
            let ghost ms = pair_models_of(pairs@);
            proof {
                lemma_pair_models_of(pairs@);
            }
            out.push('{');
            let n = pairs.len();
            let mut i: usize = 0;
            proof {
                assert(pairs_text(ms.take(0)) =~= Seq::<char>::empty());
                assert(out@ =~= old(out)@ + seq!['{'] + pairs_text(ms.take(0)));
            }
            while i < n
                invariant
                    n == pairs@.len(),
                    i <= n,
                    ms == pair_models_of(pairs@),
                    ms.len() == n,
                    forall|j: int|
                        0 <= j < n ==> ms[j] == (pairs@[j].0@, pairs@[j].1.model()),
                    *v == JsonValue::Object(*pairs),
                    out@ == old(out)@ + seq!['{'] + pairs_text(ms.take(i as int)),
                decreases n - i,
            {
                if i > 0 {
                    out.push(',');
                }
                push_quoted(pairs[i].0.as_str(), out);
                out.push(':');
                proof {
                    assert(decreases_to!(*v => v->Object_0));
                    assert(v->Object_0 == *pairs);
                    assert(decreases_to!(*pairs => pairs@));
                    assert(decreases_to!(pairs@ => pairs@[i as int]));
                    assert(decreases_to!(pairs@[i as int] => pairs@[i as int].1));
                    assert(decreases_to!(*v => pairs@[i as int].1));
                }
                write_value(&pairs[i].1, out);
                proof {
                    assert(ms.take(i + 1).drop_last() =~= ms.take(i as int));
                    assert(ms.take(i + 1).last() == ms[i as int]);
                    assert(ms[i as int].0 == pairs@[i as int].0@);
                    assert(ms[i as int].1 == pairs@[i as int].1.model());
                    assert(pair_text(ms[i as int]) == quoted(ms[i as int].0) + seq![':']
                        + json_text(ms[i as int].1));
                    if i == 0 {
                        assert(pairs_text(ms.take(1)) == pair_text(ms[0]));
                    } else {
                        assert(pairs_text(ms.take(i + 1)) == pairs_text(ms.take(i as int))
                            + seq![','] + pair_text(ms[i as int]));
                    }
                    assert(out@ =~= old(out)@ + seq!['{'] + pairs_text(ms.take(i + 1)));
                }
                i = i + 1;
            }
            out.push('}');
            proof {
                assert(ms.take(n as int) =~= ms);
                assert(out@ =~= old(out)@ + json_text(v.model()));
            }
        },
    }
}

/// Relies on `String`'s `FromIterator<char>`: collecting characters
/// yields the string of exactly those characters, in order.
#[verifier::external_body]
fn string_from_chars(chars: &Vec<char>) -> (r: String)
    ensures
        r@ == chars@,
{
    chars.iter().collect()
}

/// Renders a JSON value to its wire text, exactly `json_text`.
pub fn to_text(v: &JsonValue) -> (r: String)
    ensures
        r@ == json_text(v.model()),
{
    let mut out: Vec<char> = Vec::new();
    write_value(v, &mut out);
    proof {
        assert(Seq::<char>::empty() + json_text(v.model()) =~= json_text(v.model()));
    }
    string_from_chars(&out)
}

/// The envelope every request is wrapped in: `method` and `token`
/// always, `param` only when one is supplied — the key is omitted, not
/// set to null.
pub open spec fn spec_request_envelope(
    method: Seq<char>,
    token: Seq<char>,
    param: Option<JsonModel>,
) -> JsonModel {
    match param {
        None => JsonModel::Object(
            seq![("method"@, JsonModel::Text(method)), ("token"@, JsonModel::Text(token))],
        ),
        Some(p) => JsonModel::Object(
            seq![
                ("method"@, JsonModel::Text(method)),
                ("token"@, JsonModel::Text(token)),
                ("param"@, p),
            ],
        ),
    }
}

/// The model of an optional JSON value.
pub open spec fn option_model(param: Option<JsonValue>) -> Option<JsonModel> {
    match param {
        None => None,
        Some(p) => Some(p.model()),
    }
}

/// Builds the request envelope, exactly as `spec_request_envelope`
/// states.
pub fn request_envelope(method: &str, token: &str, param: Option<JsonValue>) -> (r: JsonValue)
    ensures
        r.model() == spec_request_envelope(method@, token@, option_model(param)),
{
    let mut pairs: Vec<(String, JsonValue)> = Vec::new();
    pairs.push((String::from_str("method"), JsonValue::Text(String::from_str(method))));
    pairs.push((String::from_str("token"), JsonValue::Text(String::from_str(token))));
    let ghost has_param = param is Some;
    let ghost param_model = option_model(param);
    match param {
        None => {},
        Some(p) => {
            pairs.push((String::from_str("param"), p));
        },
    }
    proof {
        lemma_pair_models_of(pairs@);
        if has_param {
            assert(pair_models_of(pairs@) =~= seq![
                ("method"@, JsonModel::Text(method@)),
                ("token"@, JsonModel::Text(token@)),
                ("param"@, param_model->Some_0),
            ]);
        } else {
            assert(pair_models_of(pairs@) =~= seq![
                ("method"@, JsonModel::Text(method@)),
                ("token"@, JsonModel::Text(token@)),
            ]);
        }
    }
    JsonValue::Object(pairs)
}

/// Builds and renders the whole request body in one step.
pub fn request_body(method: &str, token: &str, param: Option<JsonValue>) -> (r: String)
    ensures
        r@ == json_text(spec_request_envelope(method@, token@, option_model(param))),
{
    let envelope = request_envelope(method, token, param);
    to_text(&envelope)
}

} // verus!
