//! The JSON wire form of an error body: a canonical renderer, the matching
//! parser, and the proof that parsing a rendered body gives back exactly the
//! value that was rendered.

use vstd::prelude::*;

use crate::error::ApiErrorResponse;
use crate::error::ApiErrorResponseV;
use crate::error::ErrorDetails;
use crate::error::ErrorDetailsV;
use crate::text::dec_digit;
use crate::text::push_char;

verus! {

/// The lowercase hexadecimal digit character for `d`.
pub open spec fn hex_digit(d: nat) -> char {
    if d < 10 {
        dec_digit(d)
    } else if d == 10 {
        'a'
    } else if d == 11 {
        'b'
    } else if d == 12 {
        'c'
    } else if d == 13 {
        'd'
    } else if d == 14 {
        'e'
    } else {
        'f'
    }
}

/// The JSON escape of one character: quotes and backslashes get a backslash,
/// control characters a `\u00..` form, everything else stands as itself.
pub open spec fn esc_char(c: char) -> Seq<char> {
    if c == '"' {
        seq!['\\', '"']
    } else if c == '\\' {
        seq!['\\', '\\']
    } else if (c as nat) < 32 {
        seq!['\\', 'u', '0', '0', hex_digit((c as nat) / 16), hex_digit((c as nat) % 16)]
    } else {
        seq![c]
    }
}

/// The JSON escape of a whole string.
pub open spec fn escape(s: Seq<char>) -> Seq<char>
    decreases s.len(),
{
    if s.len() == 0 {
        Seq::empty()
    } else {
        esc_char(s[0]) + escape(s.drop_first())
    }
}

/// Escaping distributes over concatenation.
pub proof fn lemma_escape_distributes(a: Seq<char>, b: Seq<char>)
    ensures
        escape(a + b) == escape(a) + escape(b),
    decreases a.len(),
{
    if a.len() == 0 {
        assert(a + b =~= b);
        assert(escape(a) + escape(b) =~= escape(b));
    } else {
        assert((a + b).drop_first() =~= a.drop_first() + b);
        lemma_escape_distributes(a.drop_first(), b);
        assert(escape(a + b) =~= escape(a) + escape(b));
    }
}

/// A JSON string literal: the escaped content between quotes.
pub open spec fn json_string(s: Seq<char>) -> Seq<char> {
    seq!['"'] + escape(s) + seq!['"']
}

/// A JSON boolean literal.
pub open spec fn json_bool(b: bool) -> Seq<char> {
    if b {
        "true"@
    } else {
        "false"@
    }
}

/// A JSON string literal or `null`.
pub open spec fn json_opt_string(o: Option<Seq<char>>) -> Seq<char> {
    match o {
        Some(s) => json_string(s),
        None => "null"@,
    }
}

/// The JSON object for one details payload.
pub open spec fn json_details(d: ErrorDetailsV) -> Seq<char> {
    match d {
        ErrorDetailsV::Field { field } => "{\"field\":"@ + json_string(field) + "}"@,
        ErrorDetailsV::Resource { resource, id } => "{\"resource\":"@ + json_string(resource)
            + ",\"id\":"@ + json_string(id) + "}"@,
        ErrorDetailsV::Service { service } => "{\"service\":"@ + json_string(service) + "}"@,
        ErrorDetailsV::Tournament { tournament_id } => "{\"tournament_id\":"@ + json_string(
            tournament_id,
        ) + "}"@,
        ErrorDetailsV::User { user_id } => "{\"user_id\":"@ + json_string(user_id) + "}"@,
    }
}

/// The JSON object for a details payload or `null`.
pub open spec fn json_opt_details(o: Option<ErrorDetailsV>) -> Seq<char> {
    match o {
        Some(d) => json_details(d),
        None => "null"@,
    }
}

/// The canonical JSON rendering of an error body.
pub open spec fn response_json(r: ApiErrorResponseV) -> Seq<char> {
    "{\"success\":"@ + json_bool(r.success) + ",\"message\":"@ + json_string(r.message)
        + ",\"error_code\":"@ + json_string(r.error_code) + ",\"details\":"@ + json_opt_details(
        r.details,
    ) + ",\"request_id\":"@ + json_opt_string(r.request_id) + "}"@
}

/// The numeric value of a lowercase hexadecimal digit character.
pub open spec fn hex_val(c: char) -> Option<nat> {
    if c == '0' {
        Some(0 as nat)
    } else if c == '1' {
        Some(1 as nat)
    } else if c == '2' {
        Some(2 as nat)
    } else if c == '3' {
        Some(3 as nat)
    } else if c == '4' {
        Some(4 as nat)
    } else if c == '5' {
        Some(5 as nat)
    } else if c == '6' {
        Some(6 as nat)
    } else if c == '7' {
        Some(7 as nat)
    } else if c == '8' {
        Some(8 as nat)
    } else if c == '9' {
        Some(9 as nat)
    } else if c == 'a' {
        Some(10 as nat)
    } else if c == 'b' {
        Some(11 as nat)
    } else if c == 'c' {
        Some(12 as nat)
    } else if c == 'd' {
        Some(13 as nat)
    } else if c == 'e' {
        Some(14 as nat)
    } else if c == 'f' {
        Some(15 as nat)
    } else {
        None
    }
}

/// Reading back a rendered hexadecimal digit gives the digit.
proof fn lemma_hex_val_inverse(d: nat)
    requires
        d < 16,
    ensures
        hex_val(hex_digit(d)) == Some(d),
{
}

/// The position after `lit`, when `lit` stands at `i` in `s`.
pub open spec fn expect_at(s: Seq<char>, i: int, lit: Seq<char>) -> Option<int> {
    if 0 <= i && i + lit.len() <= s.len() && s.subrange(i, i + lit.len()) == lit {
        Some(i + lit.len())
    } else {
        None
    }
}

/// Parse a JSON boolean literal at `i`.
pub open spec fn parse_bool_at(s: Seq<char>, i: int) -> Option<(bool, int)> {
    match expect_at(s, i, "true"@) {
        Some(j) => Some((true, j)),
        None => match expect_at(s, i, "false"@) {
            Some(j) => Some((false, j)),
            None => None,
        },
    }
}

/// Parse the remainder of a JSON string literal after its opening quote: the
/// decoded content, and the position after the closing quote. Only the
/// canonical escapes that [`escape`] emits are accepted.
pub open spec fn parse_string_body(s: Seq<char>, i: int) -> Option<(Seq<char>, int)>
    decreases s.len() - i,
{
    if i < 0 || i >= s.len() {
        None
    } else if s[i] == '"' {
        Some((Seq::empty(), i + 1))
    } else if s[i] == '\\' {
        if i + 1 >= s.len() {
            None
        } else if s[i + 1] == '"' || s[i + 1] == '\\' {
            match parse_string_body(s, i + 2) {
                Some((rest, j)) => Some((seq![s[i + 1]] + rest, j)),
                None => None,
            }
        } else if s[i + 1] == 'u' {
            if i + 6 > s.len() {
                None
            } else if s[i + 2] == '0' && s[i + 3] == '0' {
                match (hex_val(s[i + 4]), hex_val(s[i + 5])) {
                    (Some(h), Some(l)) => {
                        let code = 16 * h + l;
                        if code < 32 {
                            match parse_string_body(s, i + 6) {
                                Some((rest, j)) => Some((seq![(code as u32) as char] + rest, j)),
                                None => None,
                            }
                        } else {
                            None
                        }
                    },
                    _ => None,
                }
            } else {
                None
            }
        } else {
            None
        }
    } else if (s[i] as nat) < 32 {
        None
    } else {
        match parse_string_body(s, i + 1) {
            Some((rest, j)) => Some((seq![s[i]] + rest, j)),
            None => None,
        }
    }
}

/// Parse a JSON string literal at `i`, opening quote included.
pub open spec fn parse_string_at(s: Seq<char>, i: int) -> Option<(Seq<char>, int)> {
    if 0 <= i && i < s.len() && s[i] == '"' {
        parse_string_body(s, i + 1)
    } else {
        None
    }
}

/// Parse a JSON string literal or `null` at `i`.
pub open spec fn parse_opt_string_at(s: Seq<char>, i: int) -> Option<(Option<Seq<char>>, int)> {
    match expect_at(s, i, "null"@) {
        Some(j) => Some((None, j)),
        None => match parse_string_at(s, i) {
            Some((v, j)) => Some((Some(v), j)),
            None => None,
        },
    }
}

/// Parse a one-key details object at `i`: the given opening (brace, key and
/// colon), one string value, and the closing brace.
pub open spec fn parse_keyed_at(s: Seq<char>, i: int, key: Seq<char>) -> Option<(Seq<char>, int)> {
    match expect_at(s, i, key) {
        Some(j) => match parse_string_at(s, j) {
            Some((v, k)) => match expect_at(s, k, "}"@) {
                Some(m) => Some((v, m)),
                None => None,
            },
            None => None,
        },
        None => None,
    }
}

/// Parse the two-key resource object at `i`.
pub open spec fn parse_resource_at(s: Seq<char>, i: int) -> Option<((Seq<char>, Seq<char>), int)> {
    match expect_at(s, i, "{\"resource\":"@) {
        Some(j) => match parse_string_at(s, j) {
            Some((resource, k)) => match expect_at(s, k, ",\"id\":"@) {
                Some(m) => match parse_string_at(s, m) {
                    Some((id, n)) => match expect_at(s, n, "}"@) {
                        Some(p) => Some(((resource, id), p)),
                        None => None,
                    },
                    None => None,
                },
                None => None,
            },
            None => None,
        },
        None => None,
    }
}

/// Parse the two-key resource object at `i`.
fn parse_resource_exec(s: &str, i: usize) -> (r: Option<(String, String, usize)>)
    ensures
        match r {
            Some((resource, id, j)) => parse_resource_at(s@, i as int) == Some(
                ((resource@, id@), j as int),
            ) && j <= s@.len(),
            None => parse_resource_at(s@, i as int) is None,
        },
{
    match expect_lit(s, i, "{\"resource\":") {
        Some(j) => match parse_string_exec(s, j) {
            Some((resource, k)) => match expect_lit(s, k, ",\"id\":") {
                Some(m) => match parse_string_exec(s, m) {
                    Some((id, n)) => match expect_lit(s, n, "}") {
                        Some(p) => Some((resource, id, p)),
                        None => None,
                    },
                    None => None,
                },
                None => None,
            },
            None => None,
        },
        None => None,
    }
}

/// Parse a details payload or `null` at `i`.
pub open spec fn parse_details_at(s: Seq<char>, i: int) -> Option<(Option<ErrorDetailsV>, int)> {
    match expect_at(s, i, "null"@) {
        Some(j) => Some((None, j)),
        None => match parse_keyed_at(s, i, "{\"field\":"@) {
            Some((field, j)) => Some((Some(ErrorDetailsV::Field { field }), j)),
            None => match parse_resource_at(s, i) {
                Some(((resource, id), j)) => Some(
                    (Some(ErrorDetailsV::Resource { resource, id }), j),
                ),
                None => match parse_keyed_at(s, i, "{\"service\":"@) {
                    Some((service, j)) => Some((Some(ErrorDetailsV::Service { service }), j)),
                    None => match parse_keyed_at(s, i, "{\"tournament_id\":"@) {
                        Some((tournament_id, j)) => Some(
                            (Some(ErrorDetailsV::Tournament { tournament_id }), j),
                        ),
                        None => match parse_keyed_at(s, i, "{\"user_id\":"@) {
                            Some((user_id, j)) => Some(
                                (Some(ErrorDetailsV::User { user_id }), j),
                            ),
                            None => None,
                        },
                    },
                },
            },
        },
    }
}

/// Parse a whole rendered error body; the input must be consumed exactly.
pub open spec fn parse_response_json(s: Seq<char>) -> Option<ApiErrorResponseV> {
    match expect_at(s, 0, "{\"success\":"@) {
        Some(i1) => match parse_bool_at(s, i1) {
            Some((success, i2)) => match expect_at(s, i2, ",\"message\":"@) {
                Some(i3) => match parse_string_at(s, i3) {
                    Some((message, i4)) => match expect_at(s, i4, ",\"error_code\":"@) {
                        Some(i5) => match parse_string_at(s, i5) {
                            Some((error_code, i6)) => match expect_at(s, i6, ",\"details\":"@) {
                                Some(i7) => match parse_details_at(s, i7) {
                                    Some((details, i8)) => match expect_at(
                                        s,
                                        i8,
                                        ",\"request_id\":"@,
                                    ) {
                                        Some(i9) => match parse_opt_string_at(s, i9) {
                                            Some((request_id, i10)) => match expect_at(
                                                s,
                                                i10,
                                                "}"@,
                                            ) {
                                                Some(i11) => if i11 == s.len() {
                                                    Some(
                                                        ApiErrorResponseV {
                                                            success,
                                                            message,
                                                            error_code,
                                                            details,
                                                            request_id,
                                                        },
                                                    )
                                                } else {
                                                    None
                                                },
                                                None => None,
                                            },
                                            None => None,
                                        },
                                        None => None,
                                    },
                                    None => None,
                                },
                                None => None,
                            },
                            None => None,
                        },
                        None => None,
                    },
                    None => None,
                },
                None => None,
            },
            None => None,
        },
        None => None,
    }
}

/// Parsing a rendered, escaped string (followed by its closing quote) gives
/// back exactly the string that was escaped.
proof fn lemma_string_body_complete(s: Seq<char>, i: int, m: Seq<char>)
    requires
        0 <= i,
        i + escape(m).len() + 1 <= s.len(),
        s.subrange(i, i + escape(m).len() + 1) == escape(m) + seq!['"'],
    ensures
        parse_string_body(s, i) == Some((m, i + escape(m).len() + 1)),
    decreases m.len(),
{
    let e_all = escape(m);
    let seg = e_all + seq!['"'];
    let j = i + e_all.len() + 1;
    assert(seg.len() == j - i);
    assert forall|k: int| 0 <= k < seg.len() implies s[i + k] == seg[k] by {
        assert(s.subrange(i, j)[k] == s[i + k]);
    }
    if m.len() == 0 {
        assert(e_all =~= Seq::<char>::empty());
        assert(s[i + 0] == seg[0]);
        assert(s[i] == '"');
        assert(m =~= Seq::<char>::empty());
    } else {
        let c = m[0];
        let e = esc_char(c);
        let tail = m.drop_first();
        assert(e_all == e + escape(tail));
        assert(1 <= e.len() <= 6);
        let i2 = i + e.len();
        assert forall|k: int| 0 <= k < e.len() implies s[i + k] == e[k] by {
            assert(seg[k] == e[k]);
        }
        assert(s.subrange(i2, j) =~= escape(tail) + seq!['"']) by {
            assert forall|k: int| 0 <= k < j - i2 implies s.subrange(i2, j)[k] == (escape(tail)
                + seq!['"'])[k] by {
                assert(s.subrange(i2, j)[k] == s[i2 + k]);
                assert(s[i2 + k] == seg[e.len() + k]);
            }
        }
        lemma_string_body_complete(s, i2, tail);
        assert(parse_string_body(s, i2) == Some((tail, j)));
        if c == '"' {
            assert(s[i + 0] == e[0] && s[i + 1] == e[1]);
            assert(s[i] == '\\' && s[i + 1] == '"');
            assert(parse_string_body(s, i) == Some((seq![s[i + 1]] + tail, j)));
            assert(seq![s[i + 1]] + tail =~= m);
        } else if c == '\\' {
            assert(s[i + 0] == e[0] && s[i + 1] == e[1]);
            assert(s[i] == '\\' && s[i + 1] == '\\');
            assert(parse_string_body(s, i) == Some((seq![s[i + 1]] + tail, j)));
            assert(seq![s[i + 1]] + tail =~= m);
        } else if (c as nat) < 32 {
            let h = (c as nat) / 16;
            let l = (c as nat) % 16;
            assert(h < 16 && l < 16);
            lemma_hex_val_inverse(h);
            lemma_hex_val_inverse(l);
            assert(s[i + 0] == e[0] && s[i + 1] == e[1] && s[i + 2] == e[2] && s[i + 3] == e[3]
                && s[i + 4] == e[4] && s[i + 5] == e[5]);
            assert(s[i] == '\\' && s[i + 1] == 'u' && s[i + 2] == '0' && s[i + 3] == '0');
            assert(s[i + 4] == hex_digit(h) && s[i + 5] == hex_digit(l));
            assert(hex_val(s[i + 4]) == Some(h) && hex_val(s[i + 5]) == Some(l));
            let code = 16 * h + l;
            assert(code == c as nat);
            assert(code < 32);
            let u: u32 = c as u32;
            vstd::utf8::char_u32_cast(c, u);
            assert(code as u32 == u);
            assert(((code as u32) as char) == c);
            assert(parse_string_body(s, i) == Some((seq![(code as u32) as char] + tail, j)));
            assert(seq![(code as u32) as char] + tail =~= m);
        } else {
            assert(s[i + 0] == e[0]);
            assert(s[i] == c);
            assert(parse_string_body(s, i) == Some((seq![s[i]] + tail, j)));
            assert(seq![s[i]] + tail =~= m);
        }
    }
}

/// Parsing a rendered JSON string literal gives back the rendered string.
proof fn lemma_parse_string_complete(s: Seq<char>, i: int, v: Seq<char>)
    requires
        0 <= i,
        i + json_string(v).len() <= s.len(),
        s.subrange(i, i + json_string(v).len()) == json_string(v),
    ensures
        parse_string_at(s, i) == Some((v, i + json_string(v).len())),
{
    let lit = json_string(v);
    let j = i + lit.len();
    assert forall|k: int| 0 <= k < lit.len() implies s[i + k] == lit[k] by {
        assert(s.subrange(i, j)[k] == s[i + k]);
    }
    assert(s[i + 0] == lit[0]);
    assert(s[i] == '"');
    assert(s.subrange(i + 1, j) =~= escape(v) + seq!['"']) by {
        assert forall|k: int| 0 <= k < j - i - 1 implies s.subrange(i + 1, j)[k] == (escape(v)
            + seq!['"'])[k] by {
            assert(s.subrange(i + 1, j)[k] == s[i + 1 + k]);
            assert(s[i + 1 + k] == lit[1 + k]);
        }
    }
    lemma_string_body_complete(s, i + 1, v);
}

/// Parsing a rendered JSON boolean gives back the rendered value.
proof fn lemma_parse_bool_complete(s: Seq<char>, i: int, b: bool)
    requires
        0 <= i,
        i + json_bool(b).len() <= s.len(),
        s.subrange(i, i + json_bool(b).len()) == json_bool(b),
    ensures
        parse_bool_at(s, i) == Some((b, i + json_bool(b).len())),
{
    reveal_strlit("true");
    reveal_strlit("false");
    let lit = json_bool(b);
    let j = i + lit.len();
    assert forall|k: int| 0 <= k < lit.len() implies s[i + k] == lit[k] by {
        assert(s.subrange(i, j)[k] == s[i + k]);
    }
    if b {
        assert(s.subrange(i, i + 4) =~= "true"@) by {
            assert forall|k: int| 0 <= k < 4 implies s.subrange(i, i + 4)[k] == "true"@[k] by {
                assert(s.subrange(i, i + 4)[k] == s[i + k]);
            }
        }
    } else {
        assert(s[i + 0] == lit[0]);
        assert(expect_at(s, i, "true"@) is None) by {
            if expect_at(s, i, "true"@) is Some {
                assert(s.subrange(i, i + 4)[0] == s[i]);
                assert(s[i] == 'f');
                assert(false);
            }
        }
        assert(s.subrange(i, i + 5) =~= "false"@) by {
            assert forall|k: int| 0 <= k < 5 implies s.subrange(i, i + 5)[k] == "false"@[k] by {
                assert(s.subrange(i, i + 5)[k] == s[i + k]);
            }
        }
    }
}

/// Parsing a rendered optional string gives back the rendered value.
proof fn lemma_parse_opt_string_complete(s: Seq<char>, i: int, o: Option<Seq<char>>)
    requires
        0 <= i,
        i + json_opt_string(o).len() <= s.len(),
        s.subrange(i, i + json_opt_string(o).len()) == json_opt_string(o),
    ensures
        parse_opt_string_at(s, i) == Some((o, i + json_opt_string(o).len())),
{
    reveal_strlit("null");
    let lit = json_opt_string(o);
    let j = i + lit.len();
    assert forall|k: int| 0 <= k < lit.len() implies s[i + k] == lit[k] by {
        assert(s.subrange(i, j)[k] == s[i + k]);
    }
    match o {
        None => {
            assert(s.subrange(i, i + 4) =~= "null"@) by {
                assert forall|k: int| 0 <= k < 4 implies s.subrange(i, i + 4)[k] == "null"@[k] by {
                    assert(s.subrange(i, i + 4)[k] == s[i + k]);
                }
            }
        },
        Some(v) => {
            assert(s[i + 0] == lit[0]);
            assert(s[i] == '"');
            assert(expect_at(s, i, "null"@) is None) by {
                if expect_at(s, i, "null"@) is Some {
                    assert(s.subrange(i, i + 4)[0] == s[i]);
                    assert(false);
                }
            }
            lemma_parse_string_complete(s, i, v);
        },
    }
}

/// Parsing a rendered one-key details object gives back the rendered value.
proof fn lemma_parse_keyed_complete(s: Seq<char>, i: int, key: Seq<char>, v: Seq<char>)
    requires
        0 <= i,
        "}"@.len() == 1,
        i + key.len() + json_string(v).len() + 1 <= s.len(),
        s.subrange(i, i + key.len() + json_string(v).len() + 1) == key + json_string(v) + "}"@,
    ensures
        parse_keyed_at(s, i, key) == Some((v, i + key.len() + json_string(v).len() + 1)),
{
    reveal_strlit("}");
    let seg = key + json_string(v) + "}"@;
    let l = key.len() + json_string(v).len() + 1;
    assert(seg.len() == l);
    assert forall|k: int| 0 <= k < l implies s[i + k] == seg[k] by {
        assert(s.subrange(i, i + l)[k] == s[i + k]);
    }
    assert(s.subrange(i, i + key.len() as int) =~= key) by {
        assert forall|k: int| 0 <= k < key.len() implies s.subrange(i, i + key.len() as int)[k]
            == key[k] by {
            assert(s.subrange(i, i + key.len() as int)[k] == s[i + k]);
        }
    }
    let j = i + key.len();
    assert(s.subrange(j, j + json_string(v).len() as int) =~= json_string(v)) by {
        assert forall|k: int| 0 <= k < json_string(v).len() implies s.subrange(
            j,
            j + json_string(v).len() as int,
        )[k] == json_string(v)[k] by {
            assert(s.subrange(j, j + json_string(v).len() as int)[k] == s[j + k]);
            assert(s[j + k] == seg[key.len() + k]);
        }
    }
    lemma_parse_string_complete(s, j, v);
    let k2 = j + json_string(v).len();
    assert(s.subrange(k2, k2 + 1) =~= "}"@) by {
        assert(s.subrange(k2, k2 + 1)[0] == s[k2 + 0]);
        assert(s[k2 + 0] == seg[key.len() + json_string(v).len() as int]);
    }
}

/// Parsing a rendered resource details object gives back both rendered
/// values.
proof fn lemma_parse_resource_complete(s: Seq<char>, i: int, resource: Seq<char>, id: Seq<char>)
    requires
        0 <= i,
        i + json_details(ErrorDetailsV::Resource { resource, id }).len() <= s.len(),
        s.subrange(i, i + json_details(ErrorDetailsV::Resource { resource, id }).len())
            == json_details(ErrorDetailsV::Resource { resource, id }),
    ensures
        parse_resource_at(s, i) == Some(
            ((resource, id), i + json_details(ErrorDetailsV::Resource { resource, id }).len()),
        ),
{
    reveal_strlit("{\"resource\":");
    reveal_strlit(",\"id\":");
    reveal_strlit("}");
    let k1 = "{\"resource\":"@;
    let k2 = ",\"id\":"@;
    let a1 = k1 + json_string(resource);
    let a2 = a1 + k2;
    let a3 = a2 + json_string(id);
    let seg = json_details(ErrorDetailsV::Resource { resource, id });
    let l = seg.len();
    assert(seg == a3 + "}"@);
    assert forall|k: int| 0 <= k < l implies s[i + k] == seg[k] by {
        assert(s.subrange(i, i + l)[k] == s[i + k]);
    }
    let p1 = i + k1.len();
    let p2 = p1 + json_string(resource).len();
    let p3 = p2 + k2.len();
    let p4 = p3 + json_string(id).len();
    assert(s.subrange(i, p1) =~= k1) by {
        assert forall|k: int| 0 <= k < k1.len() implies s.subrange(i, p1)[k] == k1[k] by {
            assert(s.subrange(i, p1)[k] == s[i + k]);
            assert(seg[k] == a3[k]);
            assert(a3[k] == a2[k]);
            assert(a2[k] == a1[k]);
            assert(a1[k] == k1[k]);
        }
    }
    assert(s.subrange(p1, p2) =~= json_string(resource)) by {
        assert forall|k: int| 0 <= k < json_string(resource).len() implies s.subrange(p1, p2)[k]
            == json_string(resource)[k] by {
            assert(s.subrange(p1, p2)[k] == s[i + (k1.len() + k)]);
            assert(seg[k1.len() + k] == a3[k1.len() + k]);
            assert(a3[k1.len() + k] == a2[k1.len() + k]);
            assert(a2[k1.len() + k] == a1[k1.len() + k]);
            assert(a1[k1.len() + k] == json_string(resource)[k]);
        }
    }
    lemma_parse_string_complete(s, p1, resource);
    assert(s.subrange(p2, p3) =~= k2) by {
        assert forall|k: int| 0 <= k < k2.len() implies s.subrange(p2, p3)[k] == k2[k] by {
            assert(s.subrange(p2, p3)[k] == s[i + (a1.len() + k)]);
            assert(seg[a1.len() + k] == a3[a1.len() + k]);
            assert(a3[a1.len() + k] == a2[a1.len() + k]);
            assert(a2[a1.len() + k] == k2[k]);
        }
    }
    assert(s.subrange(p3, p4) =~= json_string(id)) by {
        assert forall|k: int| 0 <= k < json_string(id).len() implies s.subrange(p3, p4)[k]
            == json_string(id)[k] by {
            assert(s.subrange(p3, p4)[k] == s[i + (a2.len() + k)]);
            assert(seg[a2.len() + k] == a3[a2.len() + k]);
            assert(a3[a2.len() + k] == json_string(id)[k]);
        }
    }
    lemma_parse_string_complete(s, p3, id);
    assert(s.subrange(p4, p4 + 1) =~= "}"@) by {
        assert(s.subrange(p4, p4 + 1)[0] == s[i + a3.len()]);
        assert(seg[a3.len() as int] == "}"@[0]);
    }
}

/// Parsing a rendered details payload gives back the rendered value.
proof fn lemma_parse_details_complete(s: Seq<char>, i: int, o: Option<ErrorDetailsV>)
    requires
        0 <= i,
        i + json_opt_details(o).len() <= s.len(),
        s.subrange(i, i + json_opt_details(o).len()) == json_opt_details(o),
    ensures
        parse_details_at(s, i) == Some((o, i + json_opt_details(o).len())),
{
    reveal_strlit("null");
    reveal_strlit("{\"field\":");
    reveal_strlit("{\"resource\":");
    reveal_strlit("{\"service\":");
    reveal_strlit("{\"tournament_id\":");
    reveal_strlit("{\"user_id\":");
    reveal_strlit("}");
    let lit = json_opt_details(o);
    let l = lit.len();
    assert forall|k: int| 0 <= k < l implies s[i + k] == lit[k] by {
        assert(s.subrange(i, i + l)[k] == s[i + k]);
    }
    match o {
        None => {
            assert(s.subrange(i, i + 4) =~= "null"@) by {
                assert forall|k: int| 0 <= k < 4 implies s.subrange(i, i + 4)[k] == "null"@[k] by {
                    assert(s.subrange(i, i + 4)[k] == s[i + k]);
                }
            }
        },
        Some(d) => {
            assert(s[i + 0] == lit[0]);
            assert(s[i + 2] == lit[2]);
            assert(lit[0] == '{');
            assert(expect_at(s, i, "null"@) is None) by {
                if expect_at(s, i, "null"@) is Some {
                    assert(s.subrange(i, i + 4)[0] == s[i]);
                    assert(false);
                }
            }
            match d {
                ErrorDetailsV::Field { field } => {
                    lemma_parse_keyed_complete(s, i, "{\"field\":"@, field);
                },
                ErrorDetailsV::Resource { resource, id } => {
                    assert(lit[2] == 'r');
                    assert(parse_keyed_at(s, i, "{\"field\":"@) is None) by {
                        if expect_at(s, i, "{\"field\":"@) is Some {
                            assert(s.subrange(i, i + 9)[2] == s[i + 2]);
                            assert(false);
                        }
                    }
                    lemma_parse_resource_complete(s, i, resource, id);
                },
                ErrorDetailsV::Service { service } => {
                    assert(lit[2] == 's');
                    assert(parse_keyed_at(s, i, "{\"field\":"@) is None) by {
                        if expect_at(s, i, "{\"field\":"@) is Some {
                            assert(s.subrange(i, i + 9)[2] == s[i + 2]);
                            assert(false);
                        }
                    }
                    assert(parse_resource_at(s, i) is None) by {
                        if expect_at(s, i, "{\"resource\":"@) is Some {
                            assert(s.subrange(i, i + 12)[2] == s[i + 2]);
                            assert(false);
                        }
                    }
                    lemma_parse_keyed_complete(s, i, "{\"service\":"@, service);
                },
                ErrorDetailsV::Tournament { tournament_id } => {
                    assert(lit[2] == 't');
                    assert(parse_keyed_at(s, i, "{\"field\":"@) is None) by {
                        if expect_at(s, i, "{\"field\":"@) is Some {
                            assert(s.subrange(i, i + 9)[2] == s[i + 2]);
                            assert(false);
                        }
                    }
                    assert(parse_resource_at(s, i) is None) by {
                        if expect_at(s, i, "{\"resource\":"@) is Some {
                            assert(s.subrange(i, i + 12)[2] == s[i + 2]);
                            assert(false);
                        }
                    }
                    assert(parse_keyed_at(s, i, "{\"service\":"@) is None) by {
                        if expect_at(s, i, "{\"service\":"@) is Some {
                            assert(s.subrange(i, i + 11)[2] == s[i + 2]);
                            assert(false);
                        }
                    }
                    lemma_parse_keyed_complete(s, i, "{\"tournament_id\":"@, tournament_id);
                },
                ErrorDetailsV::User { user_id } => {
                    assert(lit[2] == 'u');
                    assert(parse_keyed_at(s, i, "{\"field\":"@) is None) by {
                        if expect_at(s, i, "{\"field\":"@) is Some {
                            assert(s.subrange(i, i + 9)[2] == s[i + 2]);
                            assert(false);
                        }
                    }
                    assert(parse_resource_at(s, i) is None) by {
                        if expect_at(s, i, "{\"resource\":"@) is Some {
                            assert(s.subrange(i, i + 12)[2] == s[i + 2]);
                            assert(false);
                        }
                    }
                    assert(parse_keyed_at(s, i, "{\"service\":"@) is None) by {
                        if expect_at(s, i, "{\"service\":"@) is Some {
                            assert(s.subrange(i, i + 11)[2] == s[i + 2]);
                            assert(false);
                        }
                    }
                    assert(parse_keyed_at(s, i, "{\"tournament_id\":"@) is None) by {
                        if expect_at(s, i, "{\"tournament_id\":"@) is Some {
                            assert(s.subrange(i, i + 17)[2] == s[i + 2]);
                            assert(false);
                        }
                    }
                    lemma_parse_keyed_complete(s, i, "{\"user_id\":"@, user_id);
                },
            }
        },
    }
}

/// The round-trip law: parsing the canonical JSON rendering of any error
/// body gives back exactly the body that was rendered, whatever its strings
/// and payload hold.
#[verifier::rlimit(50)]
pub proof fn lemma_response_roundtrip(r: ApiErrorResponseV)
    ensures
        parse_response_json(response_json(r)) == Some(r),
{
    reveal_strlit("{\"success\":");
    reveal_strlit(",\"message\":");
    reveal_strlit(",\"error_code\":");
    reveal_strlit(",\"details\":");
    reveal_strlit(",\"request_id\":");
    reveal_strlit("}");
    let s = response_json(r);
    let l1 = "{\"success\":"@;
    let b = json_bool(r.success);
    let l2 = ",\"message\":"@;
    let m = json_string(r.message);
    let l3 = ",\"error_code\":"@;
    let ec = json_string(r.error_code);
    let l4 = ",\"details\":"@;
    let dt = json_opt_details(r.details);
    let l5 = ",\"request_id\":"@;
    let rid = json_opt_string(r.request_id);
    let l6 = "}"@;
    let p1 = l1.len() as int;
    let p2 = p1 + b.len();
    let p3 = p2 + l2.len();
    let p4 = p3 + m.len();
    let p5 = p4 + l3.len();
    let p6 = p5 + ec.len();
    let p7 = p6 + l4.len();
    let p8 = p7 + dt.len();
    let p9 = p8 + l5.len();
    let p10 = p9 + rid.len();
    let p11 = p10 + l6.len();
    assert(s.len() == p11);
    assert(s.subrange(0, p1) =~= l1);
    assert(s.subrange(p1, p2) =~= b);
    assert(s.subrange(p2, p3) =~= l2);
    assert(s.subrange(p3, p4) =~= m);
    assert(s.subrange(p4, p5) =~= l3);
    assert(s.subrange(p5, p6) =~= ec);
    assert(s.subrange(p6, p7) =~= l4);
    assert(s.subrange(p7, p8) =~= dt);
    assert(s.subrange(p8, p9) =~= l5);
    assert(s.subrange(p9, p10) =~= rid);
    assert(s.subrange(p10, p11) =~= l6);
    assert(expect_at(s, 0, l1) == Some(p1));
    lemma_parse_bool_complete(s, p1, r.success);
    assert(expect_at(s, p2, l2) == Some(p3));
    lemma_parse_string_complete(s, p3, r.message);
    assert(expect_at(s, p4, l3) == Some(p5));
    lemma_parse_string_complete(s, p5, r.error_code);
    assert(expect_at(s, p6, l4) == Some(p7));
    lemma_parse_details_complete(s, p7, r.details);
    assert(expect_at(s, p8, l5) == Some(p9));
    lemma_parse_opt_string_complete(s, p9, r.request_id);
    assert(expect_at(s, p10, l6) == Some(p11));
    assert(parse_response_json(s) == Some(
        ApiErrorResponseV {
            success: r.success,
            message: r.message,
            error_code: r.error_code,
            details: r.details,
            request_id: r.request_id,
        },
    ));
}

/// A one-character string slice for the hexadecimal digit `d`.
fn hex_digit_str(d: u32) -> (r: &'static str)
    requires
        d < 16,
    ensures
        r@ == seq![hex_digit(d as nat)],
{
    proof {
        reveal_strlit("0");
        reveal_strlit("1");
        reveal_strlit("2");
        reveal_strlit("3");
        reveal_strlit("4");
        reveal_strlit("5");
        reveal_strlit("6");
        reveal_strlit("7");
        reveal_strlit("8");
        reveal_strlit("9");
        reveal_strlit("a");
        reveal_strlit("b");
        reveal_strlit("c");
        reveal_strlit("d");
        reveal_strlit("e");
        reveal_strlit("f");
    }
    let r = match d {
        0 => "0",
        1 => "1",
        2 => "2",
        3 => "3",
        4 => "4",
        5 => "5",
        6 => "6",
        7 => "7",
        8 => "8",
        9 => "9",
        10 => "a",
        11 => "b",
        12 => "c",
        13 => "d",
        14 => "e",
        _ => "f",
    };
    assert(r@ =~= seq![hex_digit(d as nat)]);
    r
}

/// Appends the JSON escape of `s` to `out`.
fn append_escaped(out: &mut String, s: &str)
    ensures
        final(out)@ == old(out)@ + escape(s@),
{
    let len = s.unicode_len();
    let mut i: usize = 0;
    while i < len
        invariant
            len == s@.len(),
            i <= len,
            out@ == old(out)@ + escape(s@.subrange(0, i as int)),
        decreases len - i,
    {
        let c = s.get_char(i);
        if c == '"' {
            out.append("\\\"");
            proof {
                reveal_strlit("\\\"");
                assert("\\\""@ =~= esc_char(c));
            }
        } else if c == '\\' {
            out.append("\\\\");
            proof {
                reveal_strlit("\\\\");
                assert("\\\\"@ =~= esc_char(c));
            }
        } else {
            let code = c as u32;
            if code < 32 {
                out.append("\\u00");
                out.append(hex_digit_str(code / 16));
                out.append(hex_digit_str(code % 16));
                proof {
                    reveal_strlit("\\u00");
                    assert("\\u00"@ + seq![hex_digit((code / 16) as nat)] + seq![
                        hex_digit((code % 16) as nat)
                    ] =~= esc_char(c));
                }
            } else {
                push_char(out, c);
                proof {
                    assert(old(out)@ + escape(s@.subrange(0, i as int)).push(c) =~= old(out)@
                        + (escape(s@.subrange(0, i as int)) + esc_char(c)));
                }
            }
        }
        proof {
            let prefix = s@.subrange(0, i as int);
            let next = s@.subrange(0, i + 1);
            assert(next =~= prefix + seq![c]);
            lemma_escape_distributes(prefix, seq![c]);
            assert(seq![c].drop_first() =~= Seq::<char>::empty());
            assert(escape(Seq::<char>::empty()) =~= Seq::<char>::empty());
            assert(escape(seq![c]) =~= esc_char(c) + escape(Seq::<char>::empty()));
            assert(escape(seq![c]) =~= esc_char(c));
            assert(out@ == old(out)@ + escape(next));
        }
        i += 1;
    }
    proof {
        assert(s@.subrange(0, len as int) =~= s@);
    }
}

/// Appends the JSON string literal for `s` to `out`.
fn append_json_string(out: &mut String, s: &str)
    ensures
        final(out)@ == old(out)@ + json_string(s@),
{
    out.append("\"");
    append_escaped(out, s);
    out.append("\"");
    proof {
        reveal_strlit("\"");
        assert("\""@ =~= seq!['"']);
        assert(out@ =~= old(out)@ + json_string(s@));
    }
}

/// Appends the JSON object for a details payload, or `null`, to `out`.
fn append_details(out: &mut String, details: &Option<ErrorDetails>)
    ensures
        final(out)@ == old(out)@ + json_opt_details(
            match details {
                Some(d) => Some(d@),
                None => None,
            },
        ),
{
    match details {
        None => {
            out.append("null");
        },
        Some(d) => {
            match d {
                ErrorDetails::Field { field } => {
                    out.append("{\"field\":");
                    append_json_string(out, field.as_str());
                    out.append("}");
                },
                ErrorDetails::Resource { resource, id } => {
                    out.append("{\"resource\":");
                    append_json_string(out, resource.as_str());
                    out.append(",\"id\":");
                    append_json_string(out, id.as_str());
                    out.append("}");
                },
                ErrorDetails::Service { service } => {
                    out.append("{\"service\":");
                    append_json_string(out, service.as_str());
                    out.append("}");
                },
                ErrorDetails::Tournament { tournament_id } => {
                    out.append("{\"tournament_id\":");
                    append_json_string(out, tournament_id.as_str());
                    out.append("}");
                },
                ErrorDetails::User { user_id } => {
                    out.append("{\"user_id\":");
                    append_json_string(out, user_id.as_str());
                    out.append("}");
                },
            }
            proof {
                assert(out@ =~= old(out)@ + json_details(details->Some_0@));
            }
        },
    }
}

/// Appends a JSON string literal, or `null`, to `out`.
fn append_opt_string(out: &mut String, value: &Option<String>)
    ensures
        final(out)@ == old(out)@ + json_opt_string(
            match value {
                Some(v) => Some(v@),
                None => None,
            },
        ),
{
    match value {
        None => {
            out.append("null");
        },
        Some(v) => {
            append_json_string(out, v.as_str());
        },
    }
}

/// Prefixes `p` onto the content of a successful parse.
spec fn prepend_parsed(p: Seq<char>, o: Option<(Seq<char>, int)>) -> Option<(Seq<char>, int)> {
    match o {
        Some((rest, j)) => Some((p + rest, j)),
        None => None,
    }
}

/// Prefixing distributes over composition.
proof fn lemma_prepend_assoc(a: Seq<char>, b: Seq<char>, o: Option<(Seq<char>, int)>)
    ensures
        prepend_parsed(a + b, o) == prepend_parsed(a, prepend_parsed(b, o)),
{
    match o {
        Some((rest, j)) => {
            assert((a + b) + rest =~= a + (b + rest));
        },
        None => {},
    }
}

/// The numeric value of a lowercase hexadecimal digit character.
fn hex_val_exec(c: char) -> (r: Option<u32>)
    ensures
        match r {
            Some(v) => hex_val(c) == Some(v as nat) && v < 16,
            None => hex_val(c) is None,
        },
{
    if c == '0' {
        Some(0)
    } else if c == '1' {
        Some(1)
    } else if c == '2' {
        Some(2)
    } else if c == '3' {
        Some(3)
    } else if c == '4' {
        Some(4)
    } else if c == '5' {
        Some(5)
    } else if c == '6' {
        Some(6)
    } else if c == '7' {
        Some(7)
    } else if c == '8' {
        Some(8)
    } else if c == '9' {
        Some(9)
    } else if c == 'a' {
        Some(10)
    } else if c == 'b' {
        Some(11)
    } else if c == 'c' {
        Some(12)
    } else if c == 'd' {
        Some(13)
    } else if c == 'e' {
        Some(14)
    } else if c == 'f' {
        Some(15)
    } else {
        None
    }
}

/// The control character with code point `code`.
fn ctrl_char_of(code: u32) -> (r: char)
    requires
        code < 32,
    ensures
        r == (code as char),
{
    match code {
        0 => '\u{00}',
        1 => '\u{01}',
        2 => '\u{02}',
        3 => '\u{03}',
        4 => '\u{04}',
        5 => '\u{05}',
        6 => '\u{06}',
        7 => '\u{07}',
        8 => '\u{08}',
        9 => '\u{09}',
        10 => '\u{0a}',
        11 => '\u{0b}',
        12 => '\u{0c}',
        13 => '\u{0d}',
        14 => '\u{0e}',
        15 => '\u{0f}',
        16 => '\u{10}',
        17 => '\u{11}',
        18 => '\u{12}',
        19 => '\u{13}',
        20 => '\u{14}',
        21 => '\u{15}',
        22 => '\u{16}',
        23 => '\u{17}',
        24 => '\u{18}',
        25 => '\u{19}',
        26 => '\u{1a}',
        27 => '\u{1b}',
        28 => '\u{1c}',
        29 => '\u{1d}',
        30 => '\u{1e}',
        _ => '\u{1f}',
    }
}

/// Whether `lit` stands at position `i` of `s`; on success, the position
/// after it.
fn expect_lit(s: &str, i: usize, lit: &str) -> (r: Option<usize>)
    ensures
        match r {
            Some(j) => expect_at(s@, i as int, lit@) == Some(j as int) && j <= s@.len(),
            None => expect_at(s@, i as int, lit@) is None,
        },
{
    let s_len = s.unicode_len();
    let lit_len = lit.unicode_len();
    if lit_len > s_len || i > s_len - lit_len {
        return None;
    }
    let mut k: usize = 0;
    while k < lit_len
        invariant
            s_len == s@.len(),
            lit_len == lit@.len(),
            i + lit_len <= s_len,
            k <= lit_len,
            forall|t: int| 0 <= t < k ==> s@[i + t] == lit@[t],
        decreases lit_len - k,
    {
        if s.get_char(i + k) != lit.get_char(k) {
            assert(s@.subrange(i as int, i + lit@.len() as int) != lit@) by {
                assert(s@.subrange(i as int, i + lit@.len() as int)[k as int] == s@[i + k]);
            }
            return None;
        }
        k += 1;
    }
    assert(s@.subrange(i as int, i + lit@.len() as int) =~= lit@) by {
        assert forall|t: int| 0 <= t < lit@.len() implies s@.subrange(
            i as int,
            i + lit@.len() as int,
        )[t] == lit@[t] by {
            assert(s@.subrange(i as int, i + lit@.len() as int)[t] == s@[i + t]);
        }
    }
    Some(i + lit_len)
}

/// Parse a JSON boolean literal at `i`.
fn parse_bool_exec(s: &str, i: usize) -> (r: Option<(bool, usize)>)
    ensures
        match r {
            Some((b, j)) => parse_bool_at(s@, i as int) == Some((b, j as int)) && j <= s@.len(),
            None => parse_bool_at(s@, i as int) is None,
        },
{
    match expect_lit(s, i, "true") {
        Some(j) => Some((true, j)),
        None => match expect_lit(s, i, "false") {
            Some(j) => Some((false, j)),
            None => None,
        },
    }
}

/// Parse a JSON string literal at `i`, decoding the canonical escapes.
fn parse_string_exec(s: &str, i: usize) -> (r: Option<(String, usize)>)
    ensures
        match r {
            Some((v, j)) => parse_string_at(s@, i as int) == Some((v@, j as int)) && j <= s@.len(),
            None => parse_string_at(s@, i as int) is None,
        },
{
    let s_len = s.unicode_len();
    if i >= s_len {
        return None;
    }
    if s.get_char(i) != '"' {
        return None;
    }
    let mut acc = String::new();
    let mut cur: usize = i + 1;
    while cur < s_len
        invariant
            s_len == s@.len(),
            i < s_len,
            s@[i as int] == '"',
            i < cur <= s_len,
            parse_string_at(s@, i as int) == prepend_parsed(
                acc@,
                parse_string_body(s@, cur as int),
            ),
        decreases s_len - cur,
    {
        let ghost acc0 = acc@;
        let ghost cur0 = cur as int;
        let c = s.get_char(cur);
        if c == '"' {
            assert(parse_string_body(s@, cur as int) == Some(
                (Seq::<char>::empty(), cur + 1 as int),
            ));
            assert(acc@ + Seq::<char>::empty() =~= acc@);
            return Some((acc, cur + 1));
        } else if c == '\\' {
            if cur + 1 >= s_len {
                return None;
            }
            let c2 = s.get_char(cur + 1);
            if c2 == '"' || c2 == '\\' {
                push_char(&mut acc, c2);
                cur = cur + 2;
                proof {
                    assert(parse_string_body(s@, cur0) == prepend_parsed(
                        seq![c2],
                        parse_string_body(s@, cur as int),
                    ));
                    lemma_prepend_assoc(acc0, seq![c2], parse_string_body(s@, cur as int));
                    assert(acc@ =~= acc0 + seq![c2]);
                }
            } else if c2 == 'u' {
                if s_len - cur < 6 {
                    return None;
                }
                if s.get_char(cur + 2) != '0' || s.get_char(cur + 3) != '0' {
                    return None;
                }
                let h = match hex_val_exec(s.get_char(cur + 4)) {
                    Some(h) => h,
                    None => {
                        return None;
                    },
                };
                let l = match hex_val_exec(s.get_char(cur + 5)) {
                    Some(l) => l,
                    None => {
                        return None;
                    },
                };
                let code = 16 * h + l;
                if code >= 32 {
                    return None;
                }
                let ch = ctrl_char_of(code);
                push_char(&mut acc, ch);
                cur = cur + 6;
                proof {
                    assert(parse_string_body(s@, cur0) == prepend_parsed(
                        seq![ch],
                        parse_string_body(s@, cur as int),
                    ));
                    lemma_prepend_assoc(acc0, seq![ch], parse_string_body(s@, cur as int));
                    assert(acc@ =~= acc0 + seq![ch]);
                }
            } else {
                return None;
            }
        } else {
            let cu = c as u32;
            if cu < 32 {
                return None;
            }
            push_char(&mut acc, c);
            cur = cur + 1;
            proof {
                assert(parse_string_body(s@, cur0) == prepend_parsed(
                    seq![c],
                    parse_string_body(s@, cur as int),
                ));
                lemma_prepend_assoc(acc0, seq![c], parse_string_body(s@, cur as int));
                assert(acc@ =~= acc0 + seq![c]);
            }
        }
    }
    None
}

/// Parse a JSON string literal or `null` at `i`.
fn parse_opt_string_exec(s: &str, i: usize) -> (r: Option<(Option<String>, usize)>)
    ensures
        match r {
            Some((v, j)) => parse_opt_string_at(s@, i as int) == Some(
                (
                    match v {
                        Some(vs) => Some(vs@),
                        None => None,
                    },
                    j as int,
                ),
            ) && j <= s@.len(),
            None => parse_opt_string_at(s@, i as int) is None,
        },
{
    match expect_lit(s, i, "null") {
        Some(j) => Some((None, j)),
        None => match parse_string_exec(s, i) {
            Some((v, j)) => Some((Some(v), j)),
            None => None,
        },
    }
}

/// Parse a one-key details object at `i`.
fn parse_keyed_exec(s: &str, i: usize, key: &str) -> (r: Option<(String, usize)>)
    ensures
        match r {
            Some((v, j)) => parse_keyed_at(s@, i as int, key@) == Some((v@, j as int)) && j
                <= s@.len(),
            None => parse_keyed_at(s@, i as int, key@) is None,
        },
{
    match expect_lit(s, i, key) {
        Some(j) => match parse_string_exec(s, j) {
            Some((v, k)) => match expect_lit(s, k, "}") {
                Some(m) => Some((v, m)),
                None => None,
            },
            None => None,
        },
        None => None,
    }
}

/// Parse a details payload or `null` at `i`.
fn parse_details_exec(s: &str, i: usize) -> (r: Option<(Option<ErrorDetails>, usize)>)
    ensures
        match r {
            Some((d, j)) => parse_details_at(s@, i as int) == Some(
                (
                    match d {
                        Some(dd) => Some(dd@),
                        None => None,
                    },
                    j as int,
                ),
            ) && j <= s@.len(),
            None => parse_details_at(s@, i as int) is None,
        },
{
    match expect_lit(s, i, "null") {
        Some(j) => {
            return Some((None, j));
        },
        None => {},
    }
    match parse_keyed_exec(s, i, "{\"field\":") {
        Some((field, j)) => {
            return Some((Some(ErrorDetails::Field { field }), j));
        },
        None => {},
    }
    match parse_resource_exec(s, i) {
        Some((resource, id, j)) => {
            return Some((Some(ErrorDetails::Resource { resource, id }), j));
        },
        None => {},
    }
    match parse_keyed_exec(s, i, "{\"service\":") {
        Some((service, j)) => {
            return Some((Some(ErrorDetails::Service { service }), j));
        },
        None => {},
    }
    match parse_keyed_exec(s, i, "{\"tournament_id\":") {
        Some((tournament_id, j)) => {
            return Some((Some(ErrorDetails::Tournament { tournament_id }), j));
        },
        None => {},
    }
    match parse_keyed_exec(s, i, "{\"user_id\":") {
        Some((user_id, j)) => {
            return Some((Some(ErrorDetails::User { user_id }), j));
        },
        None => {},
    }
    None
}

impl ApiErrorResponse {
    /// Parse a canonically rendered JSON error body; the whole input must be
    /// one rendered body.
    pub fn from_json(s: &str) -> (r: Option<ApiErrorResponse>)
        ensures
            match r {
                Some(resp) => parse_response_json(s@) == Some(resp@),
                None => parse_response_json(s@) is None,
            },
    {
        let i1 = match expect_lit(s, 0, "{\"success\":") {
            Some(j) => j,
            None => {
                return None;
            },
        };
        let (success, i2) = match parse_bool_exec(s, i1) {
            Some(v) => v,
            None => {
                return None;
            },
        };
        let i3 = match expect_lit(s, i2, ",\"message\":") {
            Some(j) => j,
            None => {
                return None;
            },
        };
        let (message, i4) = match parse_string_exec(s, i3) {
            Some(v) => v,
            None => {
                return None;
            },
        };
        let i5 = match expect_lit(s, i4, ",\"error_code\":") {
            Some(j) => j,
            None => {
                return None;
            },
        };
        let (error_code, i6) = match parse_string_exec(s, i5) {
            Some(v) => v,
            None => {
                return None;
            },
        };
        let i7 = match expect_lit(s, i6, ",\"details\":") {
            Some(j) => j,
            None => {
                return None;
            },
        };
        let (details, i8) = match parse_details_exec(s, i7) {
            Some(v) => v,
            None => {
                return None;
            },
        };
        let i9 = match expect_lit(s, i8, ",\"request_id\":") {
            Some(j) => j,
            None => {
                return None;
            },
        };
        let (request_id, i10) = match parse_opt_string_exec(s, i9) {
            Some(v) => v,
            None => {
                return None;
            },
        };
        let i11 = match expect_lit(s, i10, "}") {
            Some(j) => j,
            None => {
                return None;
            },
        };
        if i11 != s.unicode_len() {
            return None;
        }
        Some(ApiErrorResponse { success, message, error_code, details, request_id })
    }

    /// Render this body in its canonical JSON form.
    pub fn to_json(&self) -> (r: String)
        ensures
            r@ == response_json(self@),
    {
        let mut out = "{\"success\":".to_owned();
        if self.success {
            out.append("true");
        } else {
            out.append("false");
        }
        out.append(",\"message\":");
        append_json_string(&mut out, self.message.as_str());
        out.append(",\"error_code\":");
        append_json_string(&mut out, self.error_code.as_str());
        out.append(",\"details\":");
        append_details(&mut out, &self.details);
        out.append(",\"request_id\":");
        append_opt_string(&mut out, &self.request_id);
        out.append("}");
        proof {
            assert(out@ =~= response_json(self@));
        }
        out
    }
}

} // verus!
