//! HTTP responses as plain values, and the JSON bodies the service sends:
//! `{"lamports":<n>}` on success and `{"error":"<message>"}` on failure.

use vstd::prelude::*;
use vstd::string::{StrSliceExecFns, StringExecFns};

verus! {

/// A response as the service hands it to whatever serves HTTP: a status code,
/// whether the body is JSON (the method-not-allowed reply is plain text), and
/// the body text.
pub struct HttpResponse {
    pub status: u16,
    pub json: bool,
    pub body: String,
}

/// The mathematical model of an [`HttpResponse`].
pub struct SpecResponse {
    pub status: int,
    pub json: bool,
    pub body: Seq<char>,
}

impl View for HttpResponse {
    type V = SpecResponse;

    open spec fn view(&self) -> SpecResponse {
        SpecResponse { status: self.status as int, json: self.json, body: self.body@ }
    }
}

/// The character for one decimal digit.
pub open spec fn digit_char(d: nat) -> char {
    if d == 0 {
        '0'
    } else if d == 1 {
        '1'
    } else if d == 2 {
        '2'
    } else if d == 3 {
        '3'
    } else if d == 4 {
        '4'
    } else if d == 5 {
        '5'
    } else if d == 6 {
        '6'
    } else if d == 7 {
        '7'
    } else if d == 8 {
        '8'
    } else {
        '9'
    }
}

/// The usual decimal rendering of `n`: no sign, no leading zero except for
/// `n == 0` itself.
pub open spec fn decimal_digits(n: nat) -> Seq<char>
    decreases n,
{
    if n < 10 {
        seq![digit_char(n)]
    } else {
        decimal_digits(n / 10).push(digit_char(n % 10))
    }
}

/// The success body: `{"lamports":<n>}` with `n` in decimal.
pub open spec fn spec_lamports_body(n: u64) -> Seq<char> {
    "{\"lamports\":"@ + decimal_digits(n as nat) + "}"@
}

/// The character for one hexadecimal digit, lower case.
pub open spec fn hex_char(d: nat) -> char {
    if d < 10 {
        digit_char(d)
    } else if d == 10 {
        'a'
    } else if d == 11 {
        'b'
    } else if d == 12 {
        'c'
    } else if d == 13 {
        'd'
    } else if d == 14 {
        'e'
    } else {
        'f'
    }
}

/// How one character stands inside a JSON string: quote and backslash get a
/// backslash escape, the named control characters their short escapes, every
/// other control character `\u00XX` with lower-case hex, and everything else
/// stands as itself.
pub open spec fn escaped_char(c: char) -> Seq<char> {
    if c == '"' {
        seq!['\\', '"']
    } else if c == '\\' {
        seq!['\\', '\\']
    } else if c == '\u{08}' {
        seq!['\\', 'b']
    } else if c == '\u{09}' {
        seq!['\\', 't']
    } else if c == '\u{0A}' {
        seq!['\\', 'n']
    } else if c == '\u{0C}' {
        seq!['\\', 'f']
    } else if c == '\u{0D}' {
        seq!['\\', 'r']
    } else if (c as u32) < 0x20 {
        seq!['\\', 'u', '0', '0', hex_char((c as u32 / 16) as nat), hex_char((c as u32 % 16) as nat)]
    } else {
        seq![c]
    }
}

/// A text as it stands inside a JSON string: each character escaped as
/// [`escaped_char`] says.
pub open spec fn json_escaped(s: Seq<char>) -> Seq<char>
    decreases s.len(),
{
    if s.len() == 0 {
        Seq::empty()
    } else {
        escaped_char(s[0]) + json_escaped(s.drop_first())
    }
}

/// The error body: the JSON rendering of the one-member object
/// `{"error": msg}`, so `{"error":"<msg escaped>"}`.
pub open spec fn spec_error_body(msg: Seq<char>) -> Seq<char> {
    "{\"error\":\""@ + json_escaped(msg) + "\"}"@
}

/// An error reply: the given status, with the JSON error body.
pub open spec fn spec_error_response(msg: Seq<char>, status: int) -> SpecResponse {
    SpecResponse { status, json: true, body: spec_error_body(msg) }
}

fn digit_str(d: u64) -> (r: &'static str)
    requires
        d < 10,
    ensures
        r@ == seq![digit_char(d as nat)],
{
    proof {
        reveal_strlit("0");
        reveal_strlit("1");
        reveal_strlit("2");
        reveal_strlit("3");
        reveal_strlit("4");
        reveal_strlit("5");
        reveal_strlit("6");
        reveal_strlit("7");
        reveal_strlit("8");
        reveal_strlit("9");
    }
    let r: &'static str = if d == 0 {
        "0"
    } else if d == 1 {
        "1"
    } else if d == 2 {
        "2"
    } else if d == 3 {
        "3"
    } else if d == 4 {
        "4"
    } else if d == 5 {
        "5"
    } else if d == 6 {
        "6"
    } else if d == 7 {
        "7"
    } else if d == 8 {
        "8"
    } else {
        "9"
    };
    proof {
        assert(r@ =~= seq![digit_char(d as nat)]);
    }
    r
}

/// Renders `n` in decimal.
pub fn u64_to_decimal(n: u64) -> (r: String)
    ensures
        r@ == decimal_digits(n as nat),
    decreases n,
{
    if n < 10 {
        let s = digit_str(n);
        s.to_owned()
    } else {
        proof {
            assert(n / 10 < n) by (nonlinear_arith)
                requires
                    n >= 10,
            ;
        }
        let mut s = u64_to_decimal(n / 10);
        s.append(digit_str(n % 10));
        proof {
            assert(s@ =~= decimal_digits((n / 10) as nat).push(digit_char((n % 10) as nat)));
        }
        s
    }
}

/// Builds the success body `{"lamports":<n>}`.
pub fn lamports_body(n: u64) -> (r: String)
    ensures
        r@ == spec_lamports_body(n),
{
    let mut s = String::from_str("{\"lamports\":");
    let digits = u64_to_decimal(n);
    s.append(digits.as_str());
    s.append("}");
    s
}

fn hex_digit_str(d: u8) -> (r: &'static str)
    requires
        d < 16,
    ensures
        r@ == seq![hex_char(d as nat)],
{
    if d < 10 {
        digit_str(d as u64)
    } else {
        proof {
            reveal_strlit("a");
            reveal_strlit("b");
            reveal_strlit("c");
            reveal_strlit("d");
            reveal_strlit("e");
            reveal_strlit("f");
        }
        let r: &'static str = if d == 10 {
            "a"
        } else if d == 11 {
            "b"
        } else if d == 12 {
            "c"
        } else if d == 13 {
            "d"
        } else if d == 14 {
            "e"
        } else {
            "f"
        };
        proof {
            assert(r@ =~= seq![hex_char(d as nat)]);
        }
        r
    }
}

/// Escaping one more character extends the escaped text by that character's
/// escape.
proof fn lemma_json_escaped_snoc(s: Seq<char>, i: int)
    requires
        0 <= i < s.len(),
    ensures
        json_escaped(s.take(i + 1)) == json_escaped(s.take(i)) + escaped_char(s[i]),
    decreases i,
{
    if i == 0 {
        assert(s.take(0) =~= Seq::empty());
        assert(s.take(1).drop_first() =~= Seq::empty());
        assert(json_escaped(s.take(1)) =~= json_escaped(s.take(0)) + escaped_char(s[0]));
    } else {
        let t = s.drop_first();
        lemma_json_escaped_snoc(t, i - 1);
        assert(s.take(i + 1).drop_first() =~= t.take(i));
        assert(s.take(i).drop_first() =~= t.take(i - 1));
        assert(s.take(i + 1)[0] == s[0]);
        assert(s.take(i)[0] == s[0]);
        assert(t[i - 1] == s[i]);
        assert((escaped_char(s[0]) + json_escaped(t.take(i - 1))) + escaped_char(s[i]) =~= escaped_char(
            s[0],
        ) + (json_escaped(t.take(i - 1)) + escaped_char(s[i])));
    }
}

/// Escapes a text for use inside a JSON string, as [`json_escaped`] says.
pub fn escape_json_string(s: &str) -> (r: String)
    ensures
        r@ == json_escaped(s@),
{
    let n = s.unicode_len();
    let mut out = String::new();
    let mut i: usize = 0;
    while i < n
        invariant
            0 <= i <= n,
            n == s@.len(),
            out@ == json_escaped(s@.take(i as int)),
        decreases n - i,
    {
        let c = s.get_char(i);
        proof {
            lemma_json_escaped_snoc(s@, i as int);
        }
        if c == '"' {
            proof {
                reveal_strlit("\\\"");
                assert("\\\""@ =~= escaped_char(c));
            }
            out.append("\\\"");
        } else if c == '\\' {
            proof {
                reveal_strlit("\\\\");
                assert("\\\\"@ =~= escaped_char(c));
            }
            out.append("\\\\");
        } else if c == '\u{08}' {
            proof {
                reveal_strlit("\\b");
                assert("\\b"@ =~= escaped_char(c));
            }
            out.append("\\b");
        } else if c == '\u{09}' {
            proof {
                reveal_strlit("\\t");
                assert("\\t"@ =~= escaped_char(c));
            }
            out.append("\\t");
        } else if c == '\u{0A}' {
            proof {
                reveal_strlit("\\n");
                assert("\\n"@ =~= escaped_char(c));
            }
            out.append("\\n");
        } else if c == '\u{0C}' {
            proof {
                reveal_strlit("\\f");
                assert("\\f"@ =~= escaped_char(c));
            }
            out.append("\\f");
        } else if c == '\u{0D}' {
            proof {
                reveal_strlit("\\r");
                assert("\\r"@ =~= escaped_char(c));
            }
            out.append("\\r");
        } else if (c as u32) < 0x20 {
            let code = c as u32;
            proof {
                reveal_strlit("\\u00");
            }
            out.append("\\u00");
            out.append(hex_digit_str((code / 16) as u8));
            out.append(hex_digit_str((code % 16) as u8));
            proof {
                assert("\\u00"@ + seq![hex_char((code / 16) as nat)] + seq![
                    hex_char((code % 16) as nat),
                ] =~= escaped_char(c));
            }
        } else {
            let piece = s.substring_char(i, i + 1);
            out.append(piece);
            proof {
                assert(piece@ =~= seq![s@[i as int]]);
                assert(piece@ =~= escaped_char(c));
            }
        }
        i += 1;
    }
    proof {
        assert(s@.take(n as int) =~= s@);
    }
    out
}

/// Builds the JSON error reply `{"error":"<msg>"}`, escaping the message as
/// a JSON string serializer does.
pub fn error_response(msg: &str, status: u16) -> (r: HttpResponse)
    ensures
        r@ == spec_error_response(msg@, status as int),
{
    let mut body = String::from_str("{\"error\":\"");
    let escaped = escape_json_string(msg);
    body.append(escaped.as_str());
    body.append("\"}");
    HttpResponse { status, json: true, body }
}

} // verus!
