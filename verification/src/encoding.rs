//! Encodings the protocol messages need: JSON string literals, and base64.
use vstd::prelude::*;
use vstd::string::*;
use vstd::utf8::*;
use base64::Engine;

verus! {

/// Lower-case hexadecimal digit for `v` in `0..16`.
pub open spec fn hex_digit(v: int) -> char {
    "0123456789abcdef"@[v]
}

/// How a JSON string literal writes one character: `"` and `\` and the control
/// characters below U+0020 are escaped, every other character stands as itself.
pub open spec fn json_escape_char(c: char) -> Seq<char> {
    if c == '"' {
        "\\\""@
    } else if c == '\\' {
        "\\\\"@
    } else if c == '\u{8}' {
        "\\b"@
    } else if c == '\u{c}' {
        "\\f"@
    } else if c == '\n' {
        "\\n"@
    } else if c == '\r' {
        "\\r"@
    } else if c == '\t' {
        "\\t"@
    } else if (c as u32) < 0x20 {
        seq!['\\', 'u', '0', '0', hex_digit((c as u32) as int / 16), hex_digit((c as u32) as int % 16)]
    } else {
        seq![c]
    }
}

pub open spec fn json_escape(s: Seq<char>) -> Seq<char>
    decreases s.len(),
{
    if s.len() == 0 {
        Seq::empty()
    } else {
        json_escape(s.drop_last()) + json_escape_char(s.last())
    }
}

/// The JSON string literal for `s`, quotes included.
pub open spec fn json_quote_spec(s: Seq<char>) -> Seq<char> {
    seq!['"'] + json_escape(s) + seq!['"']
}

/// Calls `serde_json::to_string` on a string slice. Its serializer writes `"`,
/// the text with `"`, `\` and the control characters below U+0020 escaped (the
/// short escapes `\b \f \n \r \t` where they exist, `\u00XX` in lower-case hex
/// otherwise), and `"` again; writing into a byte vector cannot fail, so the
/// result is always `Ok`.
#[verifier::external_body]
pub fn json_quote(s: &str) -> (r: Result<String, serde_json::Error>)
    ensures
        r is Ok,
        r->Ok_0@ == json_quote_spec(s@),
{
    serde_json::to_string(s)
}

/// A run of characters that can stand between the quotes of a string literal:
/// each `\` together with the character after it forms an escape, and no other
/// character is a `"`, a `\` or a control character.
pub open spec fn literal_body(t: Seq<char>) -> bool
    decreases t.len(),
{
    if t.len() == 0 {
        true
    } else if t[0] == '\\' {
        t.len() >= 2 && literal_body(t.subrange(2, t.len() as int))
    } else {
        t[0] != '"' && (t[0] as u32) >= 0x20 && literal_body(t.drop_first())
    }
}

proof fn lemma_literal_body_concat(a: Seq<char>, b: Seq<char>)
    requires
        literal_body(a),
        literal_body(b),
    ensures
        literal_body(a + b),
    decreases a.len(),
{
    if a.len() > 0 {
        if a[0] == '\\' {
            let rest = a.subrange(2, a.len() as int);
            lemma_literal_body_concat(rest, b);
            assert((a + b).subrange(2, (a + b).len() as int) =~= rest + b);
        } else {
            lemma_literal_body_concat(a.drop_first(), b);
            assert((a + b).drop_first() =~= a.drop_first() + b);
        }
    }
}

proof fn lemma_escape_char_body(c: char)
    ensures
        literal_body(json_escape_char(c)),
{
    reveal_strlit("\\\"");
    reveal_strlit("\\\\");
    reveal_strlit("\\b");
    reveal_strlit("\\f");
    reveal_strlit("\\n");
    reveal_strlit("\\r");
    reveal_strlit("\\t");
    reveal_strlit("0123456789abcdef");
    let e = json_escape_char(c);
    if c == '"' || c == '\\' || c == '\u{8}' || c == '\u{c}' || c == '\n' || c == '\r' || c
        == '\t' {
        assert(e.len() == 2 && e[0] == '\\');
        assert(e.subrange(2, 2) =~= Seq::<char>::empty());
        assert(literal_body(e.subrange(2, 2)));
    } else if (c as u32) < 0x20 {
        let hi = (c as u32) as int / 16;
        let lo = (c as u32) as int % 16;
        assert(0 <= hi < 16 && 0 <= lo < 16);
        let t4 = seq![hex_digit(lo)];
        let t3 = seq![hex_digit(hi), hex_digit(lo)];
        let t2 = seq!['0', hex_digit(hi), hex_digit(lo)];
        let t1 = seq!['0', '0', hex_digit(hi), hex_digit(lo)];
        assert(hex_digit(lo) != '"' && hex_digit(lo) != '\\' && (hex_digit(lo) as u32) >= 0x20);
        assert(hex_digit(hi) != '"' && hex_digit(hi) != '\\' && (hex_digit(hi) as u32) >= 0x20);
        assert(t4[0] == hex_digit(lo));
        assert(t4.drop_first() =~= Seq::<char>::empty());
        assert(literal_body(t4.drop_first()));
        assert(literal_body(t4));
        assert(t3.drop_first() =~= t4);
        assert(literal_body(t3));
        assert(t2.drop_first() =~= t3);
        assert(literal_body(t2));
        assert(t1.drop_first() =~= t2);
        assert(literal_body(t1));
        assert(e.subrange(2, 6) =~= t1);
    } else {
        assert(e.drop_first() =~= Seq::<char>::empty());
        assert(literal_body(e.drop_first()));
    }
}

/// Quoting cannot be broken out of: between its opening and closing quotes the
/// literal is a valid body, so no quote closes it early and no raw line break or
/// other control character appears in it.
pub proof fn lemma_json_quote_unbreakable(s: Seq<char>)
    ensures
        json_quote_spec(s).len() >= 2,
        json_quote_spec(s)[0] == '"',
        json_quote_spec(s).last() == '"',
        literal_body(json_quote_spec(s).subrange(1, json_quote_spec(s).len() - 1)),
    decreases s.len(),
{
    lemma_json_escape_body(s);
    let q = json_quote_spec(s);
    assert(q.subrange(1, q.len() - 1) =~= json_escape(s));
}

proof fn lemma_json_escape_body(s: Seq<char>)
    ensures
        literal_body(json_escape(s)),
    decreases s.len(),
{
    if s.len() > 0 {
        lemma_json_escape_body(s.drop_last());
        lemma_escape_char_body(s.last());
        lemma_literal_body_concat(json_escape(s.drop_last()), json_escape_char(s.last()));
    }
}

/// The base64 digit for `v` in `0..64`, standard alphabet.
pub open spec fn b64_digit(v: int) -> char {
    "ABCDEFGHIJKLMNOPQRSTUVWXYZabcdefghijklmnopqrstuvwxyz0123456789+/"@[v]
}

/// Standard base64 with `=` padding: every three bytes become four digits, and a
/// last group of one or two bytes is padded to four characters.
pub open spec fn base64_spec(b: Seq<u8>) -> Seq<char>
    decreases b.len(),
{
    if b.len() == 0 {
        Seq::empty()
    } else if b.len() == 1 {
        let x = b[0] as int;
        seq![b64_digit(x / 4), b64_digit((x % 4) * 16), '=', '=']
    } else if b.len() == 2 {
        let x = b[0] as int;
        let y = b[1] as int;
        seq![b64_digit(x / 4), b64_digit((x % 4) * 16 + y / 16), b64_digit((y % 16) * 4), '=']
    } else {
        let x = b[0] as int;
        let y = b[1] as int;
        let z = b[2] as int;
        seq![
            b64_digit(x / 4),
            b64_digit((x % 4) * 16 + y / 16),
            b64_digit((y % 16) * 4 + z / 64),
            b64_digit(z % 64),
        ] + base64_spec(b.subrange(3, b.len() as int))
    }
}

/// Whether base64 can size its output for `n` input bytes without overflow.
pub open spec fn base64_fits(n: nat) -> bool {
    (n / 3) * 4 + (if n % 3 > 0 {
        4nat
    } else {
        0nat
    }) <= usize::MAX
}

/// Calls `base64::engine::general_purpose::STANDARD.encode` on the UTF-8 bytes of
/// `text`: the standard alphabet with `=` padding. The call panics when the output
/// size overflows, which `requires` rules out.
#[verifier::external_body]
pub fn base64_standard(text: &str) -> (r: String)
    requires
        base64_fits(encode_utf8(text@).len()),
    ensures
        r@ == base64_spec(encode_utf8(text@)),
{
    base64::engine::general_purpose::STANDARD.encode(text)
}

} // verus!
