//! Input checks and the local page that hosts a Turnstile widget.
use vstd::prelude::*;
use vstd::string::*;
use vstd::utf8::*;
use crate::browser::pool::BrowserContext;
use crate::solvers::error::{SolverError, SolverFault};
use crate::text::{is_prefix, is_substring, opt_view, starts_with};

verus! {

/// Page text before the widget's class name.
pub const PAGE_HEAD: &'static str = r#"<!DOCTYPE html>
<html>
<head>
    <meta charset="UTF-8">
    <meta name="viewport" content="width=device-width, initial-scale=1.0">
    <title>Turnstile Solver</title>
    <script src="https://challenges.cloudflare.com/turnstile/v0/api.js" async defer></script>
    <style>
        body {
            margin: 0;
            padding: 20px;
            font-family: -apple-system, BlinkMacSystemFont, "Segoe UI", Roboto, "Helvetica Neue", Arial, sans-serif;
            background-color: #f5f5f5;
        }
        .container {
            max-width: 600px;
            margin: 0 auto;
            background: white;
            padding: 40px;
            border-radius: 8px;
            box-shadow: 0 2px 8px rgba(0, 0, 0, 0.1);
        }
        h1 {
            text-align: center;
            color: #333;
            margin-top: 0;
        }
        .turnstile-container {
            display: flex;
            justify-content: center;
            margin: 40px 0;
        }
        .status {
            text-align: center;
            padding: 10px;
            margin-top: 20px;
            border-radius: 4px;
            font-size: 14px;
        }
        .status.waiting {
            background-color: #e3f2fd;
            color: #1976d2;
        }
        .status.success {
            background-color: #e8f5e9;
            color: #388e3c;
        }
        .status.error {
            background-color: #ffebee;
            color: #d32f2f;
        }
    </style>
</head>
<body>
    <div class="container">
        <h1>Cloudflare Turnstile</h1>
        <div class="turnstile-container">
            <div class=""#;

/// Page text after the widget's callback name.
pub const PAGE_TAIL: &'static str = r#""></div>
        </div>
        <div id="status" class="status waiting">Waiting for token...</div>
    </div>

    <script>
        window.turnstileToken = null;
        window.turnstileError = null;

        function onTurnstileSuccess(token) {
            window.turnstileToken = token;
            document.getElementById('status').textContent = 'Token obtained: ' + token.substring(0, 20) + '...';
            document.getElementById('status').className = 'status success';
        }

        function onTurnstileError(errorCode) {
            window.turnstileError = errorCode;
            document.getElementById('status').textContent = 'Turnstile error: ' + errorCode;
            document.getElementById('status').className = 'status error';
        }

        function onTurnstileExpire() {
            window.turnstileToken = null;
            document.getElementById('status').textContent = 'Token expired';
            document.getElementById('status').className = 'status error';
        }

        window.checkTurnstileReady = function() {
            return window.turnstile !== undefined && window.turnstile.isReady !== undefined;
        };

        window.getTurnstileToken = function() {
            return window.turnstileToken;
        };

        window.getTurnstileError = function() {
            return window.turnstileError;
        };

        window.resetTurnstile = function() {
            if (window.turnstile && window.turnstile.reset) {
                window.turnstile.reset();
                window.turnstileToken = null;
                window.turnstileError = null;
            }
        };
    </script>
</body>
</html>"#;

/// A Turnstile page under construction: the sitekey, the target URL, and the
/// optional `cData` and `action` values handed to the widget.
pub struct StubPageBuilder {
    sitekey: String,
    url: String,
    cdata: Option<String>,
    action: Option<String>,
}

/// Model of a [`StubPageBuilder`].
pub struct StubPage {
    pub sitekey: Seq<char>,
    pub url: Seq<char>,
    pub cdata: Option<Seq<char>>,
    pub action: Option<Seq<char>>,
}

impl View for StubPageBuilder {
    type V = StubPage;

    closed spec fn view(&self) -> StubPage {
        StubPage {
            sitekey: self.sitekey@,
            url: self.url@,
            cdata: opt_view(self.cdata),
            action: opt_view(self.action),
        }
    }
}

/// ` name="value"` with the value escaped, or nothing when there is no value.
pub open spec fn attribute(name: Seq<char>, value: Option<Seq<char>>) -> Seq<char> {
    match value {
        Some(v) => " "@ + name + "=\""@ + escape_html_spec(v) + "\""@,
        None => Seq::empty(),
    }
}

/// The full page for a builder: the widget `div` carries the escaped `cData`
/// and `action` attributes, the sitekey as given, and the success callback.
pub open spec fn stub_page(b: StubPage) -> Seq<char> {
    PAGE_HEAD@ + "cf-turnstile"@ + "\""@ + attribute("data-cData"@, b.cdata) + attribute(
        "data-action"@,
        b.action,
    ) + " data-sitekey=\""@ + b.sitekey + "\" data-callback=\""@ + "onTurnstileSuccess"@
        + PAGE_TAIL@
}

/// Appends ` name="escaped value"` when there is a value.
fn push_attribute(out: &mut String, name: &str, value: &Option<String>)
    ensures
        final(out)@ == old(out)@ + attribute(name@, opt_view(*value)),
{
    match value {
        Some(v) => {
            out.append(" ");
            out.append(name);
            out.append("=\"");
            let escaped = escape_html(v.as_str());
            out.append(escaped.as_str());
            out.append("\"");
        },
        None => {
            assert(old(out)@ + Seq::<char>::empty() =~= old(out)@);
        },
    }
}

impl StubPageBuilder {
    pub fn new(sitekey: String, url: String) -> (r: StubPageBuilder)
        ensures
            r@ == (StubPage { sitekey: sitekey@, url: url@, cdata: None, action: None }),
    {
        StubPageBuilder { sitekey, url, cdata: None, action: None }
    }

    pub fn with_cdata(self, cdata: String) -> (r: StubPageBuilder)
        ensures
            r@ == (StubPage { cdata: Some(cdata@), ..self@ }),
    {
        StubPageBuilder { cdata: Some(cdata), ..self }
    }

    pub fn with_action(self, action: String) -> (r: StubPageBuilder)
        ensures
            r@ == (StubPage { action: Some(action@), ..self@ }),
    {
        StubPageBuilder { action: Some(action), ..self }
    }

    /// Renders the page.
    pub fn build(self) -> (r: String)
        ensures
            r@ == stub_page(self@),
    {
        let mut out = String::from_str(PAGE_HEAD);
        out.append("cf-turnstile");
        out.append("\"");
        push_attribute(&mut out, "data-cData", &self.cdata);
        push_attribute(&mut out, "data-action", &self.action);
        out.append(" data-sitekey=\"");
        out.append(self.sitekey.as_str());
        out.append("\" data-callback=\"");
        out.append("onTurnstileSuccess");
        out.append(PAGE_TAIL);
        out
    }
}

/// Escaped form of one character in HTML text or a quoted attribute.
pub open spec fn escape_char(c: char) -> Seq<char> {
    if c == '&' {
        "&amp;"@
    } else if c == '<' {
        "&lt;"@
    } else if c == '>' {
        "&gt;"@
    } else if c == '"' {
        "&quot;"@
    } else if c == '\'' {
        "&#39;"@
    } else {
        seq![c]
    }
}

/// `s` with each of `& < > " '` replaced by its character reference.
pub open spec fn escape_html_spec(s: Seq<char>) -> Seq<char>
    decreases s.len(),
{
    if s.len() == 0 {
        Seq::empty()
    } else {
        escape_html_spec(s.drop_last()) + escape_char(s.last())
    }
}

/// Characters that could end an attribute value or open markup.
pub open spec fn is_markup_char(c: char) -> bool {
    c == '<' || c == '>' || c == '"' || c == '\''
}

/// Escapes `input` for use in HTML text or a double-quoted attribute.
pub fn escape_html(input: &str) -> (r: String)
    ensures
        r@ == escape_html_spec(input@),
{
    let n = input.unicode_len();
    let mut out = String::new();
    let mut i: usize = 0;
    while i < n
        invariant
            n == input@.len(),
            i <= n,
            out@ == escape_html_spec(input@.subrange(0, i as int)),
        decreases n - i,
    {
        let c = input.get_char(i);
        let ghost before = out@;
        if c == '&' {
            out.append("&amp;");
        } else if c == '<' {
            out.append("&lt;");
        } else if c == '>' {
            out.append("&gt;");
        } else if c == '"' {
            out.append("&quot;");
        } else if c == '\'' {
            out.append("&#39;");
        } else {
            let piece = input.substring_char(i, i + 1);
            assert(piece@ =~= seq![c]);
            out.append(piece);
        }
        assert(input@.subrange(0, i + 1).drop_last() =~= input@.subrange(0, i as int));
        i = i + 1;
    }
    assert(input@.subrange(0, n as int) =~= input@);
    out
}

/// Characters allowed in a sitekey.
pub open spec fn sitekey_char(c: char) -> bool {
    ('0' <= c && c <= '9') || ('a' <= c && c <= 'z') || ('A' <= c && c <= 'Z') || c == '_' || c
        == '-'
}

/// The error for a sitekey whose characters are `s` and whose UTF-8 encoding has
/// `byte_len` bytes, or `None` for an acceptable one.
pub open spec fn sitekey_problem(s: Seq<char>, byte_len: nat) -> Option<SolverFault> {
    if s.len() == 0 {
        Some(SolverFault::InvalidSitekey("Sitekey is empty"@))
    } else if byte_len < 20 {
        Some(SolverFault::InvalidSitekey("Sitekey seems invalid (too short)"@))
    } else if !(forall|i: int| 0 <= i < s.len() ==> sitekey_char(#[trigger] s[i])) {
        Some(SolverFault::InvalidSitekey("Sitekey contains invalid characters"@))
    } else {
        None
    }
}

/// Checks the shape of a Turnstile sitekey: non-empty, at least 20 bytes, and made
/// of ASCII letters, digits, `_` and `-`.
pub fn validate_sitekey(sitekey: &str) -> (r: Result<(), SolverError>)
    ensures
        match r {
            Ok(_) => sitekey_problem(sitekey@, encode_utf8(sitekey@).len()) is None,
            Err(e) => sitekey_problem(sitekey@, encode_utf8(sitekey@).len()) == Some(e@),
        },
{
    if sitekey.is_empty() {
        return Err(SolverError::InvalidSitekey(String::from_str("Sitekey is empty")));
    }
    if !crate::text::utf8_len_at_least(sitekey, 20) {
        return Err(
            SolverError::InvalidSitekey(String::from_str("Sitekey seems invalid (too short)")),
        );
    }
    let n = sitekey.unicode_len();
    let mut i: usize = 0;
    while i < n
        invariant
            n == sitekey@.len(),
            n > 0,
            encode_utf8(sitekey@).len() >= 20,
            i <= n,
            forall|k: int| 0 <= k < i ==> sitekey_char(#[trigger] sitekey@[k]),
        decreases n - i,
    {
        let c = sitekey.get_char(i);
        if !((c >= '0' && c <= '9') || (c >= 'a' && c <= 'z') || (c >= 'A' && c <= 'Z') || c
            == '_' || c == '-') {
            assert(!sitekey_char(sitekey@[i as int]));
            return Err(
                SolverError::InvalidSitekey(
                    String::from_str("Sitekey contains invalid characters"),
                ),
            );
        }
        i = i + 1;
    }
    Ok(())
}

/// The error for a target URL, or `None` for an acceptable one.
pub open spec fn url_problem(url: Seq<char>) -> Option<SolverFault> {
    if url.len() == 0 {
        Some(SolverFault::ConfigError("URL is empty"@))
    } else if !is_prefix("http://"@, url) && !is_prefix("https://"@, url) {
        Some(SolverFault::ConfigError("URL must start with http:// or https://"@))
    } else {
        None
    }
}

/// Checks that a target URL is an `http://` or `https://` URL.
pub fn validate_url(url: &str) -> (r: Result<(), SolverError>)
    ensures
        match r {
            Ok(_) => url_problem(url@) is None,
            Err(e) => url_problem(url@) == Some(e@),
        },
{
    if url.is_empty() {
        return Err(SolverError::ConfigError(String::from_str("URL is empty")));
    }
    if !starts_with(url, "http://") && !starts_with(url, "https://") {
        return Err(
            SolverError::ConfigError(String::from_str("URL must start with http:// or https://")),
        );
    }
    Ok(())
}

/// Escaping leaves no character that could close a quoted attribute or open markup.
pub proof fn lemma_escape_html_inert(s: Seq<char>)
    ensures
        forall|k: int| 0 <= k < escape_html_spec(s).len() ==> !is_markup_char(#[trigger] escape_html_spec(s)[k]),
    decreases s.len(),
{
    reveal_strlit("&amp;");
    reveal_strlit("&lt;");
    reveal_strlit("&gt;");
    reveal_strlit("&quot;");
    reveal_strlit("&#39;");
    if s.len() > 0 {
        lemma_escape_html_inert(s.drop_last());
        let a = escape_html_spec(s.drop_last());
        let b = escape_char(s.last());
        assert forall|k: int| 0 <= k < (a + b).len() implies !is_markup_char(#[trigger] (a + b)[k]) by {
            if k >= a.len() {
                assert((a + b)[k] == b[k - a.len()]);
            }
        }
    }
}

/// `s` begins with the character reference `r`.
pub open spec fn starts_with_ref(s: Seq<char>, r: Seq<char>) -> bool {
    0 < r.len() && is_prefix(r, s)
}

/// Reads `s` once from left to right, turning each of `&amp; &lt; &gt; &quot; &#39;`
/// back into the character it stands for and keeping everything else.
pub open spec fn unescape_html_spec(s: Seq<char>) -> Seq<char>
    decreases s.len(),
{
    if s.len() == 0 {
        Seq::empty()
    } else if starts_with_ref(s, "&amp;"@) {
        seq!['&'] + unescape_html_spec(s.skip("&amp;"@.len() as int))
    } else if starts_with_ref(s, "&lt;"@) {
        seq!['<'] + unescape_html_spec(s.skip("&lt;"@.len() as int))
    } else if starts_with_ref(s, "&gt;"@) {
        seq!['>'] + unescape_html_spec(s.skip("&gt;"@.len() as int))
    } else if starts_with_ref(s, "&quot;"@) {
        seq!['"'] + unescape_html_spec(s.skip("&quot;"@.len() as int))
    } else if starts_with_ref(s, "&#39;"@) {
        seq!['\''] + unescape_html_spec(s.skip("&#39;"@.len() as int))
    } else {
        seq![s[0]] + unescape_html_spec(s.skip(1))
    }
}

/// Escaping works character by character, so it distributes over concatenation.
proof fn lemma_escape_html_append(a: Seq<char>, b: Seq<char>)
    ensures
        escape_html_spec(a + b) == escape_html_spec(a) + escape_html_spec(b),
    decreases b.len(),
{
    if b.len() == 0 {
        assert(a + b =~= a);
    } else {
        lemma_escape_html_append(a, b.drop_last());
        assert((a + b).drop_last() =~= a + b.drop_last());
        assert((a + b).last() == b.last());
    }
}

/// Decoding the escaped form of one character, followed by anything, gives the
/// character back and goes on with the rest.
proof fn lemma_unescape_char(c: char, rest: Seq<char>)
    ensures
        unescape_html_spec(escape_char(c) + rest) == seq![c] + unescape_html_spec(rest),
{
    reveal_strlit("&amp;");
    reveal_strlit("&lt;");
    reveal_strlit("&gt;");
    reveal_strlit("&quot;");
    reveal_strlit("&#39;");
    let e = escape_char(c);
    let s = e + rest;
    assert(s.skip(e.len() as int) =~= rest);
    assert(s.subrange(0, e.len() as int) =~= e);
    assert(s[0] == e[0]);
    if c == '&' {
    } else if c == '<' {
        assert(s[1] == 'l');
    } else if c == '>' {
        assert(s[1] == 'g');
    } else if c == '"' {
        assert(s[1] == 'q');
    } else if c == '\'' {
        assert(s[1] == '#');
    } else {
        assert(s[0] == c);
        assert(s[0] != '&');
    }
}

/// Escaping loses nothing: one left-to-right pass that decodes the five
/// character references gives back exactly the text that was escaped; and text
/// with none of `& < > " '` comes out of escaping unchanged.
pub proof fn lemma_escape_html_round_trip(s: Seq<char>)
    ensures
        unescape_html_spec(escape_html_spec(s)) == s,
        (forall|k: int| 0 <= k < s.len() ==> !is_markup_char(#[trigger] s[k]) && s[k] != '&')
            ==> escape_html_spec(s) == s,
    decreases s.len(),
{
    if s.len() > 0 {
        let c = s[0];
        let rest = s.skip(1);
        lemma_escape_html_round_trip(rest);
        assert(s =~= seq![c] + rest);
        lemma_escape_html_append(seq![c], rest);
        assert(seq![c].drop_last() =~= Seq::<char>::empty());
        assert(seq![c].last() == c);
        assert(escape_html_spec(Seq::<char>::empty()) =~= Seq::<char>::empty());
        assert(escape_html_spec(seq![c].drop_last()) =~= Seq::<char>::empty());
        assert(Seq::<char>::empty() + escape_char(c) =~= escape_char(c));
        assert(escape_html_spec(seq![c]) =~= escape_char(c));
        lemma_unescape_char(c, escape_html_spec(rest));
        assert(seq![c] + rest =~= s);
        if forall|k: int| 0 <= k < s.len() ==> !is_markup_char(#[trigger] s[k]) && s[k] != '&' {
            assert forall|k: int| 0 <= k < rest.len() implies !is_markup_char(#[trigger] rest[k])
                && rest[k] != '&' by {
                assert(rest[k] == s[k + 1]);
            }
            assert(!is_markup_char(s[0]) && s[0] != '&');
            assert(escape_char(c) =~= seq![c]);
        }
    }
}

proof fn lemma_middle(a: Seq<char>, b: Seq<char>, c: Seq<char>)
    ensures
        is_substring(b, a + b + c),
{
    assert((a + b + c).subrange(a.len() as int, (a.len() + b.len()) as int) =~= b);
}

/// The page carries the widget class, the success callback, and the sitekey verbatim.
pub proof fn lemma_stub_page_embeds_widget(b: StubPage)
    ensures
        is_substring("cf-turnstile"@, stub_page(b)),
        is_substring("onTurnstileSuccess"@, stub_page(b)),
        is_substring(b.sitekey, stub_page(b)),
{
    let p = stub_page(b);
    let x0 = PAGE_HEAD@;
    let x1 = "\""@ + attribute("data-cData"@, b.cdata) + attribute("data-action"@, b.action)
        + " data-sitekey=\""@;
    let x2 = "\" data-callback=\""@;
    assert(p =~= x0 + "cf-turnstile"@ + (x1 + b.sitekey + x2 + "onTurnstileSuccess"@ + PAGE_TAIL@));
    lemma_middle(x0, "cf-turnstile"@, x1 + b.sitekey + x2 + "onTurnstileSuccess"@ + PAGE_TAIL@);
    assert(p =~= (x0 + "cf-turnstile"@ + x1 + b.sitekey + x2) + "onTurnstileSuccess"@ + PAGE_TAIL@);
    lemma_middle(x0 + "cf-turnstile"@ + x1 + b.sitekey + x2, "onTurnstileSuccess"@, PAGE_TAIL@);
    assert(p =~= (x0 + "cf-turnstile"@ + x1) + b.sitekey + (x2 + "onTurnstileSuccess"@ + PAGE_TAIL@));
    lemma_middle(x0 + "cf-turnstile"@ + x1, b.sitekey, x2 + "onTurnstileSuccess"@ + PAGE_TAIL@);
}

/// A `cData` or `action` value appears in the page only as an escaped, double-quoted
/// attribute of the widget.
pub proof fn lemma_stub_page_embeds_attributes(b: StubPage)
    ensures
        b.cdata matches Some(c) ==> is_substring(
            "data-cData"@ + "=\""@ + escape_html_spec(c) + "\""@,
            stub_page(b),
        ),
        b.action matches Some(a) ==> is_substring(
            "data-action"@ + "=\""@ + escape_html_spec(a) + "\""@,
            stub_page(b),
        ),
{
    let p = stub_page(b);
    let ac = attribute("data-cData"@, b.cdata);
    let aa = attribute("data-action"@, b.action);
    let head = PAGE_HEAD@ + "cf-turnstile"@ + "\""@;
    let tail = " data-sitekey=\""@ + b.sitekey + "\" data-callback=\""@ + "onTurnstileSuccess"@
        + PAGE_TAIL@;
    if let Some(c) = b.cdata {
        let m = "data-cData"@ + "=\""@ + escape_html_spec(c) + "\""@;
        assert(ac =~= " "@ + m);
        assert(p =~= (head + " "@) + m + (aa + tail));
        lemma_middle(head + " "@, m, aa + tail);
    }
    if let Some(a) = b.action {
        let m = "data-action"@ + "=\""@ + escape_html_spec(a) + "\""@;
        assert(aa =~= " "@ + m);
        assert(p =~= (head + ac + " "@) + m + tail);
        lemma_middle(head + ac + " "@, m, tail);
    }
}

/// The error of a solve in a slot that has no DevTools session.
pub open spec fn no_session_fault() -> SolverFault {
    SolverFault::CdpError("No CDP session in context"@)
}

/// The DevTools session of a slot, or the error a solve ends with when it has none.
pub fn session_of<S>(context: &BrowserContext<S>) -> (r: Result<&S, SolverError>)
    ensures
        match r {
            Ok(session) => context.cdp_session == Some(*session),
            Err(e) => context.cdp_session is None && e@ == no_session_fault(),
        },
{
    match &context.cdp_session {
        Some(session) => Ok(session),
        None => Err(SolverError::CdpError(String::from_str("No CDP session in context"))),
    }
}

/// The character is an ASCII letter or digit, `_` or `-`, by its code point.
pub open spec fn word_code(n: int) -> bool {
    (48 <= n <= 57) || (65 <= n <= 90) || (97 <= n <= 122) || n == 95 || n == 45
}

/// A sitekey is accepted exactly when it is not empty, its UTF-8 encoding has
/// at least 20 bytes, and every character is an ASCII letter (upper or lower
/// case), an ASCII digit, `_` or `-`.
pub proof fn lemma_sitekey_accepted_iff(s: Seq<char>, byte_len: nat)
    ensures
        sitekey_problem(s, byte_len) is None <==> (s.len() > 0 && byte_len >= 20 && forall|i: int|
            0 <= i < s.len() ==> word_code(#[trigger] s[i] as int)),
{
    assert forall|c: char| sitekey_char(c) <==> word_code(c as int) by {
        assert('0' as int == 48 && '9' as int == 57 && 'A' as int == 65 && 'Z' as int == 90);
        assert('a' as int == 97 && 'z' as int == 122 && '_' as int == 95 && '-' as int == 45);
    }
    if s.len() > 0 && byte_len >= 20 {
        if forall|i: int| 0 <= i < s.len() ==> word_code(#[trigger] s[i] as int) {
            assert forall|i: int| 0 <= i < s.len() implies sitekey_char(#[trigger] s[i]) by {
                assert(word_code(s[i] as int));
            }
        } else {
            let i = choose|i: int| 0 <= i < s.len() && !word_code(#[trigger] s[i] as int);
            assert(!sitekey_char(s[i]));
        }
    }
}

} // verus!
