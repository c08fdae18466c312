//! Service configuration, read from environment variables.
//!
//! Reading the environment is left to the caller, which hands over the raw
//! values in an [`EnvValues`]; everything decided from them is here.
use vstd::prelude::*;
use vstd::string::*;
use std::time::Duration;
use crate::duration::{duration_from_millis, millis};
use crate::text::opt_view;

verus! {

/// Timeouts are held in milliseconds; the environment gives them in whole seconds.
#[derive(Clone, Debug)]
pub struct Config {
    pub server_host: String,
    pub server_port: u16,
    pub log_level: String,
    pub chrome_path: String,
    pub browser_pool_size: usize,
    pub tabs_per_process: usize,
    pub headless: bool,
    pub disable_sandbox: bool,
    pub user_agent: Option<String>,
    pub solve_timeout_ms: u64,
    pub load_timeout_ms: u64,
    pub cdp_timeout_ms: u64,
    pub startup_timeout_ms: u64,
    pub request_timeout_ms: u64,
    pub cdp_port_base: u16,
}

/// The raw values of the environment variables the configuration is read from;
/// `None` for a variable that is unset or not valid Unicode.
pub struct EnvValues {
    pub server_host: Option<String>,
    pub server_port: Option<String>,
    pub port: Option<String>,
    pub log_level: Option<String>,
    pub chrome_path: Option<String>,
    pub chrome_bin: Option<String>,
    pub browser_pool_size: Option<String>,
    pub tabs_per_process: Option<String>,
    pub headless: Option<String>,
    pub disable_sandbox: Option<String>,
    pub user_agent: Option<String>,
    pub solve_timeout: Option<String>,
    pub load_timeout: Option<String>,
    pub cdp_timeout: Option<String>,
    pub startup_timeout: Option<String>,
    pub request_timeout: Option<String>,
    pub cdp_port_base: Option<String>,
}

impl EnvValues {
    /// An environment in which none of the variables is set.
    pub fn unset() -> (r: EnvValues)
        ensures
            r.server_host is None && r.server_port is None && r.port is None && r.log_level is None
                && r.chrome_path is None && r.chrome_bin is None && r.browser_pool_size is None
                && r.tabs_per_process is None && r.headless is None && r.disable_sandbox is None
                && r.user_agent is None && r.solve_timeout is None && r.load_timeout is None
                && r.cdp_timeout is None && r.startup_timeout is None && r.request_timeout is None
                && r.cdp_port_base is None,
    {
        EnvValues {
            server_host: None,
            server_port: None,
            port: None,
            log_level: None,
            chrome_path: None,
            chrome_bin: None,
            browser_pool_size: None,
            tabs_per_process: None,
            headless: None,
            disable_sandbox: None,
            user_agent: None,
            solve_timeout: None,
            load_timeout: None,
            cdp_timeout: None,
            startup_timeout: None,
            request_timeout: None,
            cdp_port_base: None,
        }
    }
}

pub open spec fn is_digit(c: char) -> bool {
    '0' <= c && c <= '9'
}

/// Value of a run of decimal digits.
pub open spec fn digits_value(d: Seq<char>) -> nat
    decreases d.len(),
{
    if d.len() == 0 {
        0
    } else {
        digits_value(d.drop_last()) * 10 + ((d.last() as nat) - ('0' as nat)) as nat
    }
}

/// The digits of an unsigned integer literal: the text after an optional leading `+`,
/// or `None` when nothing would be left.
pub open spec fn unsigned_digits(s: Seq<char>) -> Option<Seq<char>> {
    if s.len() == 0 {
        None
    } else if s[0] == '+' {
        if s.len() == 1 {
            None
        } else {
            Some(s.drop_first())
        }
    } else {
        Some(s)
    }
}

/// What `str::parse` gives for an unsigned integer type whose largest value is `max`:
/// an optional `+` followed by decimal digits only, with a value that fits.
pub open spec fn parse_unsigned_spec(s: Seq<char>, max: nat) -> Option<nat> {
    match unsigned_digits(s) {
        Some(d) => if (forall|i: int| 0 <= i < d.len() ==> is_digit(#[trigger] d[i]))
            && digits_value(d) <= max {
            Some(digits_value(d))
        } else {
            None
        },
        None => None,
    }
}

proof fn lemma_digits_value_grows(d: Seq<char>, i: int, j: int)
    requires
        0 <= i <= j <= d.len(),
        forall|k: int| 0 <= k < d.len() ==> is_digit(#[trigger] d[k]),
    ensures
        digits_value(d.subrange(0, i)) <= digits_value(d.subrange(0, j)),
    decreases j - i,
{
    if i < j {
        lemma_digits_value_grows(d, i, j - 1);
        let p = d.subrange(0, j);
        assert(p.drop_last() =~= d.subrange(0, j - 1));
        assert(is_digit(d[j - 1]));
    }
}

/// Parses an unsigned decimal integer no larger than `max`, as `str::parse` does.
pub fn parse_unsigned(s: &str, max: u64) -> (r: Option<u64>)
    ensures
        match r {
            Some(v) => parse_unsigned_spec(s@, max as nat) == Some(v as nat),
            None => parse_unsigned_spec(s@, max as nat) is None,
        },
{
    let n = s.unicode_len();
    if n == 0 {
        return None;
    }
    let mut start: usize = 0;
    if s.get_char(0) == '+' {
        if n == 1 {
            return None;
        }
        start = 1;
    }
    let ghost d = s@.subrange(start as int, n as int);
    proof {
        if start == 1 {
            assert(d =~= s@.drop_first());
        } else {
            assert(d =~= s@);
        }
        assert(unsigned_digits(s@) == Some(d));
    }
    let mut acc: u64 = 0;
    let mut i: usize = start;
    while i < n
        invariant
            n == s@.len(),
            start <= i <= n,
            d == s@.subrange(start as int, n as int),
            unsigned_digits(s@) == Some(d),
            forall|k: int| 0 <= k < i - start ==> is_digit(#[trigger] d[k]),
            acc as nat == digits_value(d.subrange(0, i - start)),
            acc <= max,
        decreases n - i,
    {
        let c = s.get_char(i);
        assert(d[i - start] == c);
        if !(c >= '0' && c <= '9') {
            assert(!is_digit(d[i - start]));
            return None;
        }
        let digit = (c as u32 - '0' as u32) as u64;
        let ghost p = d.subrange(0, i - start + 1);
        assert(p.drop_last() =~= d.subrange(0, i - start));
        assert(digits_value(p) == acc * 10 + digit);
        if digit > max || acc > (max - digit) / 10 {
            proof {
                if digit <= max {
                    assert(acc * 10 + digit > max) by (nonlinear_arith)
                        requires
                            acc > (max - digit) / 10,
                            digit <= max,
                    ;
                }
                if forall|k: int| 0 <= k < d.len() ==> is_digit(#[trigger] d[k]) {
                    lemma_digits_value_grows(d, i - start + 1, d.len() as int);
                    assert(d.subrange(0, d.len() as int) =~= d);
                }
            }
            return None;
        }
        assert(acc * 10 + digit <= max) by (nonlinear_arith)
            requires
                acc <= (max - digit) / 10,
                digit <= max,
        ;
        acc = acc * 10 + digit;
        i = i + 1;
    }
    assert(d.subrange(0, n - start) =~= d);
    Some(acc)
}

/// Unicode `White_Space`, the characters `str::trim` removes.
pub open spec fn is_whitespace(c: char) -> bool {
    ('\u{9}' <= c && c <= '\u{d}') || c == ' ' || c == '\u{85}' || c == '\u{a0}' || c
        == '\u{1680}' || ('\u{2000}' <= c && c <= '\u{200a}') || c == '\u{2028}' || c
        == '\u{2029}' || c == '\u{202f}' || c == '\u{205f}' || c == '\u{3000}'
}

fn whitespace(c: char) -> (r: bool)
    ensures
        r == is_whitespace(c),
{
    (c >= '\u{9}' && c <= '\u{d}') || c == ' ' || c == '\u{85}' || c == '\u{a0}' || c
        == '\u{1680}' || (c >= '\u{2000}' && c <= '\u{200a}') || c == '\u{2028}' || c
        == '\u{2029}' || c == '\u{202f}' || c == '\u{205f}' || c == '\u{3000}'
}

pub open spec fn trim_start_spec(s: Seq<char>) -> Seq<char>
    decreases s.len(),
{
    if s.len() > 0 && is_whitespace(s[0]) {
        trim_start_spec(s.drop_first())
    } else {
        s
    }
}

pub open spec fn trim_end_spec(s: Seq<char>) -> Seq<char>
    decreases s.len(),
{
    if s.len() > 0 && is_whitespace(s.last()) {
        trim_end_spec(s.drop_last())
    } else {
        s
    }
}

/// `s` without leading and trailing whitespace, as `str::trim` gives it.
pub open spec fn trim_spec(s: Seq<char>) -> Seq<char> {
    trim_end_spec(trim_start_spec(s))
}

/// Removes leading and trailing whitespace.
pub fn trim(s: &str) -> (r: &str)
    ensures
        r@ == trim_spec(s@),
{
    let n = s.unicode_len();
    let mut i: usize = 0;
    assert(s@.subrange(0, n as int) =~= s@);
    while i < n && whitespace(s.get_char(i))
        invariant
            n == s@.len(),
            i <= n,
            trim_start_spec(s@) == trim_start_spec(s@.subrange(i as int, n as int)),
        decreases n - i,
    {
        proof {
            let t = s@.subrange(i as int, n as int);
            assert(t[0] == s@[i as int]);
            assert(t.drop_first() =~= s@.subrange(i + 1, n as int));
        }
        i = i + 1;
    }
    let ghost t = s@.subrange(i as int, n as int);
    assert(trim_start_spec(s@) == t) by {
        if i < n {
            assert(t[0] == s@[i as int]);
        }
    }
    let mut j: usize = n;
    while j > i && whitespace(s.get_char(j - 1))
        invariant
            n == s@.len(),
            i <= j <= n,
            t == s@.subrange(i as int, n as int),
            trim_end_spec(t) == trim_end_spec(s@.subrange(i as int, j as int)),
        decreases j,
    {
        proof {
            let u = s@.subrange(i as int, j as int);
            assert(u.last() == s@[j - 1]);
            assert(u.drop_last() =~= s@.subrange(i as int, j - 1));
        }
        j = j - 1;
    }
    proof {
        let u = s@.subrange(i as int, j as int);
        if j > i {
            assert(u.last() == s@[j - 1]);
        }
    }
    s.substring_char(i, j)
}

/// `a` and `b` match when ASCII letters are compared without regard to case,
/// where `b` is written in lower case.
pub open spec fn ascii_ci_char(a: char, b: char) -> bool {
    a == b || ('a' <= b && b <= 'z' && (a as u32) + 32 == (b as u32))
}

pub open spec fn ascii_ci_eq(a: Seq<char>, lower: Seq<char>) -> bool {
    a.len() == lower.len() && forall|k: int| 0 <= k < a.len() ==> ascii_ci_char(#[trigger] a[k], lower[k])
}

fn eq_ignore_ascii_case(a: &str, lower: &str) -> (r: bool)
    ensures
        r == ascii_ci_eq(a@, lower@),
{
    let n = a.unicode_len();
    if n != lower.unicode_len() {
        return false;
    }
    let mut i: usize = 0;
    while i < n
        invariant
            n == a@.len(),
            n == lower@.len(),
            i <= n,
            forall|k: int| 0 <= k < i ==> ascii_ci_char(#[trigger] a@[k], lower@[k]),
        decreases n - i,
    {
        let x = a.get_char(i);
        let y = lower.get_char(i);
        if !(x == y || (y >= 'a' && y <= 'z' && (x as u32) + 32 == (y as u32))) {
            assert(!ascii_ci_char(a@[i as int], lower@[i as int]));
            return false;
        }
        i = i + 1;
    }
    true
}

/// A switch value is on when, with surrounding whitespace removed and ignoring
/// case, it is `1`, `true` or `yes`. (No character outside ASCII lower-cases to
/// an ASCII letter of these words, so comparing ASCII case-insensitively is the
/// same as comparing the lower-cased text.)
pub open spec fn switch_on(v: Seq<char>) -> bool {
    let t = trim_spec(v);
    ascii_ci_eq(t, "1"@) || ascii_ci_eq(t, "true"@) || ascii_ci_eq(t, "yes"@)
}

/// A switch read from the environment: its value when set, `default` otherwise.
pub open spec fn switch_or(v: Option<Seq<char>>, default: bool) -> bool {
    match v {
        Some(s) => switch_on(s),
        None => default,
    }
}

/// Reads a switch.
pub fn env_bool(value: &Option<String>, default: bool) -> (r: bool)
    ensures
        r == switch_or(opt_view(*value), default),
{
    match value {
        Some(v) => {
            let t = trim(v.as_str());
            eq_ignore_ascii_case(t, "1") || eq_ignore_ascii_case(t, "true")
                || eq_ignore_ascii_case(t, "yes")
        },
        None => default,
    }
}

/// A number read from the environment: its value when set and valid, `default` otherwise.
pub open spec fn number_or(v: Option<Seq<char>>, max: nat, default: nat) -> nat {
    match v {
        Some(s) => match parse_unsigned_spec(s, max) {
            Some(n) => n,
            None => default,
        },
        None => default,
    }
}

/// Reads a number no larger than `max`.
pub fn env_number(value: &Option<String>, max: u64, default: u64) -> (r: u64)
    requires
        default <= max,
    ensures
        r == number_or(opt_view(*value), max as nat, default as nat),
        r <= max,
{
    match value {
        Some(v) => match parse_unsigned(v.as_str(), max) {
            Some(n) => n,
            None => default,
        },
        None => default,
    }
}

/// The longest timeout, in seconds, whose milliseconds fit a `u64`.
pub const MAX_TIMEOUT_SECS: u64 = 18_446_744_073_709_551;

/// Reads a timeout given in whole seconds, and gives it in milliseconds.
pub fn env_seconds_as_millis(value: &Option<String>, default_secs: u64) -> (r: u64)
    requires
        default_secs <= MAX_TIMEOUT_SECS,
    ensures
        r == number_or(opt_view(*value), MAX_TIMEOUT_SECS as nat, default_secs as nat) * 1000,
{
    let secs = env_number(value, MAX_TIMEOUT_SECS, default_secs);
    secs * 1000
}

/// A text read from the environment: its value when set, `default` otherwise.
pub open spec fn text_or(v: Option<Seq<char>>, default: Seq<char>) -> Seq<char> {
    match v {
        Some(s) => s,
        None => default,
    }
}

fn env_text(value: &Option<String>, default: &str) -> (r: String)
    ensures
        r@ == text_or(opt_view(*value), default@),
{
    match value {
        Some(v) => v.clone(),
        None => String::from_str(default),
    }
}

/// The first of two alternative variables that is set.
pub open spec fn first_set(a: Option<Seq<char>>, b: Option<Seq<char>>) -> Option<Seq<char>> {
    match a {
        Some(s) => Some(s),
        None => b,
    }
}

impl Config {
    /// The configuration an environment describes. Unset or invalid values fall
    /// back to their defaults; the listening port is `SERVER_PORT` or else `PORT`,
    /// and the Chrome binary `CHROME_PATH` or else `CHROME_BIN`.
    pub fn from_env_values(env: &EnvValues) -> (r: Config)
        ensures
            r.server_host@ == text_or(opt_view(env.server_host), "0.0.0.0"@),
            r.server_port as nat == number_or(
                first_set(opt_view(env.server_port), opt_view(env.port)),
                65535,
                8080,
            ),
            r.log_level@ == text_or(opt_view(env.log_level), "info"@),
            r.chrome_path@ == text_or(
                first_set(opt_view(env.chrome_path), opt_view(env.chrome_bin)),
                "/usr/bin/google-chrome"@,
            ),
            r.browser_pool_size as nat == number_or(opt_view(env.browser_pool_size), usize::MAX as nat, 4),
            r.tabs_per_process as nat == number_or(opt_view(env.tabs_per_process), usize::MAX as nat, 5),
            r.headless == switch_or(opt_view(env.headless), true),
            r.disable_sandbox == switch_or(opt_view(env.disable_sandbox), false),
            opt_view(r.user_agent) == opt_view(env.user_agent),
            r.solve_timeout_ms as nat == number_or(opt_view(env.solve_timeout), MAX_TIMEOUT_SECS as nat, 120) * 1000,
            r.load_timeout_ms as nat == number_or(opt_view(env.load_timeout), MAX_TIMEOUT_SECS as nat, 30) * 1000,
            r.cdp_timeout_ms as nat == number_or(opt_view(env.cdp_timeout), MAX_TIMEOUT_SECS as nat, 10) * 1000,
            r.startup_timeout_ms as nat == number_or(opt_view(env.startup_timeout), MAX_TIMEOUT_SECS as nat, 20) * 1000,
            r.request_timeout_ms as nat == number_or(opt_view(env.request_timeout), MAX_TIMEOUT_SECS as nat, 60) * 1000,
            r.cdp_port_base as nat == number_or(opt_view(env.cdp_port_base), 65535, 9222),
    {
        let port_text = match &env.server_port {
            Some(v) => Some(v.clone()),
            None => match &env.port {
                Some(v) => Some(v.clone()),
                None => None,
            },
        };
        let chrome_text = match &env.chrome_path {
            Some(v) => Some(v.clone()),
            None => match &env.chrome_bin {
                Some(v) => Some(v.clone()),
                None => None,
            },
        };
        let user_agent = match &env.user_agent {
            Some(v) => Some(v.clone()),
            None => None,
        };
        Config {
            server_host: env_text(&env.server_host, "0.0.0.0"),
            server_port: env_number(&port_text, 65535, 8080) as u16,
            log_level: env_text(&env.log_level, "info"),
            chrome_path: env_text(&chrome_text, "/usr/bin/google-chrome"),
            browser_pool_size: env_number(&env.browser_pool_size, usize::MAX as u64, 4) as usize,
            tabs_per_process: env_number(&env.tabs_per_process, usize::MAX as u64, 5) as usize,
            headless: env_bool(&env.headless, true),
            disable_sandbox: env_bool(&env.disable_sandbox, false),
            user_agent,
            solve_timeout_ms: env_seconds_as_millis(&env.solve_timeout, 120),
            load_timeout_ms: env_seconds_as_millis(&env.load_timeout, 30),
            cdp_timeout_ms: env_seconds_as_millis(&env.cdp_timeout, 10),
            startup_timeout_ms: env_seconds_as_millis(&env.startup_timeout, 20),
            request_timeout_ms: env_seconds_as_millis(&env.request_timeout, 60),
            cdp_port_base: env_number(&env.cdp_port_base, 65535, 9222) as u16,
        }
    }

    pub fn solve_timeout_duration(&self) -> (d: Duration)
        ensures
            d == duration_from_millis(self.solve_timeout_ms),
    {
        millis(self.solve_timeout_ms)
    }

    pub fn load_timeout_duration(&self) -> (d: Duration)
        ensures
            d == duration_from_millis(self.load_timeout_ms),
    {
        millis(self.load_timeout_ms)
    }

    pub fn cdp_timeout_duration(&self) -> (d: Duration)
        ensures
            d == duration_from_millis(self.cdp_timeout_ms),
    {
        millis(self.cdp_timeout_ms)
    }

    pub fn startup_timeout(&self) -> (d: Duration)
        ensures
            d == duration_from_millis(self.startup_timeout_ms),
    {
        millis(self.startup_timeout_ms)
    }

    pub fn request_timeout(&self) -> (d: Duration)
        ensures
            d == duration_from_millis(self.request_timeout_ms),
    {
        millis(self.request_timeout_ms)
    }
}

} // verus!
