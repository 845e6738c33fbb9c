//! What the agent measures each tick, and how it is written down.

use vstd::prelude::*;
use crate::text::{decimal, digit, digit_char, is_digit, push_char, push_decimal};

verus! {

/// The earliest instant, in milliseconds since the Unix epoch, that chrono's
/// `DateTime<Utc>` can hold (1 January 262143 BCE, 00:00:00.000).
pub const MIN_UTC_MILLIS: i64 = -8334601228800000;
/// The latest such instant (31 December 262142, 23:59:59.999).
pub const MAX_UTC_MILLIS: i64 = 8210266876799999;

/// chrono's RFC 3339 text for the instant `ms` milliseconds after the Unix
/// epoch, in UTC, with milliseconds and a `Z` suffix.
pub uninterp spec fn rfc3339_utc_millis(ms: i64) -> Seq<char>;

/// The characters chrono writes in such a text: digits, the year's sign,
/// the date and time separators, and `Z`.
pub open spec fn is_timestamp_char(c: char) -> bool {
    ||| is_digit(c)
    ||| c == '-' || c == '+' || c == ':' || c == '.' || c == 'T' || c == 'Z'
}

/// `chrono::DateTime::<Utc>::from_timestamp_millis` followed by
/// `to_rfc3339_opts(SecondsFormat::Millis, true)`. The conversion succeeds
/// exactly on chrono's range of instants; the text is chrono's, and is made
/// of digits, `+`, `-`, `:`, `.`, `T` and `Z` only.
#[verifier::external_body]
fn rfc3339_millis(ms: i64) -> (res: Option<String>)
    ensures
        res is Some <==> MIN_UTC_MILLIS <= ms <= MAX_UTC_MILLIS,
        res matches Some(s) ==> s@ == rfc3339_utc_millis(ms),
        res matches Some(s) ==> forall|i: int| 0 <= i < s@.len() ==> is_timestamp_char(#[trigger] s@[i]),
{
    match chrono::DateTime::from_timestamp_millis(ms) {
        Some(t) => Some(t.to_rfc3339_opts(chrono::SecondsFormat::Millis, true)),
        None => None,
    }
}

/// Whether chrono can hold the instant `ms`.
pub fn utc_in_range(ms: i64) -> (r: bool)
    ensures
        r == (MIN_UTC_MILLIS <= ms <= MAX_UTC_MILLIS),
{
    MIN_UTC_MILLIS <= ms && ms <= MAX_UTC_MILLIS
}

/// RFC 3339 aka ISO string `2026-09-15T19:20:31.123Z`, for the instant
/// `utc_ms` milliseconds after the Unix epoch.
pub fn format_utc(utc_ms: i64) -> (s: String)
    requires
        MIN_UTC_MILLIS <= utc_ms <= MAX_UTC_MILLIS,
    ensures
        s@ == rfc3339_utc_millis(utc_ms),
        forall|i: int| 0 <= i < s@.len() ==> is_timestamp_char(#[trigger] s@[i]),
{
    match rfc3339_millis(utc_ms) {
        Some(s) => s,
        None => String::new(),
    }
}

/// One tick's measurements: the time, as milliseconds since the Unix epoch
/// in UTC, and this process's resident set size.
#[derive(Debug, Clone, Copy)]
pub struct Metrics {
    pub utc_ms: i64,
    pub rss_bytes: u64,
}

/// The single argument the child receives.
pub open spec fn arg_text(m: Metrics) -> Seq<char> {
    "utc="@ + rfc3339_utc_millis(m.utc_ms) + ";rss_bytes="@ + decimal(m.rss_bytes as nat)
}

/// The line the agent logs for a tick's metrics.
pub open spec fn display_text(m: Metrics) -> Seq<char> {
    "utc="@ + rfc3339_utc_millis(m.utc_ms) + " rss="@ + human_bytes_text(m.rss_bytes as nat) + " ("@
        + decimal(m.rss_bytes as nat) + " bytes)"@
}

/// A character that would split or quote a command-line argument.
pub open spec fn breaks_argument(c: char) -> bool {
    c == ' ' || c == '\t' || c == '\n' || c == '\r' || c == '"' || c == '\''
}

proof fn lemma_decimal_digits(n: nat)
    ensures
        forall|i: int| 0 <= i < decimal(n).len() ==> is_digit(#[trigger] decimal(n)[i]),
    decreases n,
{
    if n >= 10 {
        lemma_decimal_digits(n / 10);
        assert forall|i: int| 0 <= i < decimal(n).len() implies is_digit(#[trigger] decimal(n)[i]) by {
            if i < decimal(n / 10).len() {
                assert(decimal(n)[i] == decimal(n / 10)[i]);
            }
        }
    }
}

/// The child's argument around a rendered timestamp.
pub open spec fn arg_text_with(timestamp: Seq<char>, rss_bytes: u64) -> Seq<char> {
    "utc="@ + timestamp + ";rss_bytes="@ + decimal(rss_bytes as nat)
}

/// The log line around a rendered timestamp.
pub open spec fn display_text_with(timestamp: Seq<char>, rss_bytes: u64) -> Seq<char> {
    "utc="@ + timestamp + " rss="@ + human_bytes_text(rss_bytes as nat) + " ("@ + decimal(rss_bytes as nat)
        + " bytes)"@
}

impl Metrics {
    /// Whether the time is one chrono can render.
    pub open spec fn in_range(self) -> bool {
        MIN_UTC_MILLIS <= self.utc_ms <= MAX_UTC_MILLIS
    }

    /// The child's argument, given the rendered time. When the time's text
    /// holds no blank or quote, neither does the argument.
    pub fn to_arg_with(self, timestamp: &str) -> (s: String)
        ensures
            s@ == arg_text_with(timestamp@, self.rss_bytes),
            (forall|i: int| 0 <= i < timestamp@.len() ==> !breaks_argument(#[trigger] timestamp@[i]))
                ==> forall|i: int| 0 <= i < s@.len() ==> !breaks_argument(#[trigger] s@[i]),
    {
        let mut s = String::from_str("utc=");
        s.append(timestamp);
        s.append(";rss_bytes=");
        push_decimal(&mut s, self.rss_bytes);
        proof {
            reveal_strlit("utc=");
            reveal_strlit(";rss_bytes=");
            lemma_decimal_digits(self.rss_bytes as nat);
            let a = "utc="@;
            let b = timestamp@;
            let c = ";rss_bytes="@;
            let d = decimal(self.rss_bytes as nat);
            if forall|i: int| 0 <= i < b.len() ==> !breaks_argument(#[trigger] b[i]) {
                assert forall|i: int| 0 <= i < s@.len() implies !breaks_argument(#[trigger] s@[i]) by {
                    if i < a.len() {
                        assert(s@[i] == a[i]);
                    } else if i < a.len() + b.len() {
                        assert(s@[i] == b[i - a.len()]);
                    } else if i < a.len() + b.len() + c.len() {
                        assert(s@[i] == c[i - a.len() - b.len()]);
                    } else {
                        assert(s@[i] == d[i - a.len() - b.len() - c.len()]);
                    }
                }
            }
        }
        s
    }

    /// The single argument handed to the child. No spaces or quotes, so it
    /// survives any command line as one token.
    pub fn to_arg(self) -> (s: String)
        requires
            self.in_range(),
        ensures
            s@ == arg_text(self),
            forall|i: int| 0 <= i < s@.len() ==> !breaks_argument(#[trigger] s@[i]),
    {
        let t = format_utc(self.utc_ms);
        proof {
            assert forall|i: int| 0 <= i < t@.len() implies !breaks_argument(#[trigger] t@[i]) by {
                assert(is_timestamp_char(t@[i]));
            }
        }
        self.to_arg_with(t.as_str())
    }

    /// The log line for these metrics, given the rendered time.
    pub fn to_display_with(self, timestamp: &str) -> (s: String)
        ensures
            s@ == display_text_with(timestamp@, self.rss_bytes),
    {
        let mut s = String::from_str("utc=");
        s.append(timestamp);
        s.append(" rss=");
        let h = human_bytes(self.rss_bytes);
        s.append(h.as_str());
        s.append(" (");
        push_decimal(&mut s, self.rss_bytes);
        s.append(" bytes)");
        s
    }

    pub fn to_display(self) -> (s: String)
        requires
            self.in_range(),
        ensures
            s@ == display_text(self),
    {
        let t = format_utc(self.utc_ms);
        self.to_display_with(t.as_str())
    }
}

// ---- sizes in binary units ----

pub open spec fn two_pow(k: nat) -> nat
    decreases k,
{
    if k == 0 { 1 } else { 2 * two_pow((k - 1) as nat) }
}

proof fn lemma_two_pow_mono(a: nat, b: nat)
    requires
        a <= b,
    ensures
        1 <= two_pow(a) <= two_pow(b),
    decreases b,
{
    if b > a {
        lemma_two_pow_mono(a, (b - 1) as nat);
    } else if b > 0 {
        lemma_two_pow_mono(0, (b - 1) as nat);
    }
}

/// How many low bits of `n` fall outside a 53-bit significand.
pub open spec fn excess_bits(n: nat) -> nat
    decreases n,
{
    if n < 0x20_0000_0000_0000 { 0 } else { 1 + excess_bits(n / 2) }
}

/// The `f64` nearest to `n` (what `n as f64` gives): `n` rounded to 53
/// significant bits, ties to the even significand.
pub open spec fn nearest_double(n: nat) -> nat {
    let p = two_pow(excess_bits(n));
    let q = n / p;
    let r = n % p;
    if 2 * r > p || (2 * r == p && q % 2 == 1) { (q + 1) * p } else { q * p }
}

/// `x / den` to one decimal place, in tenths, rounded to nearest with ties
/// to even (as `{:.1}` renders an exact binary value).
pub open spec fn rounded_tenths(x: nat, den: nat) -> nat {
    let q = (x * 10) / den;
    let r = (x * 10) % den;
    if 2 * r > den || (2 * r == den && q % 2 == 1) { q + 1 } else { q }
}

/// The unit `human_bytes` picks: the largest of KiB, MiB, GiB that the
/// value reaches, else bytes.
pub open spec fn size_unit(b: nat) -> nat {
    if b >= 0x4000_0000 { 3 } else if b >= 0x10_0000 { 2 } else if b >= 0x400 { 1 } else { 0 }
}

pub open spec fn unit_size(u: nat) -> nat {
    if u == 1 { 0x400 } else if u == 2 { 0x10_0000 } else { 0x4000_0000 }
}

pub open spec fn unit_name(u: nat) -> Seq<char> {
    if u == 1 { "KiB"@ } else if u == 2 { "MiB"@ } else { "GiB"@ }
}

/// `bytes` in the largest binary unit it reaches (up to GiB), with one
/// decimal; plain bytes below 1 KiB.
pub open spec fn human_bytes_text(b: nat) -> Seq<char> {
    if b < 0x400 {
        decimal(b) + " B"@
    } else {
        let u = size_unit(b);
        let t = rounded_tenths(nearest_double(b), unit_size(u));
        decimal(t / 10) + seq!['.', digit_char(t % 10), ' '] + unit_name(u)
    }
}

/// `t` tenths is `x / unit` rounded to the nearest tenth: within half a
/// tenth of it, and even when exactly halfway.
pub open spec fn nearest_tenths(t: nat, x: nat, unit: nat) -> bool {
    let err = 10 * x - t * unit;
    &&& -(unit as int) <= 2 * err <= unit as int
    &&& (2 * err == unit || 2 * err == -(unit as int)) ==> t % 2 == 0
}

proof fn lemma_rounded_tenths_nearest(x: nat, den: nat)
    requires
        den > 0,
    ensures
        nearest_tenths(rounded_tenths(x, den), x, den),
{
    let q = (x * 10) / den;
    let r = (x * 10) % den;
    vstd::arithmetic::div_mod::lemma_fundamental_div_mod((x * 10) as int, den as int);
    vstd::arithmetic::div_mod::lemma_mod_bound((x * 10) as int, den as int);
    assert(10 * x == q * den + r);
    assert((q + 1) * den == q * den + den) by (nonlinear_arith);
}

proof fn lemma_exact_below_2_53(b: nat)
    requires
        b < 0x20_0000_0000_0000,
    ensures
        nearest_double(b) == b,
{
    assert(excess_bits(b) == 0);
    assert(two_pow(0) == 1);
    assert(b / 1 == b);
    assert(b % 1 == 0);
}

/// Law: below 1 KiB the size is the exact byte count in `B`; from 1 KiB on
/// it names the largest of KiB, MiB and GiB that it reaches and shows the
/// size in that unit rounded to the nearest tenth, with one decimal (up to
/// 2^53 bytes, beyond which the value is first rounded as an `f64`).
pub proof fn lemma_size_shown(b: nat)
    requires
        b < 0x20_0000_0000_0000,
    ensures
        b < 0x400 ==> human_bytes_text(b) == decimal(b) + " B"@,
        0x400 <= b < 0x10_0000 ==> exists|t: nat| #[trigger] nearest_tenths(t, b, 0x400)
            && human_bytes_text(b) == decimal(t / 10) + seq!['.', digit_char(t % 10), ' '] + "KiB"@,
        0x10_0000 <= b < 0x4000_0000 ==> exists|t: nat| #[trigger] nearest_tenths(t, b, 0x10_0000)
            && human_bytes_text(b) == decimal(t / 10) + seq!['.', digit_char(t % 10), ' '] + "MiB"@,
        0x4000_0000 <= b ==> exists|t: nat| #[trigger] nearest_tenths(t, b, 0x4000_0000)
            && human_bytes_text(b) == decimal(t / 10) + seq!['.', digit_char(t % 10), ' '] + "GiB"@,
{
    lemma_exact_below_2_53(b);
    if b >= 0x400 {
        let u = size_unit(b);
        lemma_rounded_tenths_nearest(b, unit_size(u));
        let t = rounded_tenths(b, unit_size(u));
        assert(nearest_tenths(t, b, unit_size(u)));
    }
}

/// The size shown as `t` tenths of `unit_name`.
spec fn tenths_text(t: nat, unit_name: Seq<char>) -> Seq<char> {
    decimal(t / 10) + seq!['.', digit_char(t % 10), ' '] + unit_name
}

proof fn lemma_line_in_unit(timestamp: Seq<char>, rss_bytes: u64, unit: nat, name: Seq<char>, t: nat)
    requires
        nearest_tenths(t, rss_bytes as nat, unit),
        human_bytes_text(rss_bytes as nat) == tenths_text(t, name),
    ensures
        exists|t: nat| #[trigger] nearest_tenths(t, rss_bytes as nat, unit)
            && display_text_with(timestamp, rss_bytes) == "utc="@ + timestamp + " rss="@
                + decimal(t / 10) + seq!['.', digit_char(t % 10), ' '] + name + " ("@
                + decimal(rss_bytes as nat) + " bytes)"@,
{
    assert(display_text_with(timestamp, rss_bytes) == "utc="@ + timestamp + " rss="@
        + decimal(t / 10) + seq!['.', digit_char(t % 10), ' '] + name + " ("@
        + decimal(rss_bytes as nat) + " bytes)"@);
}

/// Law: the log line for a tick shows the time, then the size rendering of
/// the resident set size itself (the exact count in `B` below 1 KiB, else
/// the value in its unit to the nearest tenth), then the exact byte count.
pub proof fn lemma_display_shows_size(timestamp: Seq<char>, rss_bytes: u64)
    requires
        rss_bytes < 0x20_0000_0000_0000,
    ensures
        rss_bytes < 0x400 ==> display_text_with(timestamp, rss_bytes) == "utc="@ + timestamp + " rss="@
            + decimal(rss_bytes as nat) + " B"@ + " ("@ + decimal(rss_bytes as nat) + " bytes)"@,
        0x400 <= rss_bytes < 0x10_0000 ==> exists|t: nat| #[trigger] nearest_tenths(t, rss_bytes as nat, 0x400)
            && display_text_with(timestamp, rss_bytes) == "utc="@ + timestamp + " rss="@
                + decimal(t / 10) + seq!['.', digit_char(t % 10), ' '] + "KiB"@ + " ("@
                + decimal(rss_bytes as nat) + " bytes)"@,
        0x10_0000 <= rss_bytes < 0x4000_0000 ==> exists|t: nat| #[trigger] nearest_tenths(t, rss_bytes as nat, 0x10_0000)
            && display_text_with(timestamp, rss_bytes) == "utc="@ + timestamp + " rss="@
                + decimal(t / 10) + seq!['.', digit_char(t % 10), ' '] + "MiB"@ + " ("@
                + decimal(rss_bytes as nat) + " bytes)"@,
        0x4000_0000 <= rss_bytes ==> exists|t: nat| #[trigger] nearest_tenths(t, rss_bytes as nat, 0x4000_0000)
            && display_text_with(timestamp, rss_bytes) == "utc="@ + timestamp + " rss="@
                + decimal(t / 10) + seq!['.', digit_char(t % 10), ' '] + "GiB"@ + " ("@
                + decimal(rss_bytes as nat) + " bytes)"@,
{
    let b = rss_bytes as nat;
    if b >= 0x400 {
        lemma_exact_below_2_53(b);
        let u = size_unit(b);
        let t = rounded_tenths(b, unit_size(u));
        lemma_rounded_tenths_nearest(b, unit_size(u));
        assert(human_bytes_text(b) == tenths_text(t, unit_name(u)));
        lemma_line_in_unit(timestamp, rss_bytes, unit_size(u), unit_name(u), t);
    }
}

/// Law: the line logged for metrics is the one for their time's rendering.
pub proof fn lemma_display_is_with_time(m: Metrics)
    ensures
        display_text(m) == display_text_with(rfc3339_utc_millis(m.utc_ms), m.rss_bytes),
{
}

/// `bytes as f64`, as an exact integer.
fn nearest_double_exec(bytes: u64) -> (d: u128)
    ensures
        d == nearest_double(bytes as nat),
        d <= 0x1_0000_0000_0000_0000,
{
    let mut m: u64 = bytes;
    let mut p: u128 = 1;
    let ghost mut s: nat = 0;
    while m >= 0x20_0000_0000_0000
        invariant
            m == bytes as nat / p as nat,
            p == two_pow(s),
            p >= 1,
            s <= 11,
            p <= 0x800,
            p as nat * m as nat <= bytes as nat,
            excess_bits(bytes as nat) == s + excess_bits(m as nat),
        decreases m,
    {
        proof {
            assert(p * 0x20_0000_0000_0000 <= p * m) by (nonlinear_arith)
                requires m >= 0x20_0000_0000_0000, p >= 1;
            assert(p < 0x800);
            if s >= 11 {
                lemma_two_pow_mono(11, s);
                assert(two_pow(11) == 0x800) by {
                    reveal_with_fuel(two_pow, 12);
                }
            }
            lemma_two_pow_mono(s + 1, 11);
            assert(two_pow(11) == 0x800) by {
                reveal_with_fuel(two_pow, 12);
            }
            vstd::arithmetic::div_mod::lemma_div_denominator(bytes as int, p as int, 2);
            assert((m / 2) as nat * 2 <= m);
            assert(p as nat * 2 * (m / 2) as nat <= p as nat * m as nat) by (nonlinear_arith)
                requires (m / 2) as nat * 2 <= m;
        }
        m = m / 2;
        p = p * 2;
        proof {
            s = s + 1;
        }
    }
    let q = m as u128;
    let r = (bytes as u128) % p;
    proof {
        assert(excess_bits(bytes as nat) == s);
        assert(q * p <= bytes) by (nonlinear_arith)
            requires p as nat * m as nat <= bytes as nat, q == m;
        vstd::arithmetic::div_mod::lemma_fundamental_div_mod(bytes as int, p as int);
    }
    if 2 * r > p || (2 * r == p && q % 2 == 1) {
        proof {
            assert((q + 1) * p <= 0x1_0000_0000_0000_0000) by (nonlinear_arith)
                requires q < 0x20_0000_0000_0000, p <= 0x800;
        }
        (q + 1) * p
    } else {
        q * p
    }
}

/// Renders a size like `512 B`, `1.5 KiB` or `3.9 GiB`.
pub fn human_bytes(bytes: u64) -> (s: String)
    ensures
        s@ == human_bytes_text(bytes as nat),
{
    if bytes < 0x400 {
        let mut s = String::new();
        push_decimal(&mut s, bytes);
        s.append(" B");
        return s;
    }
    let d = nearest_double_exec(bytes);
    let (den, name): (u128, &str) = if bytes >= 0x4000_0000 {
        (0x4000_0000, "GiB")
    } else if bytes >= 0x10_0000 {
        (0x10_0000, "MiB")
    } else {
        (0x400, "KiB")
    };
    let num = d * 10;
    let q = num / den;
    let r = num % den;
    let t: u128 = if 2 * r > den || (2 * r == den && q % 2 == 1) { q + 1 } else { q };
    proof {
        assert(q <= num) by (nonlinear_arith) requires den >= 1, q == num / den;
    }
    let whole = (t / 10) as u64;
    let mut s = String::new();
    push_decimal(&mut s, whole);
    push_char(&mut s, '.');
    push_char(&mut s, digit((t % 10) as u64));
    push_char(&mut s, ' ');
    s.append(name);
    proof {
        assert(seq!['.', digit_char((t % 10) as nat), ' '] =~= seq!['.'].push(digit_char((t % 10) as nat)).push(' '));
    }
    s
}

} // verus!
