//! Configuration resolution with documented defaults.
//!
//! Three settings arrive as optional raw text (read from the process
//! environment by the caller): the response status code, the storage
//! location, and the listen port. Each falls back to a documented default
//! when absent, and the two numeric settings also fall back when the raw
//! text does not parse as an integer in the valid range. The resolver
//! reports, for each setting, whether the value came from the environment
//! or from a default, so the caller can emit the corresponding notice.

use vstd::prelude::*;
use vstd::string::StringExecFns;
use vstd::string::StrSliceExecFns;

verus! {

/// Default response status code when `RESPONSE_CODE` is absent or malformed.
pub const DEFAULT_STATUS_CODE: u16 = 418;

/// Default listen port when `TEAPOT_FORTUNE_PORT` is absent or malformed.
pub const DEFAULT_LISTEN_PORT: u16 = 6757;

/// Fallback maximum-identifier bound, substituted when the aggregate query
/// fails or the collection is empty. A deliberate overestimate of the real
/// population, so sampling below it still occasionally misses ("fail open
/// with retry"), never a precise count.
pub const DEFAULT_MAX_ID_FALLBACK: i64 = 388800;

/// Default bound on storage probes per selection, so that an empty
/// collection surfaces "no content" instead of an endless retry loop.
pub const DEFAULT_MAX_FETCH_ATTEMPTS: u64 = 100000;

/// Where a resolved setting came from.
#[derive(Clone, Copy, Debug, PartialEq, Eq, Structural)]
pub enum Source {
    /// The raw value was present and accepted.
    Environment,
    /// No raw value was supplied; the default was used.
    DefaultMissing,
    /// A raw value was supplied but rejected; the default was used.
    DefaultMalformed,
}

/// The process-wide configuration, immutable once resolved.
#[derive(Clone, Debug)]
pub struct ResolvedConfig {
    pub status_code: u16,
    pub storage_location: String,
    pub listen_port: u16,
    pub max_id_fallback: i64,
    pub max_fetch_attempts: u64,
}

/// A resolved configuration together with the origin of each setting.
pub struct ConfigReport {
    pub config: ResolvedConfig,
    pub status_source: Source,
    pub location_source: Source,
    pub port_source: Source,
}

/// A decimal digit, by code point.
pub open spec fn is_decimal_digit(c: char) -> bool {
    48 <= c as int <= 57
}

/// The numeric value of a decimal digit.
pub open spec fn digit_value(c: char) -> int {
    c as int - 48
}

/// Every character of `s` is a decimal digit.
pub open spec fn all_digits(s: Seq<char>) -> bool {
    forall|i: int| 0 <= i < s.len() ==> is_decimal_digit(#[trigger] s[i])
}

/// The value of a digit string read in base ten.
pub open spec fn digits_value(s: Seq<char>) -> int
    decreases s.len(),
{
    if s.len() == 0 {
        0
    } else {
        digits_value(s.drop_last()) * 10 + digit_value(s.last())
    }
}

/// The digit portion of a candidate integer: everything after one
/// optional leading plus sign.
pub open spec fn numeric_body(s: Seq<char>) -> Seq<char> {
    if s.len() > 0 && s[0] == '+' {
        s.subrange(1, s.len() as int)
    } else {
        s
    }
}

/// Whether `s` is a decimal integer that fits in sixteen unsigned bits:
/// an optional leading plus sign, then one or more decimal digits, whose
/// value is at most 65535.
pub open spec fn parses_as_u16(s: Seq<char>) -> bool {
    let d = numeric_body(s);
    d.len() > 0 && all_digits(d) && digits_value(d) <= 65535
}

/// The parsed value of a string satisfying `parses_as_u16`.
pub open spec fn parsed_u16(s: Seq<char>) -> u16 {
    digits_value(numeric_body(s)) as u16
}

proof fn lemma_digits_value_nonneg(s: Seq<char>)
    requires
        all_digits(s),
    ensures
        digits_value(s) >= 0,
    decreases s.len(),
{
    if s.len() > 0 {
        assert forall|i: int| 0 <= i < s.drop_last().len() implies is_decimal_digit(
            #[trigger] s.drop_last()[i],
        ) by {
            assert(s.drop_last()[i] == s[i]);
        }
        lemma_digits_value_nonneg(s.drop_last());
        assert(is_decimal_digit(s[s.len() - 1]));
    }
}

/// Parse a decimal integer into sixteen unsigned bits, accepting exactly
/// the strings of one optional leading plus sign followed by one or more
/// decimal digits whose value fits.
pub fn parse_u16(s: &str) -> (r: Option<u16>)
    ensures
        parses_as_u16(s@) ==> r == Some(parsed_u16(s@)),
        !parses_as_u16(s@) ==> r is None,
{
    let n = s.unicode_len();
    let mut start: usize = 0;
    if n > 0 && s.get_char(0) == '+' {
        start = 1;
    }
    proof {
        assert(numeric_body(s@) =~= s@.subrange(start as int, n as int));
    }
    if start >= n {
        assert(numeric_body(s@).len() == 0);
        return None;
    }
    let mut acc: u32 = 0;
    let mut i: usize = start;
    while i < n
        invariant
            n == s@.len(),
            start <= i <= n,
            start < n,
            numeric_body(s@) =~= s@.subrange(start as int, n as int),
            all_digits(s@.subrange(start as int, i as int)),
            acc <= 655359,
            digits_value(s@.subrange(start as int, i as int)) <= 65535 ==> acc == digits_value(
                s@.subrange(start as int, i as int),
            ),
            digits_value(s@.subrange(start as int, i as int)) > 65535 ==> acc > 65535,
        decreases n - i,
    {
        let ghost p = s@.subrange(start as int, i as int);
        let c = s.get_char(i);
        let cv = c as u32;
        if cv < 48 || cv > 57 {
            proof {
                let nb = numeric_body(s@);
                assert(nb[i - start] == s@[i as int]);
                assert(!is_decimal_digit(nb[i - start]));
            }
            return None;
        }
        let d: u32 = cv - 48;
        proof {
            let p2 = s@.subrange(start as int, i + 1);
            assert(p2.drop_last() =~= p);
            assert(p2.last() == s@[i as int]);
            assert(digits_value(p2) == digits_value(p) * 10 + digit_value(s@[i as int]));
            lemma_digits_value_nonneg(p);
            assert forall|j: int| 0 <= j < p2.len() implies is_decimal_digit(
                #[trigger] p2[j],
            ) by {
                if j < p2.len() - 1 {
                    assert(p2[j] == p[j]);
                }
            }
        }
        if acc <= 65535 {
            acc = acc * 10 + d;
        }
        i = i + 1;
    }
    proof {
        assert(s@.subrange(start as int, i as int) =~= numeric_body(s@));
    }
    if acc <= 65535 {
        Some(acc as u16)
    } else {
        None
    }
}

/// A legal HTTP status code.
pub open spec fn valid_status_code(n: int) -> bool {
    100 <= n <= 599
}

/// Whether a raw status-code value is accepted: it parses and lies in the
/// valid status range.
pub open spec fn status_accepted(s: Seq<char>) -> bool {
    parses_as_u16(s) && valid_status_code(parsed_u16(s) as int)
}

/// The resolved status code for a raw environment value.
pub open spec fn status_code_of(raw: Option<Seq<char>>) -> u16 {
    match raw {
        None => DEFAULT_STATUS_CODE,
        Some(s) => if status_accepted(s) {
            parsed_u16(s)
        } else {
            DEFAULT_STATUS_CODE
        },
    }
}

/// The origin of the resolved status code.
pub open spec fn status_source_of(raw: Option<Seq<char>>) -> Source {
    match raw {
        None => Source::DefaultMissing,
        Some(s) => if status_accepted(s) {
            Source::Environment
        } else {
            Source::DefaultMalformed
        },
    }
}

/// The resolved listen port for a raw environment value.
pub open spec fn port_of(raw: Option<Seq<char>>) -> u16 {
    match raw {
        None => DEFAULT_LISTEN_PORT,
        Some(s) => if parses_as_u16(s) {
            parsed_u16(s)
        } else {
            DEFAULT_LISTEN_PORT
        },
    }
}

/// The origin of the resolved listen port.
pub open spec fn port_source_of(raw: Option<Seq<char>>) -> Source {
    match raw {
        None => Source::DefaultMissing,
        Some(s) => if parses_as_u16(s) {
            Source::Environment
        } else {
            Source::DefaultMalformed
        },
    }
}

/// The default storage location.
pub open spec fn default_location() -> Seq<char> {
    "./data/copypastas.sqlite"@
}

/// The resolved storage location for a raw environment value: any
/// supplied text is taken verbatim.
pub open spec fn location_of(raw: Option<Seq<char>>) -> Seq<char> {
    match raw {
        None => default_location(),
        Some(s) => s,
    }
}

/// The origin of the resolved storage location.
pub open spec fn location_source_of(raw: Option<Seq<char>>) -> Source {
    match raw {
        None => Source::DefaultMissing,
        Some(_) => Source::Environment,
    }
}

/// The view of an optional borrowed raw value.
pub open spec fn opt_str_view(raw: Option<&str>) -> Option<Seq<char>> {
    match raw {
        None => None,
        Some(s) => Some(s@),
    }
}

/// The view of an optional owned raw value.
pub open spec fn opt_string_view(raw: Option<String>) -> Option<Seq<char>> {
    match raw {
        None => None,
        Some(s) => Some(s@),
    }
}

/// Resolve the response status code: accept a parseable value in the
/// valid status range, fall back to the default otherwise.
pub fn resolve_status_code(raw: Option<&str>) -> (r: (u16, Source))
    ensures
        r.0 == status_code_of(opt_str_view(raw)),
        r.1 == status_source_of(opt_str_view(raw)),
{
    match raw {
        None => (DEFAULT_STATUS_CODE, Source::DefaultMissing),
        Some(s) => match parse_u16(s) {
            Some(n) => if 100 <= n && n <= 599 {
                (n, Source::Environment)
            } else {
                (DEFAULT_STATUS_CODE, Source::DefaultMalformed)
            },
            None => (DEFAULT_STATUS_CODE, Source::DefaultMalformed),
        },
    }
}

/// Resolve the listen port: accept any value that parses into sixteen
/// bits, fall back to the default otherwise.
pub fn resolve_listen_port(raw: Option<&str>) -> (r: (u16, Source))
    ensures
        r.0 == port_of(opt_str_view(raw)),
        r.1 == port_source_of(opt_str_view(raw)),
{
    match raw {
        None => (DEFAULT_LISTEN_PORT, Source::DefaultMissing),
        Some(s) => match parse_u16(s) {
            Some(n) => (n, Source::Environment),
            None => (DEFAULT_LISTEN_PORT, Source::DefaultMalformed),
        },
    }
}

/// Resolve the storage location: any supplied text is taken verbatim,
/// absence yields the default path.
pub fn resolve_storage_location(raw: Option<String>) -> (r: (String, Source))
    ensures
        r.0@ == location_of(opt_string_view(raw)),
        r.1 == location_source_of(opt_string_view(raw)),
{
    match raw {
        Some(s) => (s, Source::Environment),
        None => (String::from_str("./data/copypastas.sqlite"), Source::DefaultMissing),
    }
}

/// Resolve the whole configuration from the three raw environment values,
/// reporting the origin of each setting so the caller can emit notices.
pub fn resolve_config(
    status_raw: Option<&str>,
    location_raw: Option<String>,
    port_raw: Option<&str>,
) -> (r: ConfigReport)
    ensures
        r.config.status_code == status_code_of(opt_str_view(status_raw)),
        r.config.storage_location@ == location_of(opt_string_view(location_raw)),
        r.config.listen_port == port_of(opt_str_view(port_raw)),
        r.config.max_id_fallback == DEFAULT_MAX_ID_FALLBACK,
        r.config.max_fetch_attempts == DEFAULT_MAX_FETCH_ATTEMPTS,
        r.status_source == status_source_of(opt_str_view(status_raw)),
        r.location_source == location_source_of(opt_string_view(location_raw)),
        r.port_source == port_source_of(opt_str_view(port_raw)),
        valid_status_code(r.config.status_code as int),
{
    let (status_code, status_source) = resolve_status_code(status_raw);
    let (storage_location, location_source) = resolve_storage_location(location_raw);
    let (listen_port, port_source) = resolve_listen_port(port_raw);
    ConfigReport {
        config: ResolvedConfig {
            status_code,
            storage_location,
            listen_port,
            max_id_fallback: DEFAULT_MAX_ID_FALLBACK,
            max_fetch_attempts: DEFAULT_MAX_FETCH_ATTEMPTS,
        },
        status_source,
        location_source,
        port_source,
    }
}

/// Law: with no recognized variable supplied, resolution yields exactly
/// the documented defaults: status code 418, storage location
/// "./data/copypastas.sqlite", listen port 6757.
pub proof fn lemma_unset_environment_gives_defaults()
    ensures
        status_code_of(Option::<Seq<char>>::None) == 418u16,
        location_of(Option::<Seq<char>>::None) == "./data/copypastas.sqlite"@,
        port_of(Option::<Seq<char>>::None) == 6757u16,
{
}

/// Law: whatever the environment holds, the resolved status code is a
/// legal HTTP status code.
pub proof fn lemma_resolved_status_always_valid(raw: Option<Seq<char>>)
    ensures
        valid_status_code(status_code_of(raw) as int),
{
}

} // verus!
