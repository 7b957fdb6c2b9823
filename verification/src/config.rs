//! Settings read once at startup from the environment, never mutated.
//! The environment itself is read by the binary; this module turns the
//! raw values into settings, with the defaults and error messages of
//! each variable.

use crate::decimal::{digit_value, is_digit};
use crate::text::chars_of;
use vstd::prelude::*;

verus! {

/// Why decimal text is not an integer of the target type; the cases of
/// `core::num::IntErrorKind` that decimal parsing produces.
#[derive(Debug, Clone, Copy, PartialEq, Eq, Structural)]
pub enum IntError {
    Empty,
    InvalidDigit,
    PosOverflow,
    NegOverflow,
}

/// The message of a parse error (`ParseIntError`'s `Display`).
pub open spec fn int_error_message(e: IntError) -> Seq<char> {
    match e {
        IntError::Empty => "cannot parse integer from empty string"@,
        IntError::InvalidDigit => "invalid digit found in string"@,
        IntError::PosOverflow => "number too large to fit in target type"@,
        IntError::NegOverflow => "number too small to fit in target type"@,
    }
}

impl IntError {
    /// The message of this error.
    pub fn message(&self) -> (m: &'static str)
        ensures
            m@ == int_error_message(*self),
    {
        match self {
            IntError::Empty => "cannot parse integer from empty string",
            IntError::InvalidDigit => "invalid digit found in string",
            IntError::PosOverflow => "number too large to fit in target type",
            IntError::NegOverflow => "number too small to fit in target type",
        }
    }
}

/// Reading digits left to right into a value kept within `[min, max]`:
/// the first character that is no digit, or the first digit that takes
/// the value out of range, decides the error.
pub open spec fn scan_digits(d: Seq<char>, negative: bool, min: int, max: int) -> Result<int, IntError>
    decreases d.len(),
{
    if d.len() == 0 {
        Ok(0)
    } else {
        match scan_digits(d.drop_last(), negative, min, max) {
            Err(e) => Err(e),
            Ok(v) => if !is_digit(d.last()) {
                Err(IntError::InvalidDigit)
            } else {
                let w = if negative { v * 10 - digit_value(d.last()) } else { v * 10 + digit_value(d.last()) };
                if w > max {
                    Err(IntError::PosOverflow)
                } else if w < min {
                    Err(IntError::NegOverflow)
                } else {
                    Ok(w)
                }
            },
        }
    }
}

/// What `from_str` of an integer type with range `[min, max]` gives: an
/// optional `+` (or `-` for a signed type) and decimal digits.
pub open spec fn parse_int_spec(s: Seq<char>, signed: bool, min: int, max: int) -> Result<int, IntError> {
    if s.len() == 0 {
        Err(IntError::Empty)
    } else if (s[0] == '+' || s[0] == '-') && s.len() == 1 {
        Err(IntError::InvalidDigit)
    } else if s[0] == '+' {
        scan_digits(s.drop_first(), false, min, max)
    } else if s[0] == '-' && signed {
        scan_digits(s.drop_first(), true, min, max)
    } else {
        scan_digits(s, false, min, max)
    }
}

proof fn lemma_scan_prefix_err(d: Seq<char>, k: int, negative: bool, min: int, max: int)
    requires
        0 <= k <= d.len(),
        scan_digits(d.take(k), negative, min, max) is Err,
    ensures
        scan_digits(d, negative, min, max) == scan_digits(d.take(k), negative, min, max),
    decreases d.len(),
{
    if k == d.len() {
        assert(d.take(k) =~= d);
    } else {
        assert(d.drop_last().take(k) =~= d.take(k));
        lemma_scan_prefix_err(d.drop_last(), k, negative, min, max);
    }
}

fn scan(v: &Vec<char>, start: usize, negative: bool, min: i128, max: i128) -> (r: Result<i128, IntError>)
    requires
        start <= v@.len(),
        -0x1_0000_0000_0000_0000_0000 <= min <= 0 <= max <= 0x1_0000_0000_0000_0000_0000,
    ensures
        match r {
            Ok(x) => scan_digits(v@.skip(start as int), negative, min as int, max as int) == Ok::<int, IntError>(x as int),
            Err(e) => scan_digits(v@.skip(start as int), negative, min as int, max as int) == Err::<int, IntError>(e),
        },
{
    let ghost d = v@.skip(start as int);
    let mut acc: i128 = 0;
    let mut i: usize = start;
    assert(d.take(0) =~= Seq::<char>::empty());
    while i < v.len()
        invariant
            start <= i <= v@.len(),
            d == v@.skip(start as int),
            -0x1_0000_0000_0000_0000_0000 <= min <= 0 <= max <= 0x1_0000_0000_0000_0000_0000,
            min <= acc <= max,
            scan_digits(d.take(i - start), negative, min as int, max as int) == Ok::<int, IntError>(acc as int),
        decreases v@.len() - i,
    {
        let c = v[i];
        let ghost pre = d.take(i - start + 1);
        assert(pre.drop_last() =~= d.take(i - start));
        assert(pre.last() == c);
        if !('0' <= c && c <= '9') {
            proof { lemma_scan_prefix_err(d, i - start + 1, negative, min as int, max as int); }
            return Err(IntError::InvalidDigit);
        }
        let x = (c as u32 - '0' as u32) as i128;
        let w: i128 = if negative { acc * 10 - x } else { acc * 10 + x };
        if w > max {
            proof { lemma_scan_prefix_err(d, i - start + 1, negative, min as int, max as int); }
            return Err(IntError::PosOverflow);
        }
        if w < min {
            proof { lemma_scan_prefix_err(d, i - start + 1, negative, min as int, max as int); }
            return Err(IntError::NegOverflow);
        }
        acc = w;
        i = i + 1;
    }
    assert(d.take(i - start) =~= d);
    Ok(acc)
}

/// Parses decimal text as `from_str` of an integer type with range
/// `[min, max]` does; `signed` says whether the type takes a `-`.
pub fn parse_int(s: &str, signed: bool, min: i128, max: i128) -> (r: Result<i128, IntError>)
    requires
        -0x1_0000_0000_0000_0000_0000 <= min <= 0 <= max <= 0x1_0000_0000_0000_0000_0000,
    ensures
        match r {
            Ok(x) => parse_int_spec(s@, signed, min as int, max as int) == Ok::<int, IntError>(x as int),
            Err(e) => parse_int_spec(s@, signed, min as int, max as int) == Err::<int, IntError>(e),
        },
{
    let v = chars_of(s);
    if v.len() == 0 {
        return Err(IntError::Empty);
    }
    let first = v[0];
    if (first == '+' || first == '-') && v.len() == 1 {
        return Err(IntError::InvalidDigit);
    }
    if first == '+' {
        assert(v@.skip(1) =~= v@.drop_first());
        scan(&v, 1, false, min, max)
    } else if first == '-' && signed {
        assert(v@.skip(1) =~= v@.drop_first());
        scan(&v, 1, true, min, max)
    } else {
        assert(v@.skip(0) =~= v@);
        scan(&v, 0, false, min, max)
    }
}

/// A numeric variable: its default when unset, else its parse, with the
/// variable's name before the parse error.
pub open spec fn numeric_var_spec(name: Seq<char>, value: Option<Seq<char>>, default: Seq<char>, signed: bool, min: int, max: int)
    -> Result<int, Seq<char>> {
    let text = match value {
        Some(v) => v,
        None => default,
    };
    match parse_int_spec(text, signed, min, max) {
        Ok(x) => Ok(x),
        Err(e) => Err(name + ": "@ + int_error_message(e)),
    }
}

/// The characters of an optional string.
pub open spec fn opt_chars(s: Option<String>) -> Option<Seq<char>> {
    match s {
        Some(s) => Some(s@),
        None => None,
    }
}

fn numeric_var(name: &str, value: &Option<String>, default: &str, signed: bool, min: i128, max: i128) -> (r: Result<i128, String>)
    requires
        -0x1_0000_0000_0000_0000_0000 <= min <= 0 <= max <= 0x1_0000_0000_0000_0000_0000,
    ensures
        match r {
            Ok(x) => numeric_var_spec(name@, opt_chars(*value), default@, signed, min as int, max as int) == Ok::<int, Seq<char>>(x as int),
            Err(m) => numeric_var_spec(name@, opt_chars(*value), default@, signed, min as int, max as int) == Err::<int, Seq<char>>(m@),
        },
{
    let text: &str = match value {
        Some(v) => v.as_str(),
        None => default,
    };
    match parse_int(text, signed, min, max) {
        Ok(x) => Ok(x),
        Err(e) => Err(String::from_str(name).concat(": ").concat(e.message())),
    }
}

/// Whether a flag variable is on: `1`, `true` or `yes`, in any ASCII
/// case; unset is off.
pub open spec fn flag_spec(value: Option<Seq<char>>) -> bool {
    match value {
        None => false,
        Some(v) => {
            let l = crate::moderation::rules::ascii_lower_seq(v);
            l == "1"@ || l == "true"@ || l == "yes"@
        },
    }
}

/// Reads a flag variable.
pub fn env_flag(value: &Option<String>) -> (on: bool)
    ensures
        on == flag_spec(opt_chars(*value)),
{
    match value {
        None => false,
        Some(v) => {
            let l = crate::moderation::rules::lowercase_chars(&chars_of(v.as_str()));
            let one = chars_of("1");
            let t = chars_of("true");
            let y = chars_of("yes");
            crate::bytes::chars_eq(&l, &one) || crate::bytes::chars_eq(&l, &t) || crate::bytes::chars_eq(&l, &y)
        },
    }
}

/// The raw values of the environment variables.
pub struct EnvVars {
    pub database_url: Option<String>,
    pub default_board_pow_bits: Option<String>,
    pub server_key_path: Option<String>,
    pub federation_enabled: Option<String>,
    pub pull_interval_secs: Option<String>,
    pub pull_horizon_days: Option<String>,
    pub admin_token: Option<String>,
    pub moderation_summary: Option<String>,
    pub operator_label: Option<String>,
    pub release_manifest: Option<String>,
}

/// The server's settings, except the bind address, which the binary
/// parses as a socket address.
pub struct Settings {
    pub database_url: String,
    pub default_pow_bits: u8,
    /// The 32-byte Ed25519 seed file of the server identity: a regular
    /// file of mode 0600, created on first boot.
    pub server_key_path: String,
    /// Whether to pull from peers. Peers can pull from this server either way.
    pub federation_enabled: bool,
    pub pull_interval_secs: u64,
    /// First pulls from a new peer skip events older than this many days;
    /// 0 backfills the whole history.
    pub pull_horizon_days: i64,
    /// The bootstrap admin token; `None` when unset or empty.
    pub admin_token: Option<String>,
    pub moderation_summary: Option<String>,
    pub operator_label: Option<String>,
    pub release_manifest_path: Option<String>,
}

/// The database URL, which has no default.
pub fn database_url(value: Option<String>) -> (r: Result<String, String>)
    ensures
        value matches Some(v) ==> r == Ok::<String, String>(v),
        value is None ==> (r matches Err(m) && m@ == "DATABASE_URL is required"@),
{
    match value {
        Some(v) => Ok(v),
        None => Err(String::from_str("DATABASE_URL is required")),
    }
}

/// What the settings are, given the variables: the numbers parse in the
/// order pow bits, pull interval, horizon, and the first failure is the
/// error.
pub open spec fn settings_spec(v: EnvVars, s: Settings) -> bool {
    &&& numeric_var_spec("DEFAULT_BOARD_POW_BITS"@, opt_chars(v.default_board_pow_bits), "18"@, false, 0, 255) == Ok::<int, Seq<char>>(s.default_pow_bits as int)
    &&& numeric_var_spec("LETHE_PULL_INTERVAL_SECS"@, opt_chars(v.pull_interval_secs), "60"@, false, 0, u64::MAX as int) == Ok::<int, Seq<char>>(s.pull_interval_secs as int)
    &&& numeric_var_spec("LETHE_PULL_HORIZON_DAYS"@, opt_chars(v.pull_horizon_days), "30"@, true, i64::MIN as int, i64::MAX as int) == Ok::<int, Seq<char>>(s.pull_horizon_days as int)
    &&& s.server_key_path@ == (match v.server_key_path { Some(p) => p@, None => "./server-key"@ })
    &&& s.federation_enabled == flag_spec(opt_chars(v.federation_enabled))
    &&& s.admin_token == (match v.admin_token { Some(t) => if t@.len() > 0 { Some(t) } else { None }, None => None })
    &&& s.moderation_summary == v.moderation_summary
    &&& s.operator_label == v.operator_label
    &&& s.release_manifest_path == v.release_manifest
}

/// The first numeric variable that does not parse, as its message.
pub open spec fn settings_error(v: EnvVars) -> Option<Seq<char>> {
    match numeric_var_spec("DEFAULT_BOARD_POW_BITS"@, opt_chars(v.default_board_pow_bits), "18"@, false, 0, 255) {
        Err(m) => Some(m),
        Ok(_) => match numeric_var_spec("LETHE_PULL_INTERVAL_SECS"@, opt_chars(v.pull_interval_secs), "60"@, false, 0, u64::MAX as int) {
            Err(m) => Some(m),
            Ok(_) => match numeric_var_spec("LETHE_PULL_HORIZON_DAYS"@, opt_chars(v.pull_horizon_days), "30"@, true, i64::MIN as int, i64::MAX as int) {
                Err(m) => Some(m),
                Ok(_) => None,
            },
        },
    }
}

/// Turns the variables into settings.
pub fn settings_from(v: EnvVars, database_url: String) -> (r: Result<Settings, String>)
    ensures
        match r {
            Ok(s) => settings_error(v) is None && settings_spec(v, s) && s.database_url == database_url,
            Err(m) => settings_error(v) == Some(m@),
        },
{
    let bits = numeric_var("DEFAULT_BOARD_POW_BITS", &v.default_board_pow_bits, "18", false, 0, 255)?;
    let interval = numeric_var("LETHE_PULL_INTERVAL_SECS", &v.pull_interval_secs, "60", false, 0, 0xffff_ffff_ffff_ffff)?;
    let horizon = numeric_var("LETHE_PULL_HORIZON_DAYS", &v.pull_horizon_days, "30", true, -0x8000_0000_0000_0000, 0x7fff_ffff_ffff_ffff)?;
    let federation_enabled = env_flag(&v.federation_enabled);
    let server_key_path = match v.server_key_path {
        Some(p) => p,
        None => String::from_str("./server-key"),
    };
    let admin_token = match v.admin_token {
        Some(t) => if t.as_str().is_empty() { None } else { Some(t) },
        None => None,
    };
    Ok(Settings {
        database_url,
        default_pow_bits: bits as u8,
        server_key_path,
        federation_enabled,
        pull_interval_secs: interval as u64,
        pull_horizon_days: horizon as i64,
        admin_token,
        moderation_summary: v.moderation_summary,
        operator_label: v.operator_label,
        release_manifest_path: v.release_manifest,
    })
}

} // verus!
