//! The configuration surface the core consumes (populated externally, e.g.
//! from command-line flags), its defaults, and the parsing of a duration
//! flag given as whole seconds.

use vstd::prelude::*;
use vstd::string::StringExecFns;

use crate::sampler::Fallbacks;

verus! {

/// `c` is an ASCII decimal digit.
pub open spec fn spec_is_digit(c: char) -> bool {
    48 <= c as u32 <= 57
}

/// The numeric value of one ASCII decimal digit.
pub open spec fn spec_digit_value(c: char) -> nat
    recommends
        spec_is_digit(c),
{
    (c as u32 - 48) as nat
}

/// Every character of `s` is an ASCII decimal digit.
pub open spec fn spec_all_digits(s: Seq<char>) -> bool {
    forall|i: int| 0 <= i < s.len() ==> spec_is_digit(#[trigger] s[i])
}

/// The numeric value of a string of decimal digits (0 for the empty string).
pub open spec fn spec_digits_value(s: Seq<char>) -> nat
    decreases s.len(),
{
    if s.len() == 0 {
        0
    } else {
        spec_digits_value(s.drop_last()) * 10 + spec_digit_value(s.last())
    }
}

/// The digits of a number flag: everything after one optional leading plus
/// sign.
pub open spec fn spec_number_body(s: Seq<char>) -> Seq<char> {
    if s.len() > 0 && s[0] == '+' {
        s.drop_first()
    } else {
        s
    }
}

/// `body` has a digit prefix whose value already exceeds `u64::MAX`: the
/// scan overflows before it could reach anything else.
pub open spec fn spec_overflows_u64(body: Seq<char>) -> bool {
    exists|k: int|
        0 <= k <= body.len() && spec_all_digits(#[trigger] body.subrange(0, k))
            && spec_digits_value(body.subrange(0, k)) > u64::MAX
}

/// `body` parses as a `u64`: nonempty, all digits, and in range.
pub open spec fn spec_parses_u64(body: Seq<char>) -> bool {
    body.len() > 0 && spec_all_digits(body) && spec_digits_value(body) <= u64::MAX
}

/// Why a duration flag did not parse, mirroring the kinds of integer
/// parse failure that can occur: nothing at all, a character that is no
/// digit (including a lone sign), or a value too large.
#[derive(Clone, Copy, PartialEq, Eq, Structural, Debug)]
pub enum ParseDurationError {
    Empty,
    InvalidDigit,
    PosOverflow,
}

/// Longer digit prefixes never have smaller values.
proof fn lemma_digits_value_monotone(s: Seq<char>, k1: int, k2: int)
    requires
        0 <= k1 <= k2 <= s.len(),
        spec_all_digits(s.subrange(0, k2)),
    ensures
        spec_digits_value(s.subrange(0, k1)) <= spec_digits_value(s.subrange(0, k2)),
    decreases k2 - k1,
{
    if k1 < k2 {
        let shorter = s.subrange(0, k2 - 1);
        let longer = s.subrange(0, k2);
        assert(longer.drop_last() =~= shorter);
        assert(spec_all_digits(shorter)) by {
            assert(forall|i: int| 0 <= i < shorter.len() ==> shorter[i] == longer[i]);
        }
        lemma_digits_value_monotone(s, k1, k2 - 1);
    }
}

/// Parse a duration flag: a string of decimal digits, optionally preceded by
/// one plus sign, naming a number of whole seconds. Returns exactly the
/// named value when the string is such a number and it fits in a `u64`;
/// otherwise says whether the string was empty, held a non-digit (a lone
/// sign counts), or named a value too large.
pub fn parse_duration(arg: &str) -> (r: Result<u64, ParseDurationError>)
    ensures
        r matches Ok(v) ==> spec_parses_u64(spec_number_body(arg@)) && v == spec_digits_value(
            spec_number_body(arg@),
        ),
        spec_parses_u64(spec_number_body(arg@)) ==> r is Ok,
        r == Err::<u64, ParseDurationError>(ParseDurationError::Empty) <==> arg@.len() == 0,
        r == Err::<u64, ParseDurationError>(ParseDurationError::PosOverflow)
            <==> spec_overflows_u64(spec_number_body(arg@)),
{
    let n = arg.unicode_len();
    if n == 0 {
        return Err(ParseDurationError::Empty);
    }
    let ghost body = spec_number_body(arg@);
    let first = arg.get_char(0);
    let start: usize = if first as u32 == 43 {
        1
    } else {
        0
    };
    proof {
        assert(body =~= arg@.subrange(start as int, n as int));
    }
    if start == n {
        // A lone sign: no digits at all, and no digit prefix can overflow.
        proof {
            assert(forall|k: int|
                0 <= k <= body.len() ==> spec_digits_value(#[trigger] body.subrange(0, k))
                    == 0) by {
                assert(forall|k: int| 0 <= k <= body.len() ==> body.subrange(0, k) =~= body);
            }
        }
        return Err(ParseDurationError::InvalidDigit);
    }
    let mut acc: u64 = 0;
    let mut i: usize = start;
    while i < n
        invariant
            n == arg@.len(),
            start <= i <= n,
            start <= 1,
            body == spec_number_body(arg@),
            body == arg@.subrange(start as int, n as int),
            spec_all_digits(arg@.subrange(start as int, i as int)),
            acc == spec_digits_value(arg@.subrange(start as int, i as int)),
        decreases n - i,
    {
        let c = arg.get_char(i);
        let u = c as u32;
        let ghost done = arg@.subrange(start as int, i as int);
        let ghost next = arg@.subrange(start as int, i + 1 as int);
        proof {
            assert(next.drop_last() =~= done);
            assert(done =~= body.subrange(0, i - start));
            assert(next =~= body.subrange(0, i + 1 - start));
        }
        if u < 48 || u > 57 {
            // The scan stopped on a non-digit before any overflow: every
            // all-digit prefix of the body ends at or before this character
            // and its value never left `u64` range.
            proof {
                assert forall|k: int|
                    0 <= k <= body.len() && spec_all_digits(
                        #[trigger] body.subrange(0, k),
                    ) implies spec_digits_value(body.subrange(0, k)) <= u64::MAX by {
                    if k > i - start {
                        assert(body.subrange(0, k)[i - start] == body[i - start]);
                        assert(body[i - start] == arg@[i as int]);
                        assert(false);
                    } else {
                        lemma_digits_value_monotone(body, k, i - start);
                    }
                }
                assert(!spec_parses_u64(body)) by {
                    assert(body[i - start] == arg@[i as int]);
                }
            }
            return Err(ParseDurationError::InvalidDigit);
        }
        let d = (u - 48) as u64;
        proof {
            assert(spec_is_digit(arg@[i as int]));
            assert(spec_all_digits(next));
            assert(spec_digits_value(next) == acc * 10 + d);
        }
        if acc > (u64::MAX - d) / 10 {
            // This digit pushes the value past `u64::MAX`.
            proof {
                vstd::arithmetic::div_mod::lemma_fundamental_div_mod((u64::MAX - d) as int, 10);
                assert(acc * 10 + d > u64::MAX);
                assert(spec_overflows_u64(body)) by {
                    assert(spec_all_digits(body.subrange(0, i + 1 - start)) && spec_digits_value(
                        body.subrange(0, i + 1 - start),
                    ) > u64::MAX);
                }
                if spec_all_digits(body) {
                    lemma_digits_value_monotone(body, i + 1 - start, body.len() as int);
                    assert(body.subrange(0, body.len() as int) =~= body);
                }
            }
            return Err(ParseDurationError::PosOverflow);
        }
        proof {
            vstd::arithmetic::div_mod::lemma_fundamental_div_mod((u64::MAX - d) as int, 10);
            assert(acc * 10 + d <= u64::MAX);
        }
        acc = acc * 10 + d;
        i += 1;
    }
    proof {
        assert(arg@.subrange(start as int, n as int) =~= body);
        assert(spec_parses_u64(body));
        assert forall|k: int|
            0 <= k <= body.len() && spec_all_digits(
                #[trigger] body.subrange(0, k),
            ) implies spec_digits_value(body.subrange(0, k)) <= u64::MAX by {
            lemma_digits_value_monotone(body, k, body.len() as int);
            assert(body.subrange(0, body.len() as int) =~= body);
        }
    }
    Ok(acc)
}

/// The configuration the core consumes. Populated externally (command-line
/// flags, a harness); the defaults are the served product's.
pub struct Config {
    /// Seconds between sampling ticks.
    pub sample_interval_secs: u64,
    /// Bound on draining after a termination signal, in seconds.
    pub graceful_shutdown_grace_secs: u64,
    /// Seconds between open-connection reports while draining.
    pub liveness_log_interval_secs: u64,
    /// Seconds of stream idleness before a keep-alive frame.
    pub keep_alive_interval_secs: u64,
    /// Whether to run the plaintext redirect listener (and require it).
    pub https_redirect: bool,
    /// Port of the plaintext redirect listener.
    pub http_port: u16,
    /// Port of the encrypted listener.
    pub https_port: u16,
    /// The configured system directory searched for certificate material.
    pub tls_dir: String,
    pub tls_cert_file_name: String,
    pub tls_key_file_name: String,
    /// The configured log directory.
    pub log_dir: String,
    /// The sentinel payload a stream emits on an internal error.
    pub error_sentinel: String,
    /// Shown on the status page when the host reports no model name.
    pub model_name_fallback: String,
    /// Per-field fallbacks for probes that yield nothing.
    pub fallbacks: Fallbacks,
}

impl Default for Config {
    /// The served product's defaults.
    fn default() -> (c: Config)
        ensures
            c.sample_interval_secs == 5,
            c.graceful_shutdown_grace_secs == 10,
            c.liveness_log_interval_secs == 1,
            c.keep_alive_interval_secs == 1,
            !c.https_redirect,
            c.http_port == 2000,
            c.https_port == 3000,
            c.tls_dir@ == "/etc/rspi-bios/certs"@,
            c.tls_cert_file_name@ == "cert.pem"@,
            c.tls_key_file_name@ == "key.pem"@,
            c.log_dir@ == "/var/log/rspi-bios/"@,
            c.error_sentinel@ == "0, 0, 0, 0"@,
            c.model_name_fallback@ == "Raspberry Pi 4 Model B Rev 1.4"@,
            c.fallbacks.kernel_version@ == "v6.1"@,
            c.fallbacks.cpu_brand@ == "Cortex-A72"@,
            c.fallbacks.cpu_brand_short@ == "Cortex-A"@,
            c.fallbacks.cpu_speed_mhz == 1800,
            c.fallbacks.disk_bytes == 32_000_000_000,
            c.fallbacks.os_version@ == "Raspbian GNU/Linux 11 (bullseye)"@,
            c.fallbacks.cpu_arch@ == "aarch64"@,
    {
        Config {
            sample_interval_secs: 5,
            graceful_shutdown_grace_secs: 10,
            liveness_log_interval_secs: 1,
            keep_alive_interval_secs: 1,
            https_redirect: false,
            http_port: 2000,
            https_port: 3000,
            tls_dir: String::from_str("/etc/rspi-bios/certs"),
            tls_cert_file_name: String::from_str("cert.pem"),
            tls_key_file_name: String::from_str("key.pem"),
            log_dir: String::from_str("/var/log/rspi-bios/"),
            error_sentinel: String::from_str("0, 0, 0, 0"),
            model_name_fallback: String::from_str("Raspberry Pi 4 Model B Rev 1.4"),
            fallbacks: Fallbacks {
                cpu_brand: String::from_str("Cortex-A72"),
                cpu_brand_short: String::from_str("Cortex-A"),
                cpu_speed_mhz: 1800,
                disk_bytes: 32_000_000_000,
                kernel_version: String::from_str("v6.1"),
                os_version: String::from_str("Raspbian GNU/Linux 11 (bullseye)"),
                cpu_arch: String::from_str("aarch64"),
            },
        }
    }
}

} // verus!
