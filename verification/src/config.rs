//! Engine configuration as explicit values: the provider-origin
//! settings the host environment is given at startup, and the high
//! watermark override — a decimal byte count read from a named
//! environment variable, falling back to a fixed default when the
//! variable is absent or unparseable. The reading of the variable is
//! the caller's; the decision on its text is verified here.

use vstd::prelude::*;
use vstd::string::StringExecFns;

verus! {

/// The default high watermark where no valid override is given.
pub const DEFAULT_HIGH_WATERMARK: u64 = 1073741824;

/// The value of a sequence of decimal digits.
pub open spec fn dec_value(s: Seq<char>) -> int
    decreases s.len(),
{
    if s.len() == 0 {
        0
    } else {
        dec_value(s.drop_last()) * 10 + (s.last() as int - '0' as int)
    }
}

/// Whether the text is a plain decimal numeral: non-empty, digits only.
pub open spec fn is_decimal(s: Seq<char>) -> bool {
    s.len() > 0 && forall|i: int| 0 <= i < s.len() ==> '0' <= #[trigger] s[i] <= '9'
}

/// The high watermark an override text yields: its decimal value where
/// the text is a numeral that fits the machine word, the default
/// otherwise.
pub open spec fn watermark_of(raw: Option<Seq<char>>) -> u64 {
    match raw {
        Some(s) => {
            if is_decimal(s) && dec_value(s) <= u64::MAX {
                dec_value(s) as u64
            } else {
                DEFAULT_HIGH_WATERMARK as u64
            }
        },
        None => DEFAULT_HIGH_WATERMARK as u64,
    }
}

proof fn lemma_dec_value_nonneg(s: Seq<char>)
    requires
        forall|i: int| 0 <= i < s.len() ==> '0' <= #[trigger] s[i] <= '9',
    ensures
        dec_value(s) >= 0,
    decreases s.len(),
{
    if s.len() > 0 {
        lemma_dec_value_nonneg(s.drop_last());
    }
}

/// Appending digits never shrinks the value.
proof fn lemma_dec_value_prefix_le(s: Seq<char>, n: int)
    requires
        forall|i: int| 0 <= i < s.len() ==> '0' <= #[trigger] s[i] <= '9',
        0 <= n <= s.len(),
    ensures
        dec_value(s.take(n)) <= dec_value(s),
    decreases s.len() - n,
{
    if n < s.len() {
        lemma_dec_value_prefix_le(s, n + 1);
        let t = s.take(n + 1);
        assert(t.drop_last() =~= s.take(n));
        lemma_dec_value_nonneg(s.take(n));
        assert(dec_value(s.take(n)) <= dec_value(t));
    } else {
        assert(s.take(n) =~= s);
    }
}

/// Decides the high watermark from the override text as read from the
/// environment: `None` stands for an absent variable.
pub fn watermark_from_text(raw: Option<&String>) -> (r: u64)
    ensures
        ({
            match raw {
                Some(s) => r == watermark_of(Some(s@)),
                None => r == watermark_of(None),
            }
        }),
{
    let s = match raw {
        Some(s) => s,
        None => {
            return DEFAULT_HIGH_WATERMARK;
        },
    };
    let n = s.as_str().unicode_len();
    if n == 0 {
        return DEFAULT_HIGH_WATERMARK;
    }
    let mut value: u64 = 0;
    let mut i: usize = 0;
    while i < n
        invariant
            raw == Some(s),
            0 <= i <= n,
            n == s@.len(),
            forall|j: int| 0 <= j < i ==> '0' <= #[trigger] s@[j] <= '9',
            value == dec_value(s@.take(i as int)),
        decreases n - i,
    {
        let c = s.as_str().get_char(i);
        if !('0' <= c && c <= '9') {
            proof {
                assert(!('0' <= s@[i as int] <= '9'));
                assert(!is_decimal(s@));
            }
            return DEFAULT_HIGH_WATERMARK;
        }
        let d: u64 = (c as u32 as u64) - ('0' as u32 as u64);
        proof {
            assert(s@.take(i as int + 1).drop_last() =~= s@.take(i as int));
            lemma_dec_value_nonneg(s@.take(i as int));
        }
        if value > (u64::MAX - d) / 10 {
            proof {
                assert(value * 10 + d > u64::MAX);
                assert(dec_value(s@.take(i as int + 1)) > u64::MAX);
                if is_decimal(s@) {
                    lemma_dec_value_prefix_le(s@, i as int + 1);
                    assert(dec_value(s@) > u64::MAX);
                }
            }
            return DEFAULT_HIGH_WATERMARK;
        }
        value = value * 10 + d;
        i = i + 1;
    }
    proof {
        assert(s@.take(n as int) =~= s@);
    }
    value
}

/// The provider-origin settings handed to the host environment at
/// startup, as one explicit value instead of ambient process state.
pub struct EngineConfig {
    pub origins: String,
    pub host: String,
    pub allow_private_network: bool,
}

impl EngineConfig {
    /// The baseline settings: any origin, all interfaces on the
    /// provider's port, private-network access allowed.
    pub fn baseline() -> (r: EngineConfig)
        ensures
            r.origins@ == "*"@,
            r.host@ == "0.0.0.0:11434"@,
            r.allow_private_network,
    {
        EngineConfig {
            origins: String::from_str("*"),
            host: String::from_str("0.0.0.0:11434"),
            allow_private_network: true,
        }
    }
}

} // verus!
