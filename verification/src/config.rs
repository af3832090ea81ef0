//! Configuration consumed from an external source at initialization: the
//! worker concurrency parameter, the per-tick callback budget, and the
//! inter-attempt delay.  All three must be present and integer-parseable;
//! any missing or invalid value is a fatal initialization error, so the
//! system never starts in a partially configured state.

use vstd::prelude::*;
use vstd::string::StringSliceAdditionalSpecFns;

verus! {

/// The validated settings the system starts with.
#[derive(Clone, Copy, Debug)]
pub struct Config {
    pub number_of_dns_threads: usize,
    pub callbacks_per_frame: usize,
    pub microseconds_delay_between_attempts: usize,
}

/// Fatal initialization failures.  Each names the first setting, in the
/// order they are read, that was missing or not an integer; a queue started
/// with a concurrency hint of zero fails with `InvalidConcurrency`.
#[derive(Clone, Copy, Debug, PartialEq, Eq, Structural)]
pub enum InitError {
    MissingDnsSection,
    MissingQueueSection,
    MissingNumberOfDnsThreads,
    InvalidNumberOfDnsThreads,
    MissingCallbacksPerFrame,
    InvalidCallbacksPerFrame,
    MissingDelayBetweenAttempts,
    InvalidDelayBetweenAttempts,
    InvalidConcurrency,
}

/// The digit part of a numeral: everything after an optional leading plus.
pub open spec fn digits_of(s: Seq<u8>) -> Seq<u8> {
    if s.len() > 0 && s[0] == 43 {
        s.skip(1)
    } else {
        s
    }
}

/// Whether the bytes form a decimal numeral: an optional plus sign followed
/// by one or more decimal digits.
pub open spec fn is_numeral(s: Seq<u8>) -> bool {
    &&& digits_of(s).len() > 0
    &&& forall|i: int| 0 <= i < digits_of(s).len() ==> 48 <= #[trigger] digits_of(s)[i] <= 57
}

/// The value of a digit string, most significant digit first.
pub open spec fn numeral_value(s: Seq<u8>) -> int
    decreases s.len(),
{
    if s.len() == 0 {
        0
    } else {
        numeral_value(s.drop_last()) * 10 + (s.last() - 48)
    }
}

/// Whether a setting's text parses to a machine-word value.
pub open spec fn parses(s: &str) -> bool {
    is_numeral(s.spec_bytes()) && numeral_value(digits_of(s.spec_bytes())) <= usize::MAX
}

/// The value a setting's text parses to.
pub open spec fn parsed(s: &str) -> int {
    numeral_value(digits_of(s.spec_bytes()))
}

proof fn lemma_numeral_value_nonneg(s: Seq<u8>)
    requires
        forall|i: int| 0 <= i < s.len() ==> 48 <= #[trigger] s[i] <= 57,
    ensures
        numeral_value(s) >= 0,
    decreases s.len(),
{
    if s.len() > 0 {
        lemma_numeral_value_nonneg(s.drop_last());
    }
}

/// A digit string is worth at least any of its prefixes: appending digits
/// never lowers the value.
proof fn lemma_numeral_value_prefix(a: Seq<u8>, b: Seq<u8>)
    requires
        a.len() <= b.len(),
        forall|i: int| 0 <= i < b.len() ==> 48 <= #[trigger] b[i] <= 57,
        a == b.subrange(0, a.len() as int),
    ensures
        numeral_value(a) <= numeral_value(b),
    decreases b.len() - a.len(),
{
    if a.len() < b.len() {
        let b1 = b.drop_last();
        assert(a =~= b1.subrange(0, a.len() as int));
        lemma_numeral_value_prefix(a, b1);
        lemma_numeral_value_nonneg(b1);
        assert(48 <= b[b.len() - 1] <= 57);
        assert(numeral_value(b) == numeral_value(b1) * 10 + (b.last() - 48));
    } else {
        assert(a =~= b.subrange(0, b.len() as int));
        assert(b.subrange(0, b.len() as int) =~= b);
    }
}

/// Parses a decimal numeral into a machine word.  Returns the value exactly
/// when the text is a numeral whose value fits; anything else — empty text,
/// a sign alone, a non-digit, a value past `usize::MAX` — is rejected.
pub fn parse_usize(s: &[u8]) -> (r: Option<usize>)
    ensures
        r matches Some(n) ==> is_numeral(s@) && n == numeral_value(digits_of(s@)),
        r is None ==> !is_numeral(s@) || numeral_value(digits_of(s@)) > usize::MAX,
{
    if s.len() == 0 {
        return None;
    }
    let start: usize = if s[0] == 43 {
        1
    } else {
        0
    };
    if start == s.len() {
        // A sign alone has no digits.
        return None;
    }
    let ghost d = digits_of(s@);
    proof {
        assert(d =~= s@.subrange(start as int, s@.len() as int));
    }
    let mut i: usize = start;
    let mut acc: usize = 0;
    while i < s.len()
        invariant
            start <= i <= s@.len(),
            d =~= s@.subrange(start as int, s@.len() as int),
            d == digits_of(s@),
            forall|j: int| start <= j < i ==> 48 <= #[trigger] s@[j] <= 57,
            acc == numeral_value(s@.subrange(start as int, i as int)),
        decreases s@.len() - i,
    {
        let c = s[i];
        if c < 48 || c > 57 {
            // The byte at `i` shows the text is no numeral.
            proof {
                assert(d[i - start] == s@[i as int]);
            }
            return None;
        }
        let ghost p = s@.subrange(start as int, i as int);
        let ghost p1 = s@.subrange(start as int, i + 1);
        proof {
            assert(p1.drop_last() =~= p);
            assert(p1.last() == s@[i as int]);
        }
        let digit = (c - 48) as usize;
        let grown = match acc.checked_mul(10) {
            Some(v) => v,
            None => {
                proof {
                    lemma_value_past_overflow(s@, start as int, i as int, d);
                }
                return None;
            },
        };
        let next = match grown.checked_add(digit) {
            Some(v) => v,
            None => {
                proof {
                    lemma_value_past_overflow(s@, start as int, i as int, d);
                }
                return None;
            },
        };
        acc = next;
        i = i + 1;
    }
    proof {
        assert(s@.subrange(start as int, i as int) =~= d);
        assert forall|j: int| 0 <= j < d.len() implies 48 <= #[trigger] d[j] <= 57 by {
            assert(d[j] == s@[j + start]);
        }
    }
    Some(acc)
}

/// If the numeral's value already exceeds the machine word at some digit,
/// the whole text either is no numeral at all or exceeds it too.
proof fn lemma_value_past_overflow(s: Seq<u8>, start: int, i: int, d: Seq<u8>)
    requires
        0 <= start <= i < s.len(),
        d == s.subrange(start, s.len() as int),
        d == digits_of(s),
        forall|j: int| start <= j < i ==> 48 <= #[trigger] s[j] <= 57,
        48 <= s[i] <= 57,
        numeral_value(s.subrange(start, i)) * 10 + (s[i] - 48) > usize::MAX,
    ensures
        !is_numeral(s) || numeral_value(digits_of(s)) > usize::MAX,
{
    if is_numeral(s) {
        let p1 = s.subrange(start, i + 1);
        assert(p1.drop_last() =~= s.subrange(start, i));
        assert(numeral_value(p1) > usize::MAX);
        assert forall|j: int| 0 <= j < d.len() implies 48 <= #[trigger] d[j] <= 57 by {}
        assert(p1 =~= d.subrange(0, p1.len() as int));
        lemma_numeral_value_prefix(p1, d);
    }
}

/// The first problem with the configuration, in the order the host reads
/// it, or nothing when every setting is present and parseable.
pub open spec fn config_error(
    dns_section_present: bool,
    queue_section_present: bool,
    number_of_dns_threads: Option<&str>,
    callbacks_per_frame: Option<&str>,
    microseconds_delay_between_attempts: Option<&str>,
) -> Option<InitError> {
    if !dns_section_present {
        Some(InitError::MissingDnsSection)
    } else if !queue_section_present {
        Some(InitError::MissingQueueSection)
    } else if number_of_dns_threads is None {
        Some(InitError::MissingNumberOfDnsThreads)
    } else if !parses(number_of_dns_threads->0) {
        Some(InitError::InvalidNumberOfDnsThreads)
    } else if callbacks_per_frame is None {
        Some(InitError::MissingCallbacksPerFrame)
    } else if !parses(callbacks_per_frame->0) {
        Some(InitError::InvalidCallbacksPerFrame)
    } else if microseconds_delay_between_attempts is None {
        Some(InitError::MissingDelayBetweenAttempts)
    } else if !parses(microseconds_delay_between_attempts->0) {
        Some(InitError::InvalidDelayBetweenAttempts)
    } else {
        None
    }
}

/// Validates the three settings: each must be present and a machine-word
/// integer.  Returns the first failure in reading order, or the parsed
/// configuration.
pub fn load_config(
    dns_section_present: bool,
    queue_section_present: bool,
    number_of_dns_threads: Option<&str>,
    callbacks_per_frame: Option<&str>,
    microseconds_delay_between_attempts: Option<&str>,
) -> (r: Result<Config, InitError>)
    ensures
        config_error(
            dns_section_present,
            queue_section_present,
            number_of_dns_threads,
            callbacks_per_frame,
            microseconds_delay_between_attempts,
        ) matches Some(e) ==> r == Err::<Config, InitError>(e),
        config_error(
            dns_section_present,
            queue_section_present,
            number_of_dns_threads,
            callbacks_per_frame,
            microseconds_delay_between_attempts,
        ) is None ==> ({
            &&& r matches Ok(cfg)
            &&& number_of_dns_threads matches Some(a)
            &&& cfg.number_of_dns_threads == parsed(a)
            &&& callbacks_per_frame matches Some(b)
            &&& cfg.callbacks_per_frame == parsed(b)
            &&& microseconds_delay_between_attempts matches Some(c)
            &&& cfg.microseconds_delay_between_attempts == parsed(c)
        }),
{
    if !dns_section_present {
        return Err(InitError::MissingDnsSection);
    }
    if !queue_section_present {
        return Err(InitError::MissingQueueSection);
    }
    let threads = match number_of_dns_threads {
        None => {
            return Err(InitError::MissingNumberOfDnsThreads);
        },
        Some(text) => match parse_usize(text.as_bytes()) {
            None => {
                return Err(InitError::InvalidNumberOfDnsThreads);
            },
            Some(n) => n,
        },
    };
    let callbacks = match callbacks_per_frame {
        None => {
            return Err(InitError::MissingCallbacksPerFrame);
        },
        Some(text) => match parse_usize(text.as_bytes()) {
            None => {
                return Err(InitError::InvalidCallbacksPerFrame);
            },
            Some(n) => n,
        },
    };
    let delay = match microseconds_delay_between_attempts {
        None => {
            return Err(InitError::MissingDelayBetweenAttempts);
        },
        Some(text) => match parse_usize(text.as_bytes()) {
            None => {
                return Err(InitError::InvalidDelayBetweenAttempts);
            },
            Some(n) => n,
        },
    };
    Ok(Config {
        number_of_dns_threads: threads,
        callbacks_per_frame: callbacks,
        microseconds_delay_between_attempts: delay,
    })
}

} // verus!
