//! Configuration of a generation run: a single length, taken from the
//! program's arguments, 16 when no argument is given.

use vstd::prelude::*;

verus! {

/// Why the arguments could not be turned into a [`Config`].
#[derive(Clone, Copy, Debug, PartialEq, Eq, Structural)]
pub enum ConfigError {
    /// The length argument is not a base-10 non-negative integer that
    /// fits in `usize`.
    InvalidLength,
}

/// Whether `c` is a base-10 digit.
pub open spec fn is_digit(c: char) -> bool {
    '0' <= c && c <= '9'
}

/// The numeric value of a base-10 digit.
pub open spec fn digit_value(c: char) -> nat {
    (c as u32 - '0' as u32) as nat
}

/// The numeric value of a sequence of base-10 digits, most significant
/// first; 0 for the empty sequence.
pub open spec fn digits_value(s: Seq<char>) -> nat
    decreases s.len(),
{
    if s.len() == 0 {
        0
    } else {
        digits_value(s.drop_last()) * 10 + digit_value(s.last())
    }
}

/// Whether `s` is a well-formed length argument: non-empty, base-10
/// digits only, and a value that fits in `usize`.
pub open spec fn parses_to_length(s: Seq<char>) -> bool {
    &&& s.len() > 0
    &&& (forall|i: int| 0 <= i < s.len() ==> is_digit(#[trigger] s[i]))
    &&& digits_value(s) <= usize::MAX
}

/// The value of a digit prefix never exceeds the value of the whole
/// sequence.
proof fn lemma_digits_value_prefix(s: Seq<char>, k: int)
    requires
        0 <= k <= s.len(),
    ensures
        digits_value(s.subrange(0, k)) <= digits_value(s),
    decreases s.len() - k,
{
    if k == s.len() {
        assert(s.subrange(0, k) =~= s);
    } else {
        assert(s.subrange(0, k + 1).drop_last() =~= s.subrange(0, k));
        assert(s.subrange(0, k + 1).last() == s[k]);
        assert(digits_value(s.subrange(0, k)) <= digits_value(s.subrange(0, k + 1)));
        lemma_digits_value_prefix(s, k + 1);
    }
}

/// Parses a length argument: the whole of `s` must be base-10 digits
/// giving a value that fits in `usize`; anything else is rejected.
pub fn parse_length(s: &str) -> (r: Result<usize, ConfigError>)
    ensures
        parses_to_length(s@) ==> r is Ok && r->Ok_0 as nat == digits_value(s@),
        !parses_to_length(s@) ==> r == Err::<usize, ConfigError>(ConfigError::InvalidLength),
{
    let n = s.unicode_len();
    if n == 0 {
        return Err(ConfigError::InvalidLength);
    }
    let mut value: usize = 0;
    let mut i: usize = 0;
    while i < n
        invariant
            n == s@.len(),
            i <= n,
            forall|j: int| 0 <= j < i ==> is_digit(#[trigger] s@[j]),
            value as nat == digits_value(s@.subrange(0, i as int)),
        decreases n - i,
    {
        let c = s.get_char(i);
        if c < '0' || '9' < c {
            return Err(ConfigError::InvalidLength);
        }
        let d = (c as u32 - '0' as u32) as usize;
        proof {
            assert(s@.subrange(0, i + 1).drop_last() =~= s@.subrange(0, i as int));
            assert(s@.subrange(0, i + 1).last() == s@[i as int]);
            lemma_digits_value_prefix(s@, i + 1);
        }
        let scaled = match value.checked_mul(10) {
            Some(v) => v,
            None => {
                return Err(ConfigError::InvalidLength);
            },
        };
        value = match scaled.checked_add(d) {
            Some(v) => v,
            None => {
                return Err(ConfigError::InvalidLength);
            },
        };
        i += 1;
    }
    proof {
        assert(s@.subrange(0, n as int) =~= s@);
    }
    Ok(value)
}

/// The configuration for one generation run.
///
/// Built from the program's arguments by [`Config::build`].
pub struct Config {
    length: usize,
}

impl Config {
    /// The number of characters the password is to have.
    pub closed spec fn spec_length(&self) -> usize {
        self.length
    }

    /// Builds a [`Config`] from the program's arguments. The first
    /// argument is taken for the program's name and ignored; the second,
    /// when present, is the desired length; without one the length is 16.
    /// Arguments after the second are ignored.
    pub fn build(args: &Vec<String>) -> (r: Result<Config, ConfigError>)
        ensures
            args@.len() <= 1 ==> r is Ok && r->Ok_0.spec_length() == 16,
            args@.len() >= 2 && parses_to_length(args@[1]@) ==> r is Ok
                && r->Ok_0.spec_length() as nat == digits_value(args@[1]@),
            args@.len() >= 2 && !parses_to_length(args@[1]@) ==> r == Err::<Config, ConfigError>(
                ConfigError::InvalidLength,
            ),
    {
        if args.len() <= 1 {
            Ok(Config { length: 16 })
        } else {
            match parse_length(args[1].as_str()) {
                Ok(length) => Ok(Config { length }),
                Err(e) => Err(e),
            }
        }
    }

    /// Returns the configured password length.
    pub fn length(&self) -> (r: usize)
        ensures
            r == self.spec_length(),
    {
        self.length
    }
}

} // verus!
