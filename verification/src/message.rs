use vstd::prelude::*;

use crate::validation::WitnessValidationError;

verus! {

/// The character of a decimal digit `d < 10`.
pub open spec fn digit_char(d: nat) -> char {
    ('0' as nat + d) as char
}

/// The decimal rendering of `n`, most significant digit first, without
/// leading zeros (`0` renders as `"0"`).
pub open spec fn decimal(n: nat) -> Seq<char>
    decreases n,
{
    if n < 10 {
        seq![digit_char(n)]
    } else {
        decimal(n / 10) + seq![digit_char(n % 10)]
    }
}

/// The number a string of decimal digits denotes, read most significant
/// digit first.
pub open spec fn digits_value(s: Seq<char>) -> int
    decreases s.len(),
{
    if s.len() == 0 {
        0
    } else {
        digits_value(s.drop_last()) * 10 + (s.last() as int - '0' as int)
    }
}

/// The decimal rendering of `n` is a non-empty string of the digits `0`-`9`
/// that reads back as `n`, with no leading zero unless `n` is zero itself.
pub proof fn law_decimal_rendering(n: nat)
    ensures
        decimal(n).len() >= 1,
        forall|i: int| 0 <= i < decimal(n).len() ==> '0' <= #[trigger] decimal(n)[i] <= '9',
        digits_value(decimal(n)) == n,
        decimal(n)[0] == '0' ==> n == 0 && decimal(n).len() == 1,
    decreases n,
{
    if n < 10 {
        assert(decimal(n).drop_last() =~= Seq::<char>::empty());
        assert(digit_char(n) as int - '0' as int == n);
        assert(digits_value(Seq::<char>::empty()) == 0);
    } else {
        law_decimal_rendering(n / 10);
        let prefix = decimal(n / 10);
        assert(decimal(n).drop_last() =~= prefix);
        assert(decimal(n)[0] == prefix[0]);
        assert(n == (n / 10) * 10 + n % 10);
        assert(digit_char(n % 10) as int - '0' as int == n % 10);
        assert(decimal(n).last() == digit_char(n % 10));
    }
}

/// The human-readable message of a validation error.
pub open spec fn error_message(e: WitnessValidationError) -> Seq<char> {
    match e {
        WitnessValidationError::EmptyPublicKey => "public key is empty"@,
        WitnessValidationError::InvalidPublicKeySize { actual, expected } => "invalid public key size: "@
            + decimal(actual as nat) + " bytes (expected "@ + decimal(expected as nat) + ")"@,
        WitnessValidationError::ZeroBinaryHash => "binary hash is all zeros"@,
        WitnessValidationError::TimestampTooOld { timestamp, minimum } => "timestamp "@ + decimal(
            timestamp as nat,
        ) + " is before minimum "@ + decimal(minimum as nat),
        WitnessValidationError::TimestampInFuture { timestamp, maximum } => "timestamp "@ + decimal(
            timestamp as nat,
        ) + " exceeds maximum "@ + decimal(maximum as nat),
        WitnessValidationError::AllowlistTooLarge { count, maximum } => "allowlist has "@ + decimal(
            count as nat,
        ) + " entries (maximum "@ + decimal(maximum as nat) + ")"@,
        WitnessValidationError::DuplicateAllowlistEntry => "allowlist contains duplicate entries"@,
        WitnessValidationError::ZeroHashInAllowlist => "allowlist contains all-zero hash"@,
    }
}

/// The one-character string of the decimal digit `d`.
fn digit_str(d: u64) -> (s: &'static str)
    requires
        d < 10,
    ensures
        s@ == seq![digit_char(d as nat)],
{
    proof {
        reveal_strlit("0");
        reveal_strlit("1");
        reveal_strlit("2");
        reveal_strlit("3");
        reveal_strlit("4");
        reveal_strlit("5");
        reveal_strlit("6");
        reveal_strlit("7");
        reveal_strlit("8");
        reveal_strlit("9");
    }
    if d == 0 {
        "0"
    } else if d == 1 {
        "1"
    } else if d == 2 {
        "2"
    } else if d == 3 {
        "3"
    } else if d == 4 {
        "4"
    } else if d == 5 {
        "5"
    } else if d == 6 {
        "6"
    } else if d == 7 {
        "7"
    } else if d == 8 {
        "8"
    } else {
        "9"
    }
}

/// Appends the decimal rendering of `n` to `s`.
fn push_decimal(s: &mut String, n: u64)
    ensures
        final(s)@ == old(s)@ + decimal(n as nat),
    decreases n,
{
    if n >= 10 {
        push_decimal(s, n / 10);
    }
    s.append(digit_str(n % 10));
    assert(final(s)@ =~= old(s)@ + decimal(n as nat));
}

impl WitnessValidationError {
    /// The human-readable message of this error, as displayed to operators:
    /// for example `"invalid public key size: 100 bytes (expected 1952)"`.
    pub fn message(&self) -> (s: String)
        ensures
            s@ == error_message(*self),
    {
        match self {
            WitnessValidationError::EmptyPublicKey => String::from_str("public key is empty"),
            WitnessValidationError::InvalidPublicKeySize { actual, expected } => {
                let mut s = String::from_str("invalid public key size: ");
                push_decimal(&mut s, *actual as u64);
                s.append(" bytes (expected ");
                push_decimal(&mut s, *expected as u64);
                s.append(")");
                s
            },
            WitnessValidationError::ZeroBinaryHash => String::from_str("binary hash is all zeros"),
            WitnessValidationError::TimestampTooOld { timestamp, minimum } => {
                let mut s = String::from_str("timestamp ");
                push_decimal(&mut s, *timestamp);
                s.append(" is before minimum ");
                push_decimal(&mut s, *minimum);
                s
            },
            WitnessValidationError::TimestampInFuture { timestamp, maximum } => {
                let mut s = String::from_str("timestamp ");
                push_decimal(&mut s, *timestamp);
                s.append(" exceeds maximum ");
                push_decimal(&mut s, *maximum);
                s
            },
            WitnessValidationError::AllowlistTooLarge { count, maximum } => {
                let mut s = String::from_str("allowlist has ");
                push_decimal(&mut s, *count as u64);
                s.append(" entries (maximum ");
                push_decimal(&mut s, *maximum as u64);
                s.append(")");
                s
            },
            WitnessValidationError::DuplicateAllowlistEntry => String::from_str(
                "allowlist contains duplicate entries",
            ),
            WitnessValidationError::ZeroHashInAllowlist => String::from_str(
                "allowlist contains all-zero hash",
            ),
        }
    }
}

} // verus!
