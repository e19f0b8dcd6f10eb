//! Errors reported while validating state or sampling arguments.
use vstd::prelude::*;
use vstd::string::StringExecFns;

verus! {

/// An error while validating state or sampling arguments.
#[derive(Clone, Debug, PartialEq, Eq, Structural)]
#[non_exhaustive]
pub enum RRngError {
    /// R reserves the minimum signed integer as `NA_integer_`.
    InvalidSeed(i32),
    /// `.Random.seed` did not contain the number of integers required by its generator.
    InvalidSeedLength { expected: usize, actual: usize },
    /// The encoded uniform generator is not supported.
    UnsupportedUniformKind(i32),
    /// The encoded normal generator is not inversion.
    UnsupportedNormalKind(i32),
    /// The encoded sample generator is not rounding or rejection.
    UnsupportedSampleKind(i32),
    /// The encoded binomial generator is unsupported.
    UnsupportedBinomialKind(i32),
    /// The Mersenne Twister cursor is outside R's valid range.
    InvalidPosition(i32),
    /// A required generator-state component contains no set bits.
    AllZeroState,
    /// A L'Ecuyer-CMRG state word was outside its component modulus.
    InvalidLecuyerState,
    /// A stream operation was requested for a non-L'Ecuyer generator.
    StreamOperationRequiresLecuyer,
    /// An output slice was too short for the serialized state.
    OutputTooSmall { required: usize, actual: usize },
    /// A population size was zero or exceeded R's supported range.
    InvalidPopulationSize(usize),
    /// Sampling without replacement requested more values than exist.
    SampleLargerThanPopulation { size: usize, population: usize },
}

/// The character of the decimal digit `d`.
pub open spec fn digit_char(d: nat) -> char {
    if d == 0 {
        '0'
    } else if d == 1 {
        '1'
    } else if d == 2 {
        '2'
    } else if d == 3 {
        '3'
    } else if d == 4 {
        '4'
    } else if d == 5 {
        '5'
    } else if d == 6 {
        '6'
    } else if d == 7 {
        '7'
    } else if d == 8 {
        '8'
    } else {
        '9'
    }
}

/// The decimal digits of `x`, most significant first.
pub open spec fn decimal(x: nat) -> Seq<char>
    decreases x,
{
    if x < 10 {
        seq![digit_char(x)]
    } else {
        decimal(x / 10) + seq![digit_char(x % 10)]
    }
}

/// `x` in decimal, with a minus sign when it is negative.
pub open spec fn signed_decimal(x: int) -> Seq<char> {
    if x < 0 {
        seq!['-'] + decimal((-x) as nat)
    } else {
        decimal(x as nat)
    }
}

/// The text that describes an error.
pub open spec fn error_message(e: RRngError) -> Seq<char> {
    match e {
        RRngError::InvalidSeed(seed) => signed_decimal(seed as int)
            + " is not a valid R integer seed"@,
        RRngError::InvalidSeedLength { expected, actual } => "invalid .Random.seed length: expected "@
            + decimal(expected as nat) + ", got "@ + decimal(actual as nat),
        RRngError::UnsupportedUniformKind(kind) => "unsupported R uniform RNG kind "@
            + signed_decimal(kind as int),
        RRngError::UnsupportedNormalKind(kind) => "unsupported R normal RNG kind "@
            + signed_decimal(kind as int),
        RRngError::UnsupportedSampleKind(kind) => "unsupported R sample RNG kind "@
            + signed_decimal(kind as int),
        RRngError::UnsupportedBinomialKind(kind) => "unsupported R binomial RNG kind "@
            + signed_decimal(kind as int),
        RRngError::InvalidPosition(position) => "invalid Mersenne Twister position "@
            + signed_decimal(position as int),
        RRngError::AllZeroState => "a required generator-state component is all zero"@,
        RRngError::InvalidLecuyerState => "invalid L'Ecuyer-CMRG state"@,
        RRngError::StreamOperationRequiresLecuyer => "RNG stream jumps require L'Ecuyer-CMRG"@,
        RRngError::OutputTooSmall { required, actual } => "state output is too short: need "@
            + decimal(required as nat) + " integers, got "@ + decimal(actual as nat),
        RRngError::InvalidPopulationSize(size) => "population size "@ + decimal(size as nat)
            + " is outside R's supported range"@,
        RRngError::SampleLargerThanPopulation { size, population } => "cannot sample "@ + decimal(
            size as nat,
        ) + " values without replacement from "@ + decimal(population as nat) + " values"@,
    }
}

/// Appends the decimal digit `d`.
fn append_digit(s: &mut String, d: u64)
    requires
        d < 10,
    ensures
        final(s)@ == old(s)@ + seq![digit_char(d as nat)],
{
    let t = if d == 0 {
        "0"
    } else if d == 1 {
        "1"
    } else if d == 2 {
        "2"
    } else if d == 3 {
        "3"
    } else if d == 4 {
        "4"
    } else if d == 5 {
        "5"
    } else if d == 6 {
        "6"
    } else if d == 7 {
        "7"
    } else if d == 8 {
        "8"
    } else {
        "9"
    };
    proof {
        reveal_strlit("0");
        reveal_strlit("1");
        reveal_strlit("2");
        reveal_strlit("3");
        reveal_strlit("4");
        reveal_strlit("5");
        reveal_strlit("6");
        reveal_strlit("7");
        reveal_strlit("8");
        reveal_strlit("9");
    }
    assert(t@ =~= seq![digit_char(d as nat)]);
    s.append(t);
}

/// Appends `x` in decimal.
fn append_decimal(s: &mut String, x: u64)
    ensures
        final(s)@ == old(s)@ + decimal(x as nat),
    decreases x,
{
    if x >= 10 {
        append_decimal(s, x / 10);
    }
    append_digit(s, x % 10);
    proof {
        if x >= 10 {
            assert(decimal(x as nat) == decimal((x / 10) as nat) + seq![digit_char((x % 10) as nat)]);
            assert(s@ =~= old(s)@ + decimal(x as nat));
        } else {
            assert(s@ =~= old(s)@ + decimal(x as nat));
        }
    }
}

/// Appends `x` in decimal, with a minus sign when it is negative.
fn append_signed(s: &mut String, x: i32)
    ensures
        final(s)@ == old(s)@ + signed_decimal(x as int),
{
    if x < 0 {
        s.append("-");
        proof {
            reveal_strlit("-");
        }
        append_decimal(s, (-(x as i64)) as u64);
        assert(s@ =~= old(s)@ + signed_decimal(x as int));
    } else {
        append_decimal(s, x as u64);
    }
}

impl RRngError {
    /// The text that describes the error.
    pub fn message(&self) -> (m: String)
        ensures
            m@ == error_message(*self),
    {
        let mut s = String::new();
        match self {
            RRngError::InvalidSeed(seed) => {
                append_signed(&mut s, *seed);
                s.append(" is not a valid R integer seed");
            },
            RRngError::InvalidSeedLength { expected, actual } => {
                s.append("invalid .Random.seed length: expected ");
                append_decimal(&mut s, *expected as u64);
                s.append(", got ");
                append_decimal(&mut s, *actual as u64);
            },
            RRngError::UnsupportedUniformKind(kind) => {
                s.append("unsupported R uniform RNG kind ");
                append_signed(&mut s, *kind);
            },
            RRngError::UnsupportedNormalKind(kind) => {
                s.append("unsupported R normal RNG kind ");
                append_signed(&mut s, *kind);
            },
            RRngError::UnsupportedSampleKind(kind) => {
                s.append("unsupported R sample RNG kind ");
                append_signed(&mut s, *kind);
            },
            RRngError::UnsupportedBinomialKind(kind) => {
                s.append("unsupported R binomial RNG kind ");
                append_signed(&mut s, *kind);
            },
            RRngError::InvalidPosition(position) => {
                s.append("invalid Mersenne Twister position ");
                append_signed(&mut s, *position);
            },
            RRngError::AllZeroState => {
                s.append("a required generator-state component is all zero");
            },
            RRngError::InvalidLecuyerState => {
                s.append("invalid L'Ecuyer-CMRG state");
            },
            RRngError::StreamOperationRequiresLecuyer => {
                s.append("RNG stream jumps require L'Ecuyer-CMRG");
            },
            RRngError::OutputTooSmall { required, actual } => {
                s.append("state output is too short: need ");
                append_decimal(&mut s, *required as u64);
                s.append(" integers, got ");
                append_decimal(&mut s, *actual as u64);
            },
            RRngError::InvalidPopulationSize(size) => {
                s.append("population size ");
                append_decimal(&mut s, *size as u64);
                s.append(" is outside R's supported range");
            },
            RRngError::SampleLargerThanPopulation { size, population } => {
                s.append("cannot sample ");
                append_decimal(&mut s, *size as u64);
                s.append(" values without replacement from ");
                append_decimal(&mut s, *population as u64);
                s.append(" values");
            },
        }
        assert(s@ =~= error_message(*self));
        s
    }
}

} // verus!
