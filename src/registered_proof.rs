//! Proof-of-spacetime kinds and the sector sizes they prove.
use vstd::prelude::*;

verus! {

/// One of the sector sizes that the network supports.
#[derive(Clone, Copy, Debug, PartialEq, Eq, Structural)]
pub enum SectorSize {
    _2KiB,
    _8MiB,
    _512MiB,
    _32GiB,
    _64GiB,
}

impl SectorSize {
    pub open spec fn spec_bytes(self) -> u64 {
        match self {
            SectorSize::_2KiB => 2048,
            SectorSize::_8MiB => 8388608,
            SectorSize::_512MiB => 536870912,
            SectorSize::_32GiB => 34359738368,
            SectorSize::_64GiB => 68719476736,
        }
    }

    /// The size in bytes.
    pub fn bytes(self) -> (r: u64)
        ensures
            r == self.spec_bytes(),
    {
        match self {
            SectorSize::_2KiB => 2 * 1024,
            SectorSize::_8MiB => 8 * 1024 * 1024,
            SectorSize::_512MiB => 512 * 1024 * 1024,
            SectorSize::_32GiB => 32 * 1024 * 1024 * 1024,
            SectorSize::_64GiB => 64 * 1024 * 1024 * 1024,
        }
    }
}

/// Proof of spacetime type, indicating version and sector size of the proof.
#[derive(Clone, Copy, Debug, PartialEq, Eq, Structural, Hash)]
pub enum RegisteredPoStProof {
    StackedDRGWinning2KiBV1,
    StackedDRGWinning8MiBV1,
    StackedDRGWinning512MiBV1,
    StackedDRGWinning32GiBV1,
    StackedDRGWinning64GiBV1,
    StackedDRGWindow2KiBV1,
    StackedDRGWindow8MiBV1,
    StackedDRGWindow512MiBV1,
    StackedDRGWindow32GiBV1,
    StackedDRGWindow64GiBV1,
    StackedDRGWindow2KiBV1P1,
    StackedDRGWindow8MiBV1P1,
    StackedDRGWindow512MiBV1P1,
    StackedDRGWindow32GiBV1P1,
    StackedDRGWindow64GiBV1P1,
    Invalid(i64),
}

/// The decimal digit `d`.
pub open spec fn digit_char(d: nat) -> char {
    seq!['0', '1', '2', '3', '4', '5', '6', '7', '8', '9'][d as int]
}

/// The decimal numeral of `n`, without leading zeros.
pub open spec fn decimal_digits(n: nat) -> Seq<char>
    decreases n,
{
    if n < 10 {
        seq![digit_char(n)]
    } else {
        decimal_digits(n / 10).push(digit_char(n % 10))
    }
}

/// The decimal numeral of `i`, with a leading minus sign when it is negative.
pub open spec fn decimal(i: int) -> Seq<char> {
    if i < 0 {
        seq!['-'] + decimal_digits((-i) as nat)
    } else {
        decimal_digits(i as nat)
    }
}

/// The message that names a proof type that is not supported.
pub open spec fn unsupported_message(i: i64) -> Seq<char> {
    "unsupported proof type: "@ + decimal(i as int)
}

/// Relies on `ToString` for `i64`, which writes through its `Display` impl:
/// the decimal numeral, with a leading minus sign for negative numbers.
#[verifier::external_body]
fn decimal_string(i: i64) -> (r: String)
    ensures
        r@ == decimal(i as int),
{
    i.to_string()
}

/// Relies on `String::push_str`: appends the characters of `t`.
#[verifier::external_body]
fn append(s: &mut String, t: &str)
    ensures
        final(s)@ == old(s)@ + t@,
{
    s.push_str(t)
}

/// The message that names the unsupported proof type `i`.
fn unsupported_proof_type(i: i64) -> (r: String)
    ensures
        r@ == unsupported_message(i),
{
    let mut message = String::new();
    append(&mut message, "unsupported proof type: ");
    let digits = decimal_string(i);
    append(&mut message, digits.as_str());
    message
}

impl RegisteredPoStProof {
    pub open spec fn spec_sector_size(self) -> Option<SectorSize> {
        match self {
            RegisteredPoStProof::StackedDRGWindow2KiBV1P1
            | RegisteredPoStProof::StackedDRGWindow2KiBV1
            | RegisteredPoStProof::StackedDRGWinning2KiBV1 => Some(SectorSize::_2KiB),
            RegisteredPoStProof::StackedDRGWindow8MiBV1P1
            | RegisteredPoStProof::StackedDRGWindow8MiBV1
            | RegisteredPoStProof::StackedDRGWinning8MiBV1 => Some(SectorSize::_8MiB),
            RegisteredPoStProof::StackedDRGWindow512MiBV1P1
            | RegisteredPoStProof::StackedDRGWindow512MiBV1
            | RegisteredPoStProof::StackedDRGWinning512MiBV1 => Some(SectorSize::_512MiB),
            RegisteredPoStProof::StackedDRGWindow32GiBV1P1
            | RegisteredPoStProof::StackedDRGWindow32GiBV1
            | RegisteredPoStProof::StackedDRGWinning32GiBV1 => Some(SectorSize::_32GiB),
            RegisteredPoStProof::StackedDRGWindow64GiBV1P1
            | RegisteredPoStProof::StackedDRGWindow64GiBV1
            | RegisteredPoStProof::StackedDRGWinning64GiBV1 => Some(SectorSize::_64GiB),
            RegisteredPoStProof::Invalid(_) => None,
        }
    }

    pub open spec fn spec_window_post_partitions_sector(self) -> Option<u64> {
        match self.spec_sector_size() {
            Some(SectorSize::_64GiB) => Some(2300),
            Some(SectorSize::_32GiB) => Some(2349),
            Some(_) => Some(2),
            None => None,
        }
    }

    /// Returns the sector size of the proof type, which is measured in bytes.
    pub fn sector_size(self) -> (r: Result<SectorSize, String>)
        ensures
            match self {
                RegisteredPoStProof::Invalid(i) => r matches Err(e) && e@ == unsupported_message(i),
                _ => r == Ok::<SectorSize, String>(self.spec_sector_size().unwrap()),
            },
    {
        match self {
            RegisteredPoStProof::StackedDRGWindow2KiBV1P1
            | RegisteredPoStProof::StackedDRGWindow2KiBV1
            | RegisteredPoStProof::StackedDRGWinning2KiBV1 => Ok(SectorSize::_2KiB),
            RegisteredPoStProof::StackedDRGWindow8MiBV1P1
            | RegisteredPoStProof::StackedDRGWindow8MiBV1
            | RegisteredPoStProof::StackedDRGWinning8MiBV1 => Ok(SectorSize::_8MiB),
            RegisteredPoStProof::StackedDRGWindow512MiBV1P1
            | RegisteredPoStProof::StackedDRGWindow512MiBV1
            | RegisteredPoStProof::StackedDRGWinning512MiBV1 => Ok(SectorSize::_512MiB),
            RegisteredPoStProof::StackedDRGWindow32GiBV1P1
            | RegisteredPoStProof::StackedDRGWindow32GiBV1
            | RegisteredPoStProof::StackedDRGWinning32GiBV1 => Ok(SectorSize::_32GiB),
            RegisteredPoStProof::StackedDRGWindow64GiBV1P1
            | RegisteredPoStProof::StackedDRGWindow64GiBV1
            | RegisteredPoStProof::StackedDRGWinning64GiBV1 => Ok(SectorSize::_64GiB),
            RegisteredPoStProof::Invalid(i) => Err(unsupported_proof_type(i)),
        }
    }

    /// Proof size in bytes for each proof type.
    pub fn proof_size(self) -> (r: Result<usize, String>)
        ensures
            match self {
                RegisteredPoStProof::Invalid(i) => r matches Err(e) && e@ == unsupported_message(i),
                _ => r == Ok::<usize, String>(192),
            },
    {
        match self {
            RegisteredPoStProof::StackedDRGWinning2KiBV1
            | RegisteredPoStProof::StackedDRGWinning8MiBV1
            | RegisteredPoStProof::StackedDRGWinning512MiBV1
            | RegisteredPoStProof::StackedDRGWinning32GiBV1
            | RegisteredPoStProof::StackedDRGWinning64GiBV1
            | RegisteredPoStProof::StackedDRGWindow2KiBV1
            | RegisteredPoStProof::StackedDRGWindow8MiBV1
            | RegisteredPoStProof::StackedDRGWindow512MiBV1
            | RegisteredPoStProof::StackedDRGWindow32GiBV1
            | RegisteredPoStProof::StackedDRGWindow64GiBV1
            | RegisteredPoStProof::StackedDRGWindow2KiBV1P1
            | RegisteredPoStProof::StackedDRGWindow8MiBV1P1
            | RegisteredPoStProof::StackedDRGWindow512MiBV1P1
            | RegisteredPoStProof::StackedDRGWindow32GiBV1P1
            | RegisteredPoStProof::StackedDRGWindow64GiBV1P1 => Ok(192),
            RegisteredPoStProof::Invalid(i) => Err(unsupported_proof_type(i)),
        }
    }

    /// Returns the partition size, in sectors, associated with a proof type.
    /// The partition size is the number of sectors proven in a single PoSt proof.
    pub fn window_post_partitions_sector(self) -> (r: Result<u64, String>)
        ensures
            match self {
                RegisteredPoStProof::Invalid(i) => r matches Err(e) && e@ == unsupported_message(i),
                _ => r == Ok::<u64, String>(self.spec_window_post_partitions_sector().unwrap()),
            },
    {
        match self {
            RegisteredPoStProof::StackedDRGWinning64GiBV1
            | RegisteredPoStProof::StackedDRGWindow64GiBV1
            | RegisteredPoStProof::StackedDRGWindow64GiBV1P1 => Ok(2300),
            RegisteredPoStProof::StackedDRGWinning32GiBV1
            | RegisteredPoStProof::StackedDRGWindow32GiBV1
            | RegisteredPoStProof::StackedDRGWindow32GiBV1P1 => Ok(2349),
            RegisteredPoStProof::StackedDRGWinning2KiBV1
            | RegisteredPoStProof::StackedDRGWindow2KiBV1
            | RegisteredPoStProof::StackedDRGWindow2KiBV1P1 => Ok(2),
            RegisteredPoStProof::StackedDRGWinning8MiBV1
            | RegisteredPoStProof::StackedDRGWindow8MiBV1
            | RegisteredPoStProof::StackedDRGWindow8MiBV1P1 => Ok(2),
            RegisteredPoStProof::StackedDRGWinning512MiBV1
            | RegisteredPoStProof::StackedDRGWindow512MiBV1
            | RegisteredPoStProof::StackedDRGWindow512MiBV1P1 => Ok(2),
            RegisteredPoStProof::Invalid(i) => Err(unsupported_proof_type(i)),
        }
    }
}

} // verus!
