//! Magnitude units of byte quantities and the conversion between them.

use vstd::prelude::*;

verus! {

/// A magnitude of a byte quantity. Each unit is a power of 1000 bytes.
#[derive(Clone, Copy, Debug, PartialEq, Eq, Structural)]
pub enum Unit {
    /// Bytes.
    B,
    /// Kilobytes, 10^3 bytes.
    K,
    /// Megabytes, 10^6 bytes.
    M,
    /// Gigabytes, 10^9 bytes.
    G,
    /// Terabytes, 10^12 bytes.
    T,
}

impl Unit {
    /// The number of bytes in one of this unit.
    pub open spec fn scale(self) -> nat {
        match self {
            Unit::B => 1,
            Unit::K => 1_000,
            Unit::M => 1_000_000,
            Unit::G => 1_000_000_000,
            Unit::T => 1_000_000_000_000,
        }
    }

    /// A quantity of this unit in bytes.
    pub open spec fn bytes(self, quantity: nat) -> nat {
        match self {
            Unit::B => quantity,
            Unit::K => quantity * 1_000,
            Unit::M => quantity * 1_000_000,
            Unit::G => quantity * 1_000_000_000,
            Unit::T => quantity * 1_000_000_000_000,
        }
    }

    /// A number of bytes expressed in this unit and rounded to the nearest
    /// integer, a tie going up.
    pub open spec fn nearest(self, bytes: nat) -> nat {
        match self {
            Unit::B => bytes,
            Unit::K => (bytes + 500) / 1_000,
            Unit::M => (bytes + 500_000) / 1_000_000,
            Unit::G => (bytes + 500_000_000) / 1_000_000_000,
            Unit::T => (bytes + 500_000_000_000) / 1_000_000_000_000,
        }
    }

    /// The unit that a symbol stands for, if it stands for one.
    pub open spec fn of_symbol(symbol: char) -> Option<Unit> {
        if symbol == 'B' {
            Some(Unit::B)
        } else if symbol == 'K' {
            Some(Unit::K)
        } else if symbol == 'M' {
            Some(Unit::M)
        } else if symbol == 'G' {
            Some(Unit::G)
        } else if symbol == 'T' {
            Some(Unit::T)
        } else {
            None
        }
    }

    /// The number of bytes in one of this unit.
    pub fn scale_factor(self) -> (factor: u64)
        ensures
            factor == self.scale(),
    {
        match self {
            Unit::B => 1,
            Unit::K => 1_000,
            Unit::M => 1_000_000,
            Unit::G => 1_000_000_000,
            Unit::T => 1_000_000_000_000,
        }
    }

    /// Reads a unit from its symbol, one of `B`, `K`, `M`, `G`, `T`.
    /// Any other character is no unit.
    pub fn from_symbol(symbol: char) -> (unit: Option<Unit>)
        ensures
            unit == Unit::of_symbol(symbol),
    {
        if symbol == 'B' {
            Some(Unit::B)
        } else if symbol == 'K' {
            Some(Unit::K)
        } else if symbol == 'M' {
            Some(Unit::M)
        } else if symbol == 'G' {
            Some(Unit::G)
        } else if symbol == 'T' {
            Some(Unit::T)
        } else {
            None
        }
    }

    /// The symbol that stands for this unit.
    pub fn symbol(self) -> (symbol: char)
        ensures
            Unit::of_symbol(symbol) == Some(self),
    {
        match self {
            Unit::B => 'B',
            Unit::K => 'K',
            Unit::M => 'M',
            Unit::G => 'G',
            Unit::T => 'T',
        }
    }
}

/// Whether a character is the symbol of a unit.
pub open spec fn is_unit_symbol(symbol: char) -> bool {
    Unit::of_symbol(symbol) is Some
}

/// The quotient `numerator / denominator` rounded to the nearest integer,
/// a tie going up.
pub open spec fn rounded_quotient(numerator: nat, denominator: nat) -> nat
    recommends
        denominator > 0,
{
    ((2 * numerator + denominator) / (2 * denominator)) as nat
}

/// A quantity of `from` units expressed in `to` units, rounded to the nearest
/// integer, a tie going up.
pub open spec fn converted(value: nat, from: Unit, to: Unit) -> nat {
    to.nearest(from.bytes(value))
}

/// A natural number as a `u64`, the largest `u64` standing for all that
/// exceed it.
pub open spec fn saturated(n: nat) -> u64 {
    if n > u64::MAX {
        u64::MAX
    } else {
        n as u64
    }
}

/// What a conversion returns: the quantity expressed in `to` units and
/// rounded, or the largest `u64` where that is beyond it.
pub open spec fn conversion(value: u64, from: Unit, to: Unit) -> u64 {
    saturated(converted(value as nat, from, to))
}

/// The multiple of 1000 nearest to `value`, a tie going up.
pub open spec fn nearest_thousand(value: nat) -> nat {
    ((value + 500) / 1000 * 1000) as nat
}

/// Converts a quantity from one unit to another, rounding to the nearest
/// integer with a tie going up. A result beyond `u64::MAX` is `u64::MAX`.
pub fn convert(value: u64, from: Unit, to: Unit) -> (result: u64)
    ensures
        result == conversion(value, from, to),
        from == to ==> result == value,
{
    let from_scale: u128 = from.scale_factor() as u128;
    let to_scale: u128 = to.scale_factor() as u128;
    assert((value as u128) * from_scale <= 0xffff_ffff_ffff_ffff * 1_000_000_000_000)
        by (nonlinear_arith)
        requires
            value <= 0xffff_ffff_ffff_ffff,
            from_scale <= 1_000_000_000_000,
    ;
    let bytes: u128 = (value as u128) * from_scale;
    let quotient: u128 = (bytes + to_scale / 2) / to_scale;
    proof {
        lemma_bytes(value as nat, from);
        lemma_convert_identity(value as nat, from);
    }
    if quotient > u64::MAX as u128 {
        u64::MAX
    } else {
        quotient as u64
    }
}

/// Converts `input`, a quantity of the unit with symbol `current_unit`, to
/// the unit with symbol `convert_to`.
pub fn unit_converter(current_unit: char, convert_to: char, input: u64) -> (result: u64)
    requires
        is_unit_symbol(current_unit),
        is_unit_symbol(convert_to),
    ensures
        result == conversion(
            input,
            Unit::of_symbol(current_unit).unwrap(),
            Unit::of_symbol(convert_to).unwrap(),
        ),
        current_unit == convert_to ==> result == input,
{
    let from: Option<Unit> = Unit::from_symbol(current_unit);
    let to: Option<Unit> = Unit::from_symbol(convert_to);
    convert(input, from.unwrap(), to.unwrap())
}

/// A quantity in bytes is the quantity times the scale of its unit.
pub proof fn lemma_bytes(quantity: nat, unit: Unit)
    ensures
        unit.bytes(quantity) == quantity * unit.scale(),
{
}

/// A conversion is the quotient of the two scales times the quantity, rounded
/// to the nearest integer with a tie going up.
pub proof fn lemma_converted_is_rounded_quotient(value: nat, from: Unit, to: Unit)
    ensures
        converted(value, from, to) == rounded_quotient(value * from.scale(), to.scale()),
{
    lemma_bytes(value, from);
    let bytes: nat = from.bytes(value);
    match to {
        Unit::B => {
            assert((2 * bytes + 1) / 2 == bytes);
        },
        Unit::K => {
            assert((2 * bytes + 1_000) / 2_000 == (bytes + 500) / 1_000);
        },
        Unit::M => {
            assert((2 * bytes + 1_000_000) / 2_000_000 == (bytes + 500_000) / 1_000_000);
        },
        Unit::G => {
            assert((2 * bytes + 1_000_000_000) / 2_000_000_000 == (bytes + 500_000_000)
                / 1_000_000_000);
        },
        Unit::T => {
            assert((2 * bytes + 1_000_000_000_000) / 2_000_000_000_000 == (bytes
                + 500_000_000_000) / 1_000_000_000_000);
        },
    }
}

/// Converting a quantity to its own unit leaves it as it is, however large
/// it is.
pub proof fn lemma_convert_identity(value: nat, unit: Unit)
    ensures
        converted(value, unit, unit) == value,
        value <= u64::MAX ==> conversion(value as u64, unit, unit) == value,
{
}

/// Converting kilobytes to megabytes and back gives the multiple of 1000
/// nearest to the quantity, as long as that multiple is a `u64`.
pub proof fn lemma_kilo_mega_round_trip(value: u64)
    requires
        nearest_thousand(value as nat) <= u64::MAX,
    ensures
        conversion(conversion(value, Unit::K, Unit::M), Unit::M, Unit::K) == nearest_thousand(
            value as nat,
        ),
{
}

} // verus!
