//! The MsSql dialect's column types and its type-change risk tables.
//!
//! A column type change is classified as a safe cast, a risky cast (may
//! truncate or reinterpret data) or not castable (would fail or destroy
//! data). When both sides of a change carry a native type, a per-dialect
//! matrix decides; otherwise a family-level table is the fallback.

use vstd::prelude::*;
use crate::schema::ColumnTypeFamily;

verus! {

/// Precision and scale of a decimal or numeric type.
#[derive(Clone, Copy, PartialEq, Eq, Structural, Debug)]
pub struct DecimalParams {
    pub precision: u32,
    pub scale: u32,
}

/// A length-like parameter of a sized MsSql type.
#[derive(Clone, Copy, PartialEq, Eq, Structural, Debug)]
pub enum MsSqlTypeParameter {
    Number(u32),
    Max,
}

/// The native column types of the MsSql dialect.
#[derive(Clone, Copy, PartialEq, Eq, Structural, Debug)]
pub enum MsSqlType {
    TinyInt,
    SmallInt,
    Int,
    BigInt,
    Decimal(Option<DecimalParams>),
    Numeric(Option<DecimalParams>),
    Money,
    SmallMoney,
    Bit,
    Float(Option<u32>),
    Real,
    Date,
    Time,
    DateTime,
    DateTime2,
    DateTimeOffset,
    SmallDateTime,
    Char(Option<u32>),
    NChar(Option<u32>),
    VarChar(Option<MsSqlTypeParameter>),
    NVarChar(Option<MsSqlTypeParameter>),
    Text,
    NText,
    Binary(Option<u32>),
    VarBinary(Option<MsSqlTypeParameter>),
    Image,
    Xml,
    UniqueIdentifier,
}

/// The MsSql dialect's differ hooks.
pub struct MssqlFlavour;

impl MssqlFlavour {
    /// Unique indexes of a new table are created inside the table
    /// definition and need no separate step.
    pub fn should_skip_index_for_new_table(&self, index: &crate::walkers::IndexWalker<'_>) -> (r: bool)
        requires
            index.valid(),
        ensures
            r == (index.spec_index().tpe matches crate::schema::IndexType::Unique),
    {
        index.index_type().is_unique()
    }

    /// This dialect recreates the primary key when a column of it is
    /// recreated.
    pub fn should_recreate_the_primary_key_on_column_recreate(&self) -> (r: bool)
        ensures
            r,
    {
        true
    }
}

/// How risky a column type change is.
#[derive(Clone, Copy, PartialEq, Eq, Structural, Debug)]
pub enum ColumnTypeChange {
    SafeCast,
    RiskyCast,
    NotCastable,
}

/// The family-level fallback table: anything casts safely to the string
/// family; string to int or float, and date-time to float, cannot be cast;
/// every other family change is risky.
pub open spec fn spec_family_change(prev: ColumnTypeFamily, next: ColumnTypeFamily) -> ColumnTypeChange {
    match (prev, next) {
        (_, ColumnTypeFamily::Text) => ColumnTypeChange::SafeCast,
        (ColumnTypeFamily::Text, ColumnTypeFamily::Int) => ColumnTypeChange::NotCastable,
        (ColumnTypeFamily::DateTime, ColumnTypeFamily::Float) => ColumnTypeChange::NotCastable,
        (ColumnTypeFamily::Text, ColumnTypeFamily::Float) => ColumnTypeChange::NotCastable,
        (_, _) => ColumnTypeChange::RiskyCast,
    }
}

/// Classify a family-level type change.
pub fn type_change_riskyness(prev: &ColumnTypeFamily, next: &ColumnTypeFamily) -> (r: ColumnTypeChange)
    ensures
        r == spec_family_change(*prev, *next),
{
    match (prev, next) {
        (_, ColumnTypeFamily::Text) => ColumnTypeChange::SafeCast,
        (ColumnTypeFamily::Text, ColumnTypeFamily::Int) => ColumnTypeChange::NotCastable,
        (ColumnTypeFamily::DateTime, ColumnTypeFamily::Float) => ColumnTypeChange::NotCastable,
        (ColumnTypeFamily::Text, ColumnTypeFamily::Float) => ColumnTypeChange::NotCastable,
        (_, _) => ColumnTypeChange::RiskyCast,
    }
}

/// The native-type matrix of the MsSql dialect. Where one side has no
/// native type, or the pair is not in the matrix, the family table decides.
pub open spec fn spec_native_change(
    prev: Option<MsSqlType>,
    next: Option<MsSqlType>,
    prev_family: ColumnTypeFamily,
    next_family: ColumnTypeFamily,
) -> ColumnTypeChange {
    match (prev, next) {
        (None, _) => spec_family_change(prev_family, next_family),
        (_, None) => spec_family_change(prev_family, next_family),
        (Some(left), Some(right)) => if left == right {
            ColumnTypeChange::SafeCast
        } else {
            spec_native_pair_change(left, right, prev_family, next_family)
        },
    }
}

/// One row pair of the native-type matrix, for two distinct native types.
pub open spec fn spec_native_pair_change(
    left: MsSqlType,
    right: MsSqlType,
    prev_family: ColumnTypeFamily,
    next_family: ColumnTypeFamily,
) -> ColumnTypeChange {
    match (left, right) {
        (MsSqlType::Bit, MsSqlType::TinyInt) => ColumnTypeChange::SafeCast,
        (MsSqlType::Bit, MsSqlType::SmallInt) => ColumnTypeChange::SafeCast,
        (MsSqlType::Bit, MsSqlType::Int) => ColumnTypeChange::SafeCast,
        (MsSqlType::Bit, MsSqlType::BigInt) => ColumnTypeChange::SafeCast,
        (MsSqlType::Bit, MsSqlType::Decimal(_)) => ColumnTypeChange::SafeCast,
        (MsSqlType::Bit, MsSqlType::Numeric(_)) => ColumnTypeChange::SafeCast,
        (MsSqlType::Bit, MsSqlType::Money) => ColumnTypeChange::SafeCast,
        (MsSqlType::Bit, MsSqlType::SmallMoney) => ColumnTypeChange::SafeCast,
        (MsSqlType::Bit, MsSqlType::Float(_)) => ColumnTypeChange::SafeCast,
        (MsSqlType::Bit, MsSqlType::Real) => ColumnTypeChange::SafeCast,
        (MsSqlType::Bit, MsSqlType::DateTime) => ColumnTypeChange::SafeCast,
        (MsSqlType::Bit, MsSqlType::SmallDateTime) => ColumnTypeChange::SafeCast,
        (MsSqlType::Bit, MsSqlType::Binary(_)) => ColumnTypeChange::SafeCast,
        (MsSqlType::Bit, MsSqlType::VarBinary(_)) => ColumnTypeChange::SafeCast,
        (MsSqlType::Bit, MsSqlType::Text) => ColumnTypeChange::NotCastable,
        (MsSqlType::Bit, MsSqlType::NText) => ColumnTypeChange::NotCastable,
        (MsSqlType::Bit, MsSqlType::Image) => ColumnTypeChange::NotCastable,
        (MsSqlType::Bit, MsSqlType::Xml) => ColumnTypeChange::NotCastable,
        (MsSqlType::Bit, MsSqlType::UniqueIdentifier) => ColumnTypeChange::NotCastable,
        (MsSqlType::Bit, MsSqlType::Date) => ColumnTypeChange::NotCastable,
        (MsSqlType::Bit, MsSqlType::Time) => ColumnTypeChange::NotCastable,
        (MsSqlType::Bit, MsSqlType::DateTime2) => ColumnTypeChange::NotCastable,
        (MsSqlType::Bit, MsSqlType::DateTimeOffset) => ColumnTypeChange::NotCastable,
        (MsSqlType::TinyInt, MsSqlType::SmallInt) => ColumnTypeChange::SafeCast,
        (MsSqlType::TinyInt, MsSqlType::Int) => ColumnTypeChange::SafeCast,
        (MsSqlType::TinyInt, MsSqlType::BigInt) => ColumnTypeChange::SafeCast,
        (MsSqlType::TinyInt, MsSqlType::Decimal(_)) => ColumnTypeChange::SafeCast,
        (MsSqlType::TinyInt, MsSqlType::Numeric(_)) => ColumnTypeChange::SafeCast,
        (MsSqlType::TinyInt, MsSqlType::Money) => ColumnTypeChange::SafeCast,
        (MsSqlType::TinyInt, MsSqlType::SmallMoney) => ColumnTypeChange::SafeCast,
        (MsSqlType::TinyInt, MsSqlType::Float(_)) => ColumnTypeChange::SafeCast,
        (MsSqlType::TinyInt, MsSqlType::Real) => ColumnTypeChange::SafeCast,
        (MsSqlType::TinyInt, MsSqlType::DateTime) => ColumnTypeChange::SafeCast,
        (MsSqlType::TinyInt, MsSqlType::SmallDateTime) => ColumnTypeChange::SafeCast,
        (MsSqlType::TinyInt, MsSqlType::Binary(_)) => ColumnTypeChange::SafeCast,
        (MsSqlType::TinyInt, MsSqlType::VarBinary(_)) => ColumnTypeChange::SafeCast,
        (MsSqlType::TinyInt, MsSqlType::Text) => ColumnTypeChange::NotCastable,
        (MsSqlType::TinyInt, MsSqlType::NText) => ColumnTypeChange::NotCastable,
        (MsSqlType::TinyInt, MsSqlType::Image) => ColumnTypeChange::NotCastable,
        (MsSqlType::TinyInt, MsSqlType::Xml) => ColumnTypeChange::NotCastable,
        (MsSqlType::TinyInt, MsSqlType::UniqueIdentifier) => ColumnTypeChange::NotCastable,
        (MsSqlType::TinyInt, MsSqlType::Date) => ColumnTypeChange::NotCastable,
        (MsSqlType::TinyInt, MsSqlType::Time) => ColumnTypeChange::NotCastable,
        (MsSqlType::TinyInt, MsSqlType::DateTime2) => ColumnTypeChange::NotCastable,
        (MsSqlType::TinyInt, MsSqlType::DateTimeOffset) => ColumnTypeChange::NotCastable,
        (MsSqlType::SmallInt, MsSqlType::Int) => ColumnTypeChange::SafeCast,
        (MsSqlType::SmallInt, MsSqlType::BigInt) => ColumnTypeChange::SafeCast,
        (MsSqlType::SmallInt, MsSqlType::Decimal(params)) => match params {
            Some(ps) => if ps.precision < ps.scale + 5 {
                ColumnTypeChange::RiskyCast
            } else {
                ColumnTypeChange::SafeCast
            },
            None => ColumnTypeChange::SafeCast,
        },
        (MsSqlType::SmallInt, MsSqlType::Numeric(params)) => match params {
            Some(ps) => if ps.precision < ps.scale + 5 {
                ColumnTypeChange::RiskyCast
            } else {
                ColumnTypeChange::SafeCast
            },
            None => ColumnTypeChange::SafeCast,
        },
        (MsSqlType::SmallInt, MsSqlType::Money) => ColumnTypeChange::SafeCast,
        (MsSqlType::SmallInt, MsSqlType::SmallMoney) => ColumnTypeChange::SafeCast,
        (MsSqlType::SmallInt, MsSqlType::Float(_)) => ColumnTypeChange::SafeCast,
        (MsSqlType::SmallInt, MsSqlType::Real) => ColumnTypeChange::SafeCast,
        (MsSqlType::SmallInt, MsSqlType::DateTime) => ColumnTypeChange::SafeCast,
        (MsSqlType::SmallInt, MsSqlType::SmallDateTime) => ColumnTypeChange::RiskyCast,
        (MsSqlType::SmallInt, MsSqlType::Binary(param)) => match param {
            Some(n) => if n < 2 {
                ColumnTypeChange::RiskyCast
            } else {
                ColumnTypeChange::SafeCast
            },
            None => ColumnTypeChange::RiskyCast,
        },
        (MsSqlType::SmallInt, MsSqlType::VarBinary(param)) => match param {
            Some(MsSqlTypeParameter::Number(n)) => if n < 2 {
                ColumnTypeChange::RiskyCast
            } else {
                ColumnTypeChange::SafeCast
            },
            Some(MsSqlTypeParameter::Max) => ColumnTypeChange::SafeCast,
            None => ColumnTypeChange::RiskyCast,
        },
        (MsSqlType::SmallInt, MsSqlType::Text) => ColumnTypeChange::NotCastable,
        (MsSqlType::SmallInt, MsSqlType::NText) => ColumnTypeChange::NotCastable,
        (MsSqlType::SmallInt, MsSqlType::Image) => ColumnTypeChange::NotCastable,
        (MsSqlType::SmallInt, MsSqlType::Xml) => ColumnTypeChange::NotCastable,
        (MsSqlType::SmallInt, MsSqlType::UniqueIdentifier) => ColumnTypeChange::NotCastable,
        (MsSqlType::SmallInt, MsSqlType::Date) => ColumnTypeChange::NotCastable,
        (MsSqlType::SmallInt, MsSqlType::Time) => ColumnTypeChange::NotCastable,
        (MsSqlType::SmallInt, MsSqlType::DateTime2) => ColumnTypeChange::NotCastable,
        (MsSqlType::SmallInt, MsSqlType::DateTimeOffset) => ColumnTypeChange::NotCastable,
        (MsSqlType::Int, MsSqlType::BigInt) => ColumnTypeChange::SafeCast,
        (MsSqlType::Int, MsSqlType::Decimal(params)) => match params {
            Some(ps) => if ps.precision < ps.scale + 10 {
                ColumnTypeChange::RiskyCast
            } else {
                ColumnTypeChange::SafeCast
            },
            None => ColumnTypeChange::SafeCast,
        },
        (MsSqlType::Int, MsSqlType::Numeric(params)) => match params {
            Some(ps) => if ps.precision < ps.scale + 10 {
                ColumnTypeChange::RiskyCast
            } else {
                ColumnTypeChange::SafeCast
            },
            None => ColumnTypeChange::SafeCast,
        },
        (MsSqlType::Int, MsSqlType::Money) => ColumnTypeChange::SafeCast,
        (MsSqlType::Int, MsSqlType::SmallMoney) => ColumnTypeChange::SafeCast,
        (MsSqlType::Int, MsSqlType::Float(_)) => ColumnTypeChange::SafeCast,
        (MsSqlType::Int, MsSqlType::Real) => ColumnTypeChange::SafeCast,
        (MsSqlType::Int, MsSqlType::DateTime) => ColumnTypeChange::SafeCast,
        (MsSqlType::Int, MsSqlType::SmallDateTime) => ColumnTypeChange::RiskyCast,
        (MsSqlType::Int, MsSqlType::Binary(param)) => match param {
            Some(n) => if n < 4 {
                ColumnTypeChange::RiskyCast
            } else {
                ColumnTypeChange::SafeCast
            },
            None => ColumnTypeChange::RiskyCast,
        },
        (MsSqlType::Int, MsSqlType::VarBinary(param)) => match param {
            Some(MsSqlTypeParameter::Number(n)) => if n < 4 {
                ColumnTypeChange::RiskyCast
            } else {
                ColumnTypeChange::SafeCast
            },
            Some(MsSqlTypeParameter::Max) => ColumnTypeChange::SafeCast,
            None => ColumnTypeChange::RiskyCast,
        },
        (MsSqlType::Int, MsSqlType::Text) => ColumnTypeChange::NotCastable,
        (MsSqlType::Int, MsSqlType::NText) => ColumnTypeChange::NotCastable,
        (MsSqlType::Int, MsSqlType::Image) => ColumnTypeChange::NotCastable,
        (MsSqlType::Int, MsSqlType::Xml) => ColumnTypeChange::NotCastable,
        (MsSqlType::Int, MsSqlType::UniqueIdentifier) => ColumnTypeChange::NotCastable,
        (MsSqlType::Int, MsSqlType::Date) => ColumnTypeChange::NotCastable,
        (MsSqlType::Int, MsSqlType::Time) => ColumnTypeChange::NotCastable,
        (MsSqlType::Int, MsSqlType::DateTime2) => ColumnTypeChange::NotCastable,
        (MsSqlType::Int, MsSqlType::DateTimeOffset) => ColumnTypeChange::NotCastable,
        (MsSqlType::BigInt, MsSqlType::Decimal(params)) => match params {
            Some(ps) => if ps.precision < ps.scale + 19 {
                ColumnTypeChange::RiskyCast
            } else {
                ColumnTypeChange::SafeCast
            },
            None => ColumnTypeChange::RiskyCast,
        },
        (MsSqlType::BigInt, MsSqlType::Numeric(params)) => match params {
            Some(ps) => if ps.precision < ps.scale + 19 {
                ColumnTypeChange::RiskyCast
            } else {
                ColumnTypeChange::SafeCast
            },
            None => ColumnTypeChange::RiskyCast,
        },
        (MsSqlType::BigInt, MsSqlType::Money) => ColumnTypeChange::RiskyCast,
        (MsSqlType::BigInt, MsSqlType::SmallMoney) => ColumnTypeChange::RiskyCast,
        (MsSqlType::BigInt, MsSqlType::Float(_)) => ColumnTypeChange::RiskyCast,
        (MsSqlType::BigInt, MsSqlType::Real) => ColumnTypeChange::RiskyCast,
        (MsSqlType::BigInt, MsSqlType::DateTime) => ColumnTypeChange::RiskyCast,
        (MsSqlType::BigInt, MsSqlType::SmallDateTime) => ColumnTypeChange::RiskyCast,
        (MsSqlType::BigInt, MsSqlType::Binary(param)) => match param {
            Some(n) => if n < 8 {
                ColumnTypeChange::RiskyCast
            } else {
                ColumnTypeChange::SafeCast
            },
            None => ColumnTypeChange::RiskyCast,
        },
        (MsSqlType::BigInt, MsSqlType::VarBinary(param)) => match param {
            Some(MsSqlTypeParameter::Number(n)) => if n < 8 {
                ColumnTypeChange::RiskyCast
            } else {
                ColumnTypeChange::SafeCast
            },
            Some(MsSqlTypeParameter::Max) => ColumnTypeChange::SafeCast,
            None => ColumnTypeChange::RiskyCast,
        },
        (MsSqlType::BigInt, MsSqlType::Text) => ColumnTypeChange::NotCastable,
        (MsSqlType::BigInt, MsSqlType::NText) => ColumnTypeChange::NotCastable,
        (MsSqlType::BigInt, MsSqlType::Image) => ColumnTypeChange::NotCastable,
        (MsSqlType::BigInt, MsSqlType::Xml) => ColumnTypeChange::NotCastable,
        (MsSqlType::BigInt, MsSqlType::UniqueIdentifier) => ColumnTypeChange::NotCastable,
        (MsSqlType::BigInt, MsSqlType::Date) => ColumnTypeChange::NotCastable,
        (MsSqlType::BigInt, MsSqlType::Time) => ColumnTypeChange::NotCastable,
        (MsSqlType::BigInt, MsSqlType::DateTime2) => ColumnTypeChange::NotCastable,
        (MsSqlType::BigInt, MsSqlType::DateTimeOffset) => ColumnTypeChange::NotCastable,
        (MsSqlType::Decimal(_), MsSqlType::TinyInt) => ColumnTypeChange::RiskyCast,
        (MsSqlType::Decimal(_), MsSqlType::SmallInt) => ColumnTypeChange::RiskyCast,
        (MsSqlType::Decimal(_), MsSqlType::Int) => ColumnTypeChange::RiskyCast,
        (MsSqlType::Decimal(_), MsSqlType::BigInt) => ColumnTypeChange::RiskyCast,
        (MsSqlType::Decimal(_), MsSqlType::Numeric(_)) => ColumnTypeChange::SafeCast,
        (MsSqlType::Decimal(_), MsSqlType::Money) => ColumnTypeChange::RiskyCast,
        (MsSqlType::Decimal(_), MsSqlType::SmallMoney) => ColumnTypeChange::RiskyCast,
        (MsSqlType::Decimal(_), MsSqlType::Bit) => ColumnTypeChange::RiskyCast,
        (MsSqlType::Decimal(_), MsSqlType::Float(_)) => ColumnTypeChange::RiskyCast,
        (MsSqlType::Decimal(_), MsSqlType::Real) => ColumnTypeChange::RiskyCast,
        (MsSqlType::Decimal(_), MsSqlType::Date) => ColumnTypeChange::NotCastable,
        (MsSqlType::Decimal(_), MsSqlType::Time) => ColumnTypeChange::NotCastable,
        (MsSqlType::Decimal(_), MsSqlType::DateTime) => ColumnTypeChange::RiskyCast,
        (MsSqlType::Decimal(_), MsSqlType::SmallDateTime) => ColumnTypeChange::RiskyCast,
        (MsSqlType::Decimal(_), MsSqlType::Text) => ColumnTypeChange::NotCastable,
        (MsSqlType::Decimal(_), MsSqlType::NText) => ColumnTypeChange::NotCastable,
        (MsSqlType::Decimal(_), MsSqlType::Image) => ColumnTypeChange::NotCastable,
        (MsSqlType::Decimal(_), MsSqlType::Xml) => ColumnTypeChange::NotCastable,
        (MsSqlType::Decimal(_), MsSqlType::UniqueIdentifier) => ColumnTypeChange::NotCastable,
        (MsSqlType::Decimal(_), MsSqlType::Binary(_)) => ColumnTypeChange::RiskyCast,
        (MsSqlType::Decimal(_), MsSqlType::VarBinary(_)) => ColumnTypeChange::RiskyCast,
        (MsSqlType::Text, MsSqlType::VarChar(Some(MsSqlTypeParameter::Max))) => ColumnTypeChange::SafeCast,
        (MsSqlType::Text, MsSqlType::NVarChar(Some(MsSqlTypeParameter::Max))) => ColumnTypeChange::SafeCast,
        (MsSqlType::NText, MsSqlType::NVarChar(Some(MsSqlTypeParameter::Max))) => ColumnTypeChange::SafeCast,
        (MsSqlType::NText, MsSqlType::VarChar(Some(MsSqlTypeParameter::Max))) => ColumnTypeChange::RiskyCast,
        (_, MsSqlType::Char(_)) => ColumnTypeChange::SafeCast,
        (_, MsSqlType::NChar(_)) => ColumnTypeChange::SafeCast,
        (_, MsSqlType::VarChar(_)) => ColumnTypeChange::SafeCast,
        (_, MsSqlType::NVarChar(_)) => ColumnTypeChange::SafeCast,
        (_, _) => spec_family_change(prev_family, next_family),
    }
}

/// Classify a native type change: the matrix for distinct native types,
/// a safe cast for identical ones, and the family table where a native
/// type is missing on either side.
pub fn native_type_change_riskyness(
    prev: Option<MsSqlType>,
    next: Option<MsSqlType>,
    prev_family: &ColumnTypeFamily,
    next_family: &ColumnTypeFamily,
) -> (r: ColumnTypeChange)
    ensures
        r == spec_native_change(prev, next, *prev_family, *next_family),
{
    match (prev, next) {
        (None, _) => type_change_riskyness(prev_family, next_family),
        (_, None) => type_change_riskyness(prev_family, next_family),
        (Some(left), Some(right)) => {
            if left == right {
                ColumnTypeChange::SafeCast
            } else {
                native_pair_change(left, right, prev_family, next_family)
            }
        },
    }
}

/// One matrix lookup for two distinct native types.
#[verifier::rlimit(60)]
fn native_pair_change(
    left: MsSqlType,
    right: MsSqlType,
    prev_family: &ColumnTypeFamily,
    next_family: &ColumnTypeFamily,
) -> (r: ColumnTypeChange)
    ensures
        r == spec_native_pair_change(left, right, *prev_family, *next_family),
{
    match (left, right) {
        (MsSqlType::Bit, MsSqlType::TinyInt) => ColumnTypeChange::SafeCast,
        (MsSqlType::Bit, MsSqlType::SmallInt) => ColumnTypeChange::SafeCast,
        (MsSqlType::Bit, MsSqlType::Int) => ColumnTypeChange::SafeCast,
        (MsSqlType::Bit, MsSqlType::BigInt) => ColumnTypeChange::SafeCast,
        (MsSqlType::Bit, MsSqlType::Decimal(_)) => ColumnTypeChange::SafeCast,
        (MsSqlType::Bit, MsSqlType::Numeric(_)) => ColumnTypeChange::SafeCast,
        (MsSqlType::Bit, MsSqlType::Money) => ColumnTypeChange::SafeCast,
        (MsSqlType::Bit, MsSqlType::SmallMoney) => ColumnTypeChange::SafeCast,
        (MsSqlType::Bit, MsSqlType::Float(_)) => ColumnTypeChange::SafeCast,
        (MsSqlType::Bit, MsSqlType::Real) => ColumnTypeChange::SafeCast,
        (MsSqlType::Bit, MsSqlType::DateTime) => ColumnTypeChange::SafeCast,
        (MsSqlType::Bit, MsSqlType::SmallDateTime) => ColumnTypeChange::SafeCast,
        (MsSqlType::Bit, MsSqlType::Binary(_)) => ColumnTypeChange::SafeCast,
        (MsSqlType::Bit, MsSqlType::VarBinary(_)) => ColumnTypeChange::SafeCast,
        (MsSqlType::Bit, MsSqlType::Text) => ColumnTypeChange::NotCastable,
        (MsSqlType::Bit, MsSqlType::NText) => ColumnTypeChange::NotCastable,
        (MsSqlType::Bit, MsSqlType::Image) => ColumnTypeChange::NotCastable,
        (MsSqlType::Bit, MsSqlType::Xml) => ColumnTypeChange::NotCastable,
        (MsSqlType::Bit, MsSqlType::UniqueIdentifier) => ColumnTypeChange::NotCastable,
        (MsSqlType::Bit, MsSqlType::Date) => ColumnTypeChange::NotCastable,
        (MsSqlType::Bit, MsSqlType::Time) => ColumnTypeChange::NotCastable,
        (MsSqlType::Bit, MsSqlType::DateTime2) => ColumnTypeChange::NotCastable,
        (MsSqlType::Bit, MsSqlType::DateTimeOffset) => ColumnTypeChange::NotCastable,
        (MsSqlType::TinyInt, MsSqlType::SmallInt) => ColumnTypeChange::SafeCast,
        (MsSqlType::TinyInt, MsSqlType::Int) => ColumnTypeChange::SafeCast,
        (MsSqlType::TinyInt, MsSqlType::BigInt) => ColumnTypeChange::SafeCast,
        (MsSqlType::TinyInt, MsSqlType::Decimal(_)) => ColumnTypeChange::SafeCast,
        (MsSqlType::TinyInt, MsSqlType::Numeric(_)) => ColumnTypeChange::SafeCast,
        (MsSqlType::TinyInt, MsSqlType::Money) => ColumnTypeChange::SafeCast,
        (MsSqlType::TinyInt, MsSqlType::SmallMoney) => ColumnTypeChange::SafeCast,
        (MsSqlType::TinyInt, MsSqlType::Float(_)) => ColumnTypeChange::SafeCast,
        (MsSqlType::TinyInt, MsSqlType::Real) => ColumnTypeChange::SafeCast,
        (MsSqlType::TinyInt, MsSqlType::DateTime) => ColumnTypeChange::SafeCast,
        (MsSqlType::TinyInt, MsSqlType::SmallDateTime) => ColumnTypeChange::SafeCast,
        (MsSqlType::TinyInt, MsSqlType::Binary(_)) => ColumnTypeChange::SafeCast,
        (MsSqlType::TinyInt, MsSqlType::VarBinary(_)) => ColumnTypeChange::SafeCast,
        (MsSqlType::TinyInt, MsSqlType::Text) => ColumnTypeChange::NotCastable,
        (MsSqlType::TinyInt, MsSqlType::NText) => ColumnTypeChange::NotCastable,
        (MsSqlType::TinyInt, MsSqlType::Image) => ColumnTypeChange::NotCastable,
        (MsSqlType::TinyInt, MsSqlType::Xml) => ColumnTypeChange::NotCastable,
        (MsSqlType::TinyInt, MsSqlType::UniqueIdentifier) => ColumnTypeChange::NotCastable,
        (MsSqlType::TinyInt, MsSqlType::Date) => ColumnTypeChange::NotCastable,
        (MsSqlType::TinyInt, MsSqlType::Time) => ColumnTypeChange::NotCastable,
        (MsSqlType::TinyInt, MsSqlType::DateTime2) => ColumnTypeChange::NotCastable,
        (MsSqlType::TinyInt, MsSqlType::DateTimeOffset) => ColumnTypeChange::NotCastable,
        (MsSqlType::SmallInt, MsSqlType::Int) => ColumnTypeChange::SafeCast,
        (MsSqlType::SmallInt, MsSqlType::BigInt) => ColumnTypeChange::SafeCast,
        (MsSqlType::SmallInt, MsSqlType::Decimal(params)) => match params {
            Some(ps) => {
                if (ps.precision as u64) < (ps.scale as u64) + 5 {
                    ColumnTypeChange::RiskyCast
                } else {
                    ColumnTypeChange::SafeCast
                }
            },
            None => ColumnTypeChange::SafeCast,
        },
        (MsSqlType::SmallInt, MsSqlType::Numeric(params)) => match params {
            Some(ps) => {
                if (ps.precision as u64) < (ps.scale as u64) + 5 {
                    ColumnTypeChange::RiskyCast
                } else {
                    ColumnTypeChange::SafeCast
                }
            },
            None => ColumnTypeChange::SafeCast,
        },
        (MsSqlType::SmallInt, MsSqlType::Money) => ColumnTypeChange::SafeCast,
        (MsSqlType::SmallInt, MsSqlType::SmallMoney) => ColumnTypeChange::SafeCast,
        (MsSqlType::SmallInt, MsSqlType::Float(_)) => ColumnTypeChange::SafeCast,
        (MsSqlType::SmallInt, MsSqlType::Real) => ColumnTypeChange::SafeCast,
        (MsSqlType::SmallInt, MsSqlType::DateTime) => ColumnTypeChange::SafeCast,
        (MsSqlType::SmallInt, MsSqlType::SmallDateTime) => ColumnTypeChange::RiskyCast,
        (MsSqlType::SmallInt, MsSqlType::Binary(param)) => match param {
            Some(n) => {
                if n < 2 {
                    ColumnTypeChange::RiskyCast
                } else {
                    ColumnTypeChange::SafeCast
                }
            },
            None => ColumnTypeChange::RiskyCast,
        },
        (MsSqlType::SmallInt, MsSqlType::VarBinary(param)) => match param {
            Some(MsSqlTypeParameter::Number(n)) => {
                if n < 2 {
                    ColumnTypeChange::RiskyCast
                } else {
                    ColumnTypeChange::SafeCast
                }
            },
            Some(MsSqlTypeParameter::Max) => ColumnTypeChange::SafeCast,
            None => ColumnTypeChange::RiskyCast,
        },
        (MsSqlType::SmallInt, MsSqlType::Text) => ColumnTypeChange::NotCastable,
        (MsSqlType::SmallInt, MsSqlType::NText) => ColumnTypeChange::NotCastable,
        (MsSqlType::SmallInt, MsSqlType::Image) => ColumnTypeChange::NotCastable,
        (MsSqlType::SmallInt, MsSqlType::Xml) => ColumnTypeChange::NotCastable,
        (MsSqlType::SmallInt, MsSqlType::UniqueIdentifier) => ColumnTypeChange::NotCastable,
        (MsSqlType::SmallInt, MsSqlType::Date) => ColumnTypeChange::NotCastable,
        (MsSqlType::SmallInt, MsSqlType::Time) => ColumnTypeChange::NotCastable,
        (MsSqlType::SmallInt, MsSqlType::DateTime2) => ColumnTypeChange::NotCastable,
        (MsSqlType::SmallInt, MsSqlType::DateTimeOffset) => ColumnTypeChange::NotCastable,
        (MsSqlType::Int, MsSqlType::BigInt) => ColumnTypeChange::SafeCast,
        (MsSqlType::Int, MsSqlType::Decimal(params)) => match params {
            Some(ps) => {
                if (ps.precision as u64) < (ps.scale as u64) + 10 {
                    ColumnTypeChange::RiskyCast
                } else {
                    ColumnTypeChange::SafeCast
                }
            },
            None => ColumnTypeChange::SafeCast,
        },
        (MsSqlType::Int, MsSqlType::Numeric(params)) => match params {
            Some(ps) => {
                if (ps.precision as u64) < (ps.scale as u64) + 10 {
                    ColumnTypeChange::RiskyCast
                } else {
                    ColumnTypeChange::SafeCast
                }
            },
            None => ColumnTypeChange::SafeCast,
        },
        (MsSqlType::Int, MsSqlType::Money) => ColumnTypeChange::SafeCast,
        (MsSqlType::Int, MsSqlType::SmallMoney) => ColumnTypeChange::SafeCast,
        (MsSqlType::Int, MsSqlType::Float(_)) => ColumnTypeChange::SafeCast,
        (MsSqlType::Int, MsSqlType::Real) => ColumnTypeChange::SafeCast,
        (MsSqlType::Int, MsSqlType::DateTime) => ColumnTypeChange::SafeCast,
        (MsSqlType::Int, MsSqlType::SmallDateTime) => ColumnTypeChange::RiskyCast,
        (MsSqlType::Int, MsSqlType::Binary(param)) => match param {
            Some(n) => {
                if n < 4 {
                    ColumnTypeChange::RiskyCast
                } else {
                    ColumnTypeChange::SafeCast
                }
            },
            None => ColumnTypeChange::RiskyCast,
        },
        (MsSqlType::Int, MsSqlType::VarBinary(param)) => match param {
            Some(MsSqlTypeParameter::Number(n)) => {
                if n < 4 {
                    ColumnTypeChange::RiskyCast
                } else {
                    ColumnTypeChange::SafeCast
                }
            },
            Some(MsSqlTypeParameter::Max) => ColumnTypeChange::SafeCast,
            None => ColumnTypeChange::RiskyCast,
        },
        (MsSqlType::Int, MsSqlType::Text) => ColumnTypeChange::NotCastable,
        (MsSqlType::Int, MsSqlType::NText) => ColumnTypeChange::NotCastable,
        (MsSqlType::Int, MsSqlType::Image) => ColumnTypeChange::NotCastable,
        (MsSqlType::Int, MsSqlType::Xml) => ColumnTypeChange::NotCastable,
        (MsSqlType::Int, MsSqlType::UniqueIdentifier) => ColumnTypeChange::NotCastable,
        (MsSqlType::Int, MsSqlType::Date) => ColumnTypeChange::NotCastable,
        (MsSqlType::Int, MsSqlType::Time) => ColumnTypeChange::NotCastable,
        (MsSqlType::Int, MsSqlType::DateTime2) => ColumnTypeChange::NotCastable,
        (MsSqlType::Int, MsSqlType::DateTimeOffset) => ColumnTypeChange::NotCastable,
        (MsSqlType::BigInt, MsSqlType::Decimal(params)) => match params {
            Some(ps) => {
                if (ps.precision as u64) < (ps.scale as u64) + 19 {
                    ColumnTypeChange::RiskyCast
                } else {
                    ColumnTypeChange::SafeCast
                }
            },
            None => ColumnTypeChange::RiskyCast,
        },
        (MsSqlType::BigInt, MsSqlType::Numeric(params)) => match params {
            Some(ps) => {
                if (ps.precision as u64) < (ps.scale as u64) + 19 {
                    ColumnTypeChange::RiskyCast
                } else {
                    ColumnTypeChange::SafeCast
                }
            },
            None => ColumnTypeChange::RiskyCast,
        },
        (MsSqlType::BigInt, MsSqlType::Money) => ColumnTypeChange::RiskyCast,
        (MsSqlType::BigInt, MsSqlType::SmallMoney) => ColumnTypeChange::RiskyCast,
        (MsSqlType::BigInt, MsSqlType::Float(_)) => ColumnTypeChange::RiskyCast,
        (MsSqlType::BigInt, MsSqlType::Real) => ColumnTypeChange::RiskyCast,
        (MsSqlType::BigInt, MsSqlType::DateTime) => ColumnTypeChange::RiskyCast,
        (MsSqlType::BigInt, MsSqlType::SmallDateTime) => ColumnTypeChange::RiskyCast,
        (MsSqlType::BigInt, MsSqlType::Binary(param)) => match param {
            Some(n) => {
                if n < 8 {
                    ColumnTypeChange::RiskyCast
                } else {
                    ColumnTypeChange::SafeCast
                }
            },
            None => ColumnTypeChange::RiskyCast,
        },
        (MsSqlType::BigInt, MsSqlType::VarBinary(param)) => match param {
            Some(MsSqlTypeParameter::Number(n)) => {
                if n < 8 {
                    ColumnTypeChange::RiskyCast
                } else {
                    ColumnTypeChange::SafeCast
                }
            },
            Some(MsSqlTypeParameter::Max) => ColumnTypeChange::SafeCast,
            None => ColumnTypeChange::RiskyCast,
        },
        (MsSqlType::BigInt, MsSqlType::Text) => ColumnTypeChange::NotCastable,
        (MsSqlType::BigInt, MsSqlType::NText) => ColumnTypeChange::NotCastable,
        (MsSqlType::BigInt, MsSqlType::Image) => ColumnTypeChange::NotCastable,
        (MsSqlType::BigInt, MsSqlType::Xml) => ColumnTypeChange::NotCastable,
        (MsSqlType::BigInt, MsSqlType::UniqueIdentifier) => ColumnTypeChange::NotCastable,
        (MsSqlType::BigInt, MsSqlType::Date) => ColumnTypeChange::NotCastable,
        (MsSqlType::BigInt, MsSqlType::Time) => ColumnTypeChange::NotCastable,
        (MsSqlType::BigInt, MsSqlType::DateTime2) => ColumnTypeChange::NotCastable,
        (MsSqlType::BigInt, MsSqlType::DateTimeOffset) => ColumnTypeChange::NotCastable,
        (MsSqlType::Decimal(_), MsSqlType::TinyInt) => ColumnTypeChange::RiskyCast,
        (MsSqlType::Decimal(_), MsSqlType::SmallInt) => ColumnTypeChange::RiskyCast,
        (MsSqlType::Decimal(_), MsSqlType::Int) => ColumnTypeChange::RiskyCast,
        (MsSqlType::Decimal(_), MsSqlType::BigInt) => ColumnTypeChange::RiskyCast,
        (MsSqlType::Decimal(_), MsSqlType::Numeric(_)) => ColumnTypeChange::SafeCast,
        (MsSqlType::Decimal(_), MsSqlType::Money) => ColumnTypeChange::RiskyCast,
        (MsSqlType::Decimal(_), MsSqlType::SmallMoney) => ColumnTypeChange::RiskyCast,
        (MsSqlType::Decimal(_), MsSqlType::Bit) => ColumnTypeChange::RiskyCast,
        (MsSqlType::Decimal(_), MsSqlType::Float(_)) => ColumnTypeChange::RiskyCast,
        (MsSqlType::Decimal(_), MsSqlType::Real) => ColumnTypeChange::RiskyCast,
        (MsSqlType::Decimal(_), MsSqlType::Date) => ColumnTypeChange::NotCastable,
        (MsSqlType::Decimal(_), MsSqlType::Time) => ColumnTypeChange::NotCastable,
        (MsSqlType::Decimal(_), MsSqlType::DateTime) => ColumnTypeChange::RiskyCast,
        (MsSqlType::Decimal(_), MsSqlType::SmallDateTime) => ColumnTypeChange::RiskyCast,
        (MsSqlType::Decimal(_), MsSqlType::Text) => ColumnTypeChange::NotCastable,
        (MsSqlType::Decimal(_), MsSqlType::NText) => ColumnTypeChange::NotCastable,
        (MsSqlType::Decimal(_), MsSqlType::Image) => ColumnTypeChange::NotCastable,
        (MsSqlType::Decimal(_), MsSqlType::Xml) => ColumnTypeChange::NotCastable,
        (MsSqlType::Decimal(_), MsSqlType::UniqueIdentifier) => ColumnTypeChange::NotCastable,
        (MsSqlType::Decimal(_), MsSqlType::Binary(_)) => ColumnTypeChange::RiskyCast,
        (MsSqlType::Decimal(_), MsSqlType::VarBinary(_)) => ColumnTypeChange::RiskyCast,
        (MsSqlType::Text, MsSqlType::VarChar(Some(MsSqlTypeParameter::Max))) => ColumnTypeChange::SafeCast,
        (MsSqlType::Text, MsSqlType::NVarChar(Some(MsSqlTypeParameter::Max))) => ColumnTypeChange::SafeCast,
        (MsSqlType::NText, MsSqlType::NVarChar(Some(MsSqlTypeParameter::Max))) => ColumnTypeChange::SafeCast,
        (MsSqlType::NText, MsSqlType::VarChar(Some(MsSqlTypeParameter::Max))) => ColumnTypeChange::RiskyCast,
        (_, MsSqlType::Char(_)) => ColumnTypeChange::SafeCast,
        (_, MsSqlType::NChar(_)) => ColumnTypeChange::SafeCast,
        (_, MsSqlType::VarChar(_)) => ColumnTypeChange::SafeCast,
        (_, MsSqlType::NVarChar(_)) => ColumnTypeChange::SafeCast,
        (_, _) => type_change_riskyness(prev_family, next_family),
    }
}

} // verus!
