//! Dates and timestamps with the two infinite values of PostgreSQL.
//!
//! The binary format keeps the largest and the smallest integer of a date
//! or a timestamp for `infinity` and `-infinity`. [`Date`] and [`Timestamp`]
//! add these two values to a type that holds the finite ones: they read and
//! write the two integers themselves and leave every other one to that type.

use vstd::prelude::*;
use crate::types::{Error, FromSql, IsNull, SessionInfo, ToSql, Type};
use crate::wire::{
    date_from_sql, date_from_sql_error, date_to_sql, i32_from_be, i32_to_be, i64_from_be,
    i64_to_be, lemma_i32_extremes_to_be, lemma_i32_from_be_fits, lemma_i32_from_be_to_be,
    lemma_i32_to_be_from_be, lemma_i64_extremes_to_be, lemma_i64_from_be_fits,
    lemma_i64_from_be_to_be, lemma_i64_to_be_from_be, timestamp_from_sql,
    timestamp_from_sql_error, timestamp_to_sql,
};

verus! {

/// A date that may be infinite: a wrapper for a type that holds the dates of
/// a `DATE` column.
///
/// On the wire a date is a four-byte signed integer. The largest stands for
/// `infinity` and the smallest for `-infinity`; every other integer is left
/// to `T`. A `T` that gives one of the two a meaning of its own cannot be
/// read back through the wrapper.
#[derive(Debug, Clone, Copy, PartialEq)]
pub enum Date<T> {
    /// `infinity`, a date that is later than all other dates.
    PosInfinity,
    /// `-infinity`, a date that is earlier than all other dates.
    NegInfinity,
    /// The wrapped date.
    Value(T),
}

/// What reading gives where the wire integer is no extreme: the value that
/// `T` read, wrapped, or the failure of `T`, unchanged.
pub open spec fn date_of_inner<T>(inner: Result<T, Error>) -> Result<Date<T>, Error> {
    match inner {
        Ok(v) => Ok(Date::Value(v)),
        Err(e) => Err(e),
    }
}

impl<T: FromSql> FromSql for Date<T> {
    /// Bytes that are not one wire integer are refused. The largest integer
    /// is `infinity` and the smallest `-infinity`. All else goes to `T`, with
    /// the same column type, bytes and session.
    open spec fn decoded(ty: Type, raw: Seq<u8>, ctx: SessionInfo) -> Result<Self, Error> {
        if raw.len() != 4 {
            Err(date_from_sql_error(raw))
        } else if i32_from_be(raw) == i32::MAX {
            Ok(Date::PosInfinity)
        } else if i32_from_be(raw) == i32::MIN {
            Ok(Date::NegInfinity)
        } else {
            date_of_inner(T::decoded(ty, raw, ctx))
        }
    }

    /// The column type `DATE`, where `T` reads it.
    open spec fn accepted(ty: Type) -> bool {
        ty == Type::Date && T::accepted(ty)
    }

    fn from_sql(ty: &Type, raw: &[u8], ctx: &SessionInfo) -> (r: Result<Self, Error>)
        ensures
            r == Self::decoded(*ty, raw@, *ctx),
    {
        proof {
            if raw@.len() == 4 {
                lemma_i32_from_be_fits(raw@);
            }
        }
        let value: i32 = match date_from_sql(raw) {
            Ok(value) => value,
            Err(e) => {
                return Err(e);
            },
        };
        if value == i32::MAX {
            Ok(Date::PosInfinity)
        } else if value == i32::MIN {
            Ok(Date::NegInfinity)
        } else {
            match T::from_sql(ty, raw, ctx) {
                Ok(v) => Ok(Date::Value(v)),
                Err(e) => Err(e),
            }
        }
    }

    fn accepts(ty: &Type) -> (b: bool)
        ensures
            b == Self::accepted(*ty),
    {
        *ty == Type::Date && T::accepts(ty)
    }
}

impl<T: ToSql> ToSql for Date<T> {
    /// An infinity is written as its wire integer and is not `NULL`; the
    /// column type and the session play no part. A wrapped value is written
    /// as `T` writes it.
    open spec fn encoded(&self, ty: Type, ctx: SessionInfo) -> Result<(IsNull, Seq<u8>), Error> {
        match *self {
            Date::PosInfinity => Ok((IsNull::No, i32_to_be(i32::MAX))),
            Date::NegInfinity => Ok((IsNull::No, i32_to_be(i32::MIN))),
            Date::Value(v) => v.encoded(ty, ctx),
        }
    }

    /// The column type `DATE`, where `T` writes it.
    open spec fn accepted(ty: Type) -> bool {
        ty == Type::Date && T::accepted(ty)
    }

    fn to_sql(&self, ty: &Type, out: &mut Vec<u8>, ctx: &SessionInfo) -> (r: Result<IsNull, Error>)
        ensures
            old(out)@.is_prefix_of(final(out)@),
            r == (match self.encoded(*ty, *ctx) {
                Ok((is_null, _)) => Ok(is_null),
                Err(e) => Err(e),
            }),
            self.encoded(*ty, *ctx) matches Ok((_, bytes)) ==> final(out)@ == old(out)@ + bytes,
    {
        let value: i32 = match self {
            Date::PosInfinity => i32::MAX,
            Date::NegInfinity => i32::MIN,
            Date::Value(v) => {
                return v.to_sql(ty, out, ctx);
            },
        };
        date_to_sql(value, out);
        Ok(IsNull::No)
    }

    fn accepts(ty: &Type) -> (b: bool)
        ensures
            b == Self::accepted(*ty),
    {
        *ty == Type::Date && T::accepts(ty)
    }
}

/// Writing an infinity and reading what was written gives the infinity
/// back, whatever `T` is and whatever the column types and the sessions of
/// the two conversions are. An infinity is never `NULL`.
pub proof fn lemma_date_infinity_round_trip<T: FromSql + ToSql>(
    d: Date<T>,
    written_as: Type,
    written_in: SessionInfo,
    read_as: Type,
    read_in: SessionInfo,
)
    requires
        d is PosInfinity || d is NegInfinity,
    ensures
        ({
            &&& d.encoded(written_as, written_in) matches Ok((is_null, bytes))
            &&& is_null == IsNull::No
            &&& bytes.len() == 4
            &&& Date::<T>::decoded(read_as, bytes, read_in) matches Ok(back)
            &&& back == d
        }),
{
    lemma_i32_to_be_from_be(i32::MAX);
    lemma_i32_to_be_from_be(i32::MIN);
}

/// A wrapped value is written as `T` writes it. Where `T` reads `v` back
/// from what it wrote for `v`, the wrapper reads `Value(v)` back from it,
/// provided that `T` wrote one wire integer, and not the largest nor the
/// smallest: those two are read as the infinities.
pub proof fn lemma_date_value_round_trip<T: FromSql + ToSql>(v: T, ty: Type, ctx: SessionInfo)
    requires
        ({
            &&& v.encoded(ty, ctx) matches Ok((_, bytes))
            &&& T::decoded(ty, bytes, ctx) matches Ok(back)
            &&& back == v
            &&& bytes.len() == 4
            &&& i32::MIN < i32_from_be(bytes) < i32::MAX
        }),
    ensures
        Date::Value(v).encoded(ty, ctx) == v.encoded(ty, ctx),
        ({
            &&& Date::Value(v).encoded(ty, ctx) matches Ok((_, bytes))
            &&& Date::<T>::decoded(ty, bytes, ctx) matches Ok(back)
            &&& back == Date::Value(v)
        }),
{
}

/// The bytes of the largest wire integer are read as `infinity` and those
/// of the smallest as `-infinity`, whatever `T` is and whatever the column
/// type and the session are.
pub proof fn lemma_date_extremes_are_infinite<T: FromSql>(ty: Type, ctx: SessionInfo)
    ensures
        Date::<T>::decoded(ty, i32_to_be(i32::MAX), ctx) matches Ok(Date::PosInfinity),
        Date::<T>::decoded(ty, i32_to_be(i32::MIN), ctx) matches Ok(Date::NegInfinity),
        Date::<T>::decoded(ty, seq![0x7fu8, 0xff, 0xff, 0xff], ctx) matches Ok(Date::PosInfinity),
        Date::<T>::decoded(ty, seq![0x80u8, 0, 0, 0], ctx) matches Ok(Date::NegInfinity),
{
    lemma_i32_to_be_from_be(i32::MAX);
    lemma_i32_to_be_from_be(i32::MIN);
    lemma_i32_extremes_to_be();
}

/// Four bytes whose integer lies strictly between the extremes are never
/// read as an infinity: the result is what `T` reads from the same column
/// type, bytes and session, its value wrapped and its failure unchanged.
pub proof fn lemma_date_between_is_inner<T: FromSql>(ty: Type, raw: Seq<u8>, ctx: SessionInfo)
    requires
        raw.len() == 4,
        i32::MIN < i32_from_be(raw) < i32::MAX,
    ensures
        Date::<T>::decoded(ty, raw, ctx) == date_of_inner(T::decoded(ty, raw, ctx)),
        !(Date::<T>::decoded(ty, raw, ctx) matches Ok(Date::PosInfinity)),
        !(Date::<T>::decoded(ty, raw, ctx) matches Ok(Date::NegInfinity)),
{
}

/// No other bytes are read as an infinity: what is read as `infinity` is
/// the bytes of the largest wire integer, and what is read as `-infinity`
/// is those of the smallest.
pub proof fn lemma_date_infinite_only_at_extremes<T: FromSql>(
    ty: Type,
    raw: Seq<u8>,
    ctx: SessionInfo,
)
    ensures
        Date::<T>::decoded(ty, raw, ctx) matches Ok(Date::PosInfinity) ==> raw == i32_to_be(i32::MAX),
        Date::<T>::decoded(ty, raw, ctx) matches Ok(Date::NegInfinity) ==> raw == i32_to_be(i32::MIN),
{
    if raw.len() == 4 {
        lemma_i32_from_be_to_be(raw);
    }
}

/// The wrapper reads the column type `DATE`, and only where `T` reads
/// it too. Every other column type is refused, also where `T` would read it.
pub proof fn lemma_date_reads_only_dates<T: FromSql>(ty: Type)
    ensures
        ty != Type::Date ==> !<Date<T> as FromSql>::accepted(ty),
        !<T as FromSql>::accepted(ty) ==> !<Date<T> as FromSql>::accepted(ty),
        ty == Type::Date && <T as FromSql>::accepted(ty) ==> <Date<T> as FromSql>::accepted(ty),
{
}

/// The wrapper writes the column type `DATE`, and only where `T` writes
/// it too. Every other column type is refused, also where `T` would write it.
pub proof fn lemma_date_writes_only_dates<T: ToSql>(ty: Type)
    ensures
        ty != Type::Date ==> !<Date<T> as ToSql>::accepted(ty),
        !<T as ToSql>::accepted(ty) ==> !<Date<T> as ToSql>::accepted(ty),
        ty == Type::Date && <T as ToSql>::accepted(ty) ==> <Date<T> as ToSql>::accepted(ty),
{
}

/// A timestamp that may be infinite: a wrapper for a type that holds the
/// timestamps of a `TIMESTAMP` or `TIMESTAMPTZ` column.
///
/// On the wire a timestamp is an eight-byte signed integer. The largest
/// stands for `infinity` and the smallest for `-infinity`; every other
/// integer is left to `T`. A `T` that gives one of the two a meaning of its
/// own cannot be read back through the wrapper.
#[derive(Debug, Clone, Copy, PartialEq)]
pub enum Timestamp<T> {
    /// `infinity`, a timestamp that is later than all other timestamps.
    PosInfinity,
    /// `-infinity`, a timestamp that is earlier than all other timestamps.
    NegInfinity,
    /// The wrapped timestamp.
    Value(T),
}

/// What reading gives where the wire integer is no extreme: the value that
/// `T` read, wrapped, or the failure of `T`, unchanged.
pub open spec fn timestamp_of_inner<T>(inner: Result<T, Error>) -> Result<Timestamp<T>, Error> {
    match inner {
        Ok(v) => Ok(Timestamp::Value(v)),
        Err(e) => Err(e),
    }
}

impl<T: FromSql> FromSql for Timestamp<T> {
    /// Bytes that are not one wire integer are refused. The largest integer
    /// is `infinity` and the smallest `-infinity`. All else goes to `T`, with
    /// the same column type, bytes and session.
    open spec fn decoded(ty: Type, raw: Seq<u8>, ctx: SessionInfo) -> Result<Self, Error> {
        if raw.len() != 8 {
            Err(timestamp_from_sql_error(raw))
        } else if i64_from_be(raw) == i64::MAX {
            Ok(Timestamp::PosInfinity)
        } else if i64_from_be(raw) == i64::MIN {
            Ok(Timestamp::NegInfinity)
        } else {
            timestamp_of_inner(T::decoded(ty, raw, ctx))
        }
    }

    /// The column types `TIMESTAMP` and `TIMESTAMPTZ`, each where `T` reads it.
    open spec fn accepted(ty: Type) -> bool {
        (ty == Type::Timestamp || ty == Type::Timestamptz) && T::accepted(ty)
    }

    fn from_sql(ty: &Type, raw: &[u8], ctx: &SessionInfo) -> (r: Result<Self, Error>)
        ensures
            r == Self::decoded(*ty, raw@, *ctx),
    {
        proof {
            if raw@.len() == 8 {
                lemma_i64_from_be_fits(raw@);
            }
        }
        let value: i64 = match timestamp_from_sql(raw) {
            Ok(value) => value,
            Err(e) => {
                return Err(e);
            },
        };
        if value == i64::MAX {
            Ok(Timestamp::PosInfinity)
        } else if value == i64::MIN {
            Ok(Timestamp::NegInfinity)
        } else {
            match T::from_sql(ty, raw, ctx) {
                Ok(v) => Ok(Timestamp::Value(v)),
                Err(e) => Err(e),
            }
        }
    }

    fn accepts(ty: &Type) -> (b: bool)
        ensures
            b == Self::accepted(*ty),
    {
        (*ty == Type::Timestamp || *ty == Type::Timestamptz) && T::accepts(ty)
    }
}

impl<T: ToSql> ToSql for Timestamp<T> {
    /// An infinity is written as its wire integer and is not `NULL`; the
    /// column type and the session play no part. A wrapped value is written
    /// as `T` writes it.
    open spec fn encoded(&self, ty: Type, ctx: SessionInfo) -> Result<(IsNull, Seq<u8>), Error> {
        match *self {
            Timestamp::PosInfinity => Ok((IsNull::No, i64_to_be(i64::MAX))),
            Timestamp::NegInfinity => Ok((IsNull::No, i64_to_be(i64::MIN))),
            Timestamp::Value(v) => v.encoded(ty, ctx),
        }
    }

    /// The column types `TIMESTAMP` and `TIMESTAMPTZ`, each where `T` writes it.
    open spec fn accepted(ty: Type) -> bool {
        (ty == Type::Timestamp || ty == Type::Timestamptz) && T::accepted(ty)
    }

    fn to_sql(&self, ty: &Type, out: &mut Vec<u8>, ctx: &SessionInfo) -> (r: Result<IsNull, Error>)
        ensures
            old(out)@.is_prefix_of(final(out)@),
            r == (match self.encoded(*ty, *ctx) {
                Ok((is_null, _)) => Ok(is_null),
                Err(e) => Err(e),
            }),
            self.encoded(*ty, *ctx) matches Ok((_, bytes)) ==> final(out)@ == old(out)@ + bytes,
    {
        let value: i64 = match self {
            Timestamp::PosInfinity => i64::MAX,
            Timestamp::NegInfinity => i64::MIN,
            Timestamp::Value(v) => {
                return v.to_sql(ty, out, ctx);
            },
        };
        timestamp_to_sql(value, out);
        Ok(IsNull::No)
    }

    fn accepts(ty: &Type) -> (b: bool)
        ensures
            b == Self::accepted(*ty),
    {
        (*ty == Type::Timestamp || *ty == Type::Timestamptz) && T::accepts(ty)
    }
}

/// Writing an infinity and reading what was written gives the infinity
/// back, whatever `T` is and whatever the column types and the sessions of
/// the two conversions are. An infinity is never `NULL`.
pub proof fn lemma_timestamp_infinity_round_trip<T: FromSql + ToSql>(
    d: Timestamp<T>,
    written_as: Type,
    written_in: SessionInfo,
    read_as: Type,
    read_in: SessionInfo,
)
    requires
        d is PosInfinity || d is NegInfinity,
    ensures
        ({
            &&& d.encoded(written_as, written_in) matches Ok((is_null, bytes))
            &&& is_null == IsNull::No
            &&& bytes.len() == 8
            &&& Timestamp::<T>::decoded(read_as, bytes, read_in) matches Ok(back)
            &&& back == d
        }),
{
    lemma_i64_to_be_from_be(i64::MAX);
    lemma_i64_to_be_from_be(i64::MIN);
}

/// A wrapped value is written as `T` writes it. Where `T` reads `v` back
/// from what it wrote for `v`, the wrapper reads `Value(v)` back from it,
/// provided that `T` wrote one wire integer, and not the largest nor the
/// smallest: those two are read as the infinities.
pub proof fn lemma_timestamp_value_round_trip<T: FromSql + ToSql>(v: T, ty: Type, ctx: SessionInfo)
    requires
        ({
            &&& v.encoded(ty, ctx) matches Ok((_, bytes))
            &&& T::decoded(ty, bytes, ctx) matches Ok(back)
            &&& back == v
            &&& bytes.len() == 8
            &&& i64::MIN < i64_from_be(bytes) < i64::MAX
        }),
    ensures
        Timestamp::Value(v).encoded(ty, ctx) == v.encoded(ty, ctx),
        ({
            &&& Timestamp::Value(v).encoded(ty, ctx) matches Ok((_, bytes))
            &&& Timestamp::<T>::decoded(ty, bytes, ctx) matches Ok(back)
            &&& back == Timestamp::Value(v)
        }),
{
}

/// The bytes of the largest wire integer are read as `infinity` and those
/// of the smallest as `-infinity`, whatever `T` is and whatever the column
/// type and the session are.
pub proof fn lemma_timestamp_extremes_are_infinite<T: FromSql>(ty: Type, ctx: SessionInfo)
    ensures
        Timestamp::<T>::decoded(ty, i64_to_be(i64::MAX), ctx) matches Ok(Timestamp::PosInfinity),
        Timestamp::<T>::decoded(ty, i64_to_be(i64::MIN), ctx) matches Ok(Timestamp::NegInfinity),
        Timestamp::<T>::decoded(ty, seq![0x7fu8, 0xff, 0xff, 0xff, 0xff, 0xff, 0xff, 0xff], ctx) matches Ok(Timestamp::PosInfinity),
        Timestamp::<T>::decoded(ty, seq![0x80u8, 0, 0, 0, 0, 0, 0, 0], ctx) matches Ok(Timestamp::NegInfinity),
{
    lemma_i64_to_be_from_be(i64::MAX);
    lemma_i64_to_be_from_be(i64::MIN);
    lemma_i64_extremes_to_be();
}

/// Eight bytes whose integer lies strictly between the extremes are never
/// read as an infinity: the result is what `T` reads from the same column
/// type, bytes and session, its value wrapped and its failure unchanged.
pub proof fn lemma_timestamp_between_is_inner<T: FromSql>(ty: Type, raw: Seq<u8>, ctx: SessionInfo)
    requires
        raw.len() == 8,
        i64::MIN < i64_from_be(raw) < i64::MAX,
    ensures
        Timestamp::<T>::decoded(ty, raw, ctx) == timestamp_of_inner(T::decoded(ty, raw, ctx)),
        !(Timestamp::<T>::decoded(ty, raw, ctx) matches Ok(Timestamp::PosInfinity)),
        !(Timestamp::<T>::decoded(ty, raw, ctx) matches Ok(Timestamp::NegInfinity)),
{
}

/// No other bytes are read as an infinity: what is read as `infinity` is
/// the bytes of the largest wire integer, and what is read as `-infinity`
/// is those of the smallest.
pub proof fn lemma_timestamp_infinite_only_at_extremes<T: FromSql>(
    ty: Type,
    raw: Seq<u8>,
    ctx: SessionInfo,
)
    ensures
        Timestamp::<T>::decoded(ty, raw, ctx) matches Ok(Timestamp::PosInfinity) ==> raw == i64_to_be(i64::MAX),
        Timestamp::<T>::decoded(ty, raw, ctx) matches Ok(Timestamp::NegInfinity) ==> raw == i64_to_be(i64::MIN),
{
    if raw.len() == 8 {
        lemma_i64_from_be_to_be(raw);
    }
}

/// The wrapper reads the column types `TIMESTAMP` and `TIMESTAMPTZ`, and only where `T` reads
/// it too. Every other column type is refused, also where `T` would read it.
pub proof fn lemma_timestamp_reads_only_timestamps<T: FromSql>(ty: Type)
    ensures
        !(ty == Type::Timestamp || ty == Type::Timestamptz) ==> !<Timestamp<T> as FromSql>::accepted(ty),
        !<T as FromSql>::accepted(ty) ==> !<Timestamp<T> as FromSql>::accepted(ty),
        (ty == Type::Timestamp || ty == Type::Timestamptz) && <T as FromSql>::accepted(ty) ==> <Timestamp<T> as FromSql>::accepted(ty),
{
}

/// The wrapper writes the column types `TIMESTAMP` and `TIMESTAMPTZ`, and only where `T` writes
/// it too. Every other column type is refused, also where `T` would write it.
pub proof fn lemma_timestamp_writes_only_timestamps<T: ToSql>(ty: Type)
    ensures
        !(ty == Type::Timestamp || ty == Type::Timestamptz) ==> !<Timestamp<T> as ToSql>::accepted(ty),
        !<T as ToSql>::accepted(ty) ==> !<Timestamp<T> as ToSql>::accepted(ty),
        (ty == Type::Timestamp || ty == Type::Timestamptz) && <T as ToSql>::accepted(ty) ==> <Timestamp<T> as ToSql>::accepted(ty),
{
}

} // verus!
