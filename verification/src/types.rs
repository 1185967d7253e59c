//! Column types, the session, and the two conversion traits.

use vstd::prelude::*;

pub mod special;

pub use special::{Date, Timestamp};

verus! {

/// The type of a column.
#[derive(Debug, Clone, Copy, PartialEq, Eq, Structural)]
pub enum Type {
    /// `DATE`: a calendar day.
    Date,
    /// `TIMESTAMP`: a point in time without a time zone.
    Timestamp,
    /// `TIMESTAMPTZ`: a point in time with a time zone.
    Timestamptz,
    /// Any other type, by its object identifier.
    Other(u32),
}

/// Whether a value that was written is SQL `NULL`.
#[derive(Debug, Clone, Copy, PartialEq, Eq, Structural)]
pub enum IsNull {
    /// The value is `NULL`.
    Yes,
    /// The value is not `NULL`.
    No,
}

/// The session in which a value is converted. The conversions of this crate
/// hand it on unread.
#[derive(Debug, Clone, Copy, PartialEq, Eq, Structural)]
pub struct SessionInfo {
    /// Tells one session from another.
    pub id: u64,
}

/// Why a conversion failed.
#[derive(Debug, Clone, PartialEq, Eq)]
pub struct Error {
    /// The reason, for a person to read.
    pub message: String,
}

/// A type that can be read from the binary format.
///
/// Reading is a function of the column type, the bytes and the session:
/// `decoded` is that function, and `from_sql` computes it. A verified
/// implementation defines `decoded` and `accepted`. One written in ordinary
/// Rust cannot, and leaves them as they stand here, which says nothing of
/// what it returns.
pub trait FromSql: Sized {
    /// What `from_sql` returns.
    open spec fn decoded(ty: Type, raw: Seq<u8>, ctx: SessionInfo) -> Result<Self, Error> {
        arbitrary()
    }

    /// What `accepts` returns.
    open spec fn accepted(ty: Type) -> bool {
        arbitrary()
    }

    /// Reads a value of column type `ty` from `raw`, the bytes of one value.
    fn from_sql(ty: &Type, raw: &[u8], ctx: &SessionInfo) -> (r: Result<Self, Error>)
        ensures
            r == Self::decoded(*ty, raw@, *ctx),
    ;

    /// Whether values of column type `ty` can be read into this type.
    fn accepts(ty: &Type) -> (b: bool)
        ensures
            b == Self::accepted(*ty),
    ;
}

/// A type that can be written in the binary format.
///
/// Writing is a function of the value, the column type and the session:
/// `encoded` is that function, and `to_sql` computes it. A verified
/// implementation defines `encoded` and `accepted`. One written in ordinary
/// Rust cannot, and leaves them as they stand here, which says nothing of
/// what it returns.
pub trait ToSql {
    /// What `to_sql` does: the bytes that it appends together with whether
    /// the value is `NULL`, or its failure.
    open spec fn encoded(&self, ty: Type, ctx: SessionInfo) -> Result<(IsNull, Seq<u8>), Error> {
        arbitrary()
    }

    /// What `accepts` returns.
    open spec fn accepted(ty: Type) -> bool {
        arbitrary()
    }

    /// Appends the value, as one of column type `ty`, to `out`. What `out`
    /// held stays in front of it, also where the conversion fails.
    fn to_sql(&self, ty: &Type, out: &mut Vec<u8>, ctx: &SessionInfo) -> (r: Result<IsNull, Error>)
        ensures
            old(out)@.is_prefix_of(final(out)@),
            r == (match self.encoded(*ty, *ctx) {
                Ok((is_null, _)) => Ok(is_null),
                Err(e) => Err(e),
            }),
            self.encoded(*ty, *ctx) matches Ok((_, bytes)) ==> final(out)@ == old(out)@ + bytes,
    ;

    /// Whether this type can be written as a value of column type `ty`.
    fn accepts(ty: &Type) -> (b: bool)
        ensures
            b == Self::accepted(*ty),
    ;
}

} // verus!
