//! Dates and timestamps that may be infinite, in the binary format of
//! PostgreSQL.
//!
//! PostgreSQL knows two dates and two timestamps that no calendar holds:
//! `infinity` and `-infinity`. In the binary format they are the largest and
//! the smallest integer of the column's width. [`types::Date`] and
//! [`types::Timestamp`] add them to any type that converts the finite values.
//!
//! The conversions are verified against the contracts of [`types::FromSql`]
//! and [`types::ToSql`]; the integers themselves are read and written by
//! `postgres_protocol`, through the functions at the end of [`wire`].

pub mod types;
pub mod wire;
