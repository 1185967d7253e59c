use postgres_special::types::{Timestamp, Error, FromSql, IsNull, SessionInfo, ToSql, Type};

/// Microseconds since the start of the year 2000, as the wire has them.
#[derive(Debug, Clone, Copy, PartialEq)]
struct Micros(i64);

impl FromSql for Micros {
    fn from_sql(_ty: &Type, raw: &[u8], _ctx: &SessionInfo) -> Result<Self, Error> {
        match <[u8; 8]>::try_from(raw) {
            Ok(bytes) => Ok(Micros(i64::from_be_bytes(bytes))),
            Err(_) => Err(Error { message: format!("{} bytes", raw.len()) }),
        }
    }

    fn accepts(ty: &Type) -> bool {
        *ty == Type::Timestamp || *ty == Type::Timestamptz
    }
}

impl ToSql for Micros {
    fn to_sql(&self, _ty: &Type, out: &mut Vec<u8>, _ctx: &SessionInfo) -> Result<IsNull, Error> {
        out.extend_from_slice(&self.0.to_be_bytes());
        Ok(IsNull::No)
    }

    fn accepts(ty: &Type) -> bool {
        *ty == Type::Timestamp || *ty == Type::Timestamptz
    }
}

/// Keeps what it was asked to read, and takes every column type.
#[derive(Debug, Clone, PartialEq)]
struct Seen {
    ty: Type,
    raw: Vec<u8>,
    session: u64,
}

impl FromSql for Seen {
    fn from_sql(ty: &Type, raw: &[u8], ctx: &SessionInfo) -> Result<Self, Error> {
        Ok(Seen { ty: *ty, raw: raw.to_vec(), session: ctx.id })
    }

    fn accepts(_ty: &Type) -> bool {
        true
    }
}

impl ToSql for Seen {
    fn to_sql(&self, _ty: &Type, out: &mut Vec<u8>, _ctx: &SessionInfo) -> Result<IsNull, Error> {
        out.extend_from_slice(&self.raw);
        Ok(IsNull::No)
    }

    fn accepts(_ty: &Type) -> bool {
        true
    }
}

/// Fails at every conversion, and takes no column type.
#[derive(Debug, Clone, Copy, PartialEq)]
struct Never;

fn never() -> Error {
    Error { message: String::from("never") }
}

impl FromSql for Never {
    fn from_sql(_ty: &Type, _raw: &[u8], _ctx: &SessionInfo) -> Result<Self, Error> {
        Err(never())
    }

    fn accepts(_ty: &Type) -> bool {
        false
    }
}

impl ToSql for Never {
    fn to_sql(&self, _ty: &Type, _out: &mut Vec<u8>, _ctx: &SessionInfo) -> Result<IsNull, Error> {
        Err(never())
    }

    fn accepts(_ty: &Type) -> bool {
        false
    }
}

/// Writes nothing and says that it is `NULL`.
#[derive(Debug, Clone, Copy, PartialEq)]
struct Null;

impl ToSql for Null {
    fn to_sql(&self, _ty: &Type, _out: &mut Vec<u8>, _ctx: &SessionInfo) -> Result<IsNull, Error> {
        Ok(IsNull::Yes)
    }

    fn accepts(_ty: &Type) -> bool {
        true
    }
}

const SESSION: SessionInfo = SessionInfo { id: 7 };

const MAX_BYTES: [u8; 8] = [0x7f, 0xff, 0xff, 0xff, 0xff, 0xff, 0xff, 0xff];

const MIN_BYTES: [u8; 8] = [0x80, 0x00, 0x00, 0x00, 0x00, 0x00, 0x00, 0x00];

#[test]
fn timestamp_max_bytes_decode_to_pos_infinity() {
    let r = Timestamp::<Micros>::from_sql(&Type::Timestamp, &MAX_BYTES, &SESSION);
    assert_eq!(r, Ok(Timestamp::PosInfinity));
}

#[test]
fn timestamp_min_bytes_decode_to_neg_infinity() {
    let r = Timestamp::<Micros>::from_sql(&Type::Timestamp, &MIN_BYTES, &SESSION);
    assert_eq!(r, Ok(Timestamp::NegInfinity));
}

#[test]
fn timestamp_zero_bytes_decode_to_value_zero() {
    let r = Timestamp::<Micros>::from_sql(&Type::Timestamp, &[0x00; 8], &SESSION);
    assert_eq!(r, Ok(Timestamp::Value(Micros(0))));
}

#[test]
fn timestamp_sample_bytes_decode_to_their_integer() {
    let r = Timestamp::<Micros>::from_sql(&Type::Timestamp, &[0x00, 0x00, 0x00, 0x00, 0x00, 0x0f, 0x42, 0x40], &SESSION);
    assert_eq!(r, Ok(Timestamp::Value(Micros(1_000_000))));
    let r = Timestamp::<Micros>::from_sql(&Type::Timestamp, &[0xff, 0xff, 0xff, 0xff, 0xff, 0xff, 0xff, 0xfe], &SESSION);
    assert_eq!(r, Ok(Timestamp::Value(Micros(-2))));
}

#[test]
fn timestamp_extremes_are_infinite_whatever_the_inner_type() {
    for ty in [Type::Date, Type::Timestamp, Type::Timestamptz, Type::Other(23)] {
        for session in [SessionInfo { id: 0 }, SessionInfo { id: u64::MAX }] {
            assert_eq!(Timestamp::<Never>::from_sql(&ty, &MAX_BYTES, &session), Ok(Timestamp::PosInfinity));
            assert_eq!(Timestamp::<Never>::from_sql(&ty, &MIN_BYTES, &session), Ok(Timestamp::NegInfinity));
            assert_eq!(Timestamp::<Seen>::from_sql(&ty, &MAX_BYTES, &session), Ok(Timestamp::PosInfinity));
            assert_eq!(Timestamp::<Seen>::from_sql(&ty, &MIN_BYTES, &session), Ok(Timestamp::NegInfinity));
        }
    }
}

#[test]
fn timestamp_between_the_extremes_goes_to_the_inner_type_unchanged() {
    let inputs: [[u8; 8]; 4] = [[0x7f, 0xff, 0xff, 0xff, 0xff, 0xff, 0xff, 0xfe], [0x80, 0x00, 0x00, 0x00, 0x00, 0x00, 0x00, 0x01], [0x00; 8], [0xff; 8]];
    for raw in inputs {
        for ty in [Type::Timestamp, Type::Other(23)] {
            let session = SessionInfo { id: 41 };
            let r = Timestamp::<Seen>::from_sql(&ty, &raw, &session);
            assert_eq!(r, Ok(Timestamp::Value(Seen { ty, raw: raw.to_vec(), session: 41 })));
        }
    }
}

#[test]
fn timestamp_next_to_the_extremes_is_finite() {
    let r = Timestamp::<Micros>::from_sql(&Type::Timestamp, &[0x7f, 0xff, 0xff, 0xff, 0xff, 0xff, 0xff, 0xfe], &SESSION);
    assert_eq!(r, Ok(Timestamp::Value(Micros(i64::MAX - 1))));
    let r = Timestamp::<Micros>::from_sql(&Type::Timestamp, &[0x80, 0x00, 0x00, 0x00, 0x00, 0x00, 0x00, 0x01], &SESSION);
    assert_eq!(r, Ok(Timestamp::Value(Micros(i64::MIN + 1))));
}

#[test]
fn timestamp_failure_of_the_inner_type_is_handed_on() {
    let r = Timestamp::<Never>::from_sql(&Type::Timestamp, &[0x00; 8], &SESSION);
    assert_eq!(r, Err(never()));
}

#[test]
fn timestamp_of_another_width_is_refused() {
    let inputs: [&[u8]; 4] = [&[], &[0x7f], &[0x7f, 0xff, 0xff, 0xff, 0xff, 0xff, 0xff], &[0x7f, 0xff, 0xff, 0xff, 0xff, 0xff, 0xff, 0xff, 0x00]];
    for raw in inputs {
        let r = Timestamp::<Seen>::from_sql(&Type::Timestamp, raw, &SESSION);
        match r {
            Err(e) => assert!(!e.message.is_empty()),
            Ok(v) => panic!("{} bytes were read as {:?}", raw.len(), v),
        }
    }
}

#[test]
fn timestamp_pos_infinity_encodes_as_the_largest_integer() {
    let mut out: Vec<u8> = vec![0xab, 0xcd];
    let r = Timestamp::<Micros>::PosInfinity.to_sql(&Type::Timestamp, &mut out, &SESSION);
    assert_eq!(r, Ok(IsNull::No));
    assert_eq!(out.len(), 2 + 8);
    assert_eq!(out[..2], [0xab, 0xcd]);
    assert_eq!(out[2..], MAX_BYTES);
}

#[test]
fn timestamp_neg_infinity_encodes_as_the_smallest_integer() {
    let mut out: Vec<u8> = Vec::new();
    let r = Timestamp::<Micros>::NegInfinity.to_sql(&Type::Timestamp, &mut out, &SESSION);
    assert_eq!(r, Ok(IsNull::No));
    assert_eq!(out, MIN_BYTES);
}

#[test]
fn timestamp_infinity_is_written_whatever_the_inner_type_and_the_column() {
    for ty in [Type::Date, Type::Timestamp, Type::Timestamptz, Type::Other(25)] {
        let mut out: Vec<u8> = vec![0x01];
        assert_eq!(Timestamp::<Never>::PosInfinity.to_sql(&ty, &mut out, &SESSION), Ok(IsNull::No));
        assert_eq!(Timestamp::<Null>::NegInfinity.to_sql(&ty, &mut out, &SESSION), Ok(IsNull::No));
        let mut expected: Vec<u8> = vec![0x01];
        expected.extend_from_slice(&MAX_BYTES);
        expected.extend_from_slice(&MIN_BYTES);
        assert_eq!(out, expected);
    }
}

#[test]
fn timestamp_value_encodes_as_the_inner_type_does() {
    let mut out: Vec<u8> = vec![0x05];
    let r = Timestamp::Value(Micros(-2)).to_sql(&Type::Timestamp, &mut out, &SESSION);
    assert_eq!(r, Ok(IsNull::No));
    let mut expected: Vec<u8> = vec![0x05];
    expected.extend_from_slice(&[0xff, 0xff, 0xff, 0xff, 0xff, 0xff, 0xff, 0xfe]);
    assert_eq!(out, expected);

    let mut out: Vec<u8> = Vec::new();
    let seen = Seen { ty: Type::Other(17), raw: vec![1, 2, 3], session: 0 };
    let r = Timestamp::Value(seen).to_sql(&Type::Timestamp, &mut out, &SESSION);
    assert_eq!(r, Ok(IsNull::No));
    assert_eq!(out, [1, 2, 3]);
}

#[test]
fn timestamp_value_hands_on_null_and_failure_of_the_inner_type() {
    let mut out: Vec<u8> = vec![0x09, 0x08];
    let r = Timestamp::Value(Null).to_sql(&Type::Timestamp, &mut out, &SESSION);
    assert_eq!(r, Ok(IsNull::Yes));
    assert_eq!(out, [0x09, 0x08]);
    let r = Timestamp::Value(Never).to_sql(&Type::Timestamp, &mut out, &SESSION);
    assert_eq!(r, Err(never()));
    assert_eq!(out[..2], [0x09, 0x08]);
}

#[test]
fn timestamp_infinities_round_trip() {
    for d in [Timestamp::<Micros>::PosInfinity, Timestamp::<Micros>::NegInfinity] {
        let mut out: Vec<u8> = Vec::new();
        assert_eq!(d.to_sql(&Type::Timestamp, &mut out, &SESSION), Ok(IsNull::No));
        assert_eq!(Timestamp::<Micros>::from_sql(&Type::Timestamp, &out, &SESSION), Ok(d));
    }
    for d in [Timestamp::<Never>::PosInfinity, Timestamp::<Never>::NegInfinity] {
        let mut out: Vec<u8> = Vec::new();
        assert_eq!(d.to_sql(&Type::Other(1), &mut out, &SESSION), Ok(IsNull::No));
        assert_eq!(Timestamp::<Never>::from_sql(&Type::Other(2), &out, &SessionInfo { id: 8 }), Ok(d));
    }
}

#[test]
fn timestamp_values_round_trip() {
    for v in [0, 1, -1, 1_000_000, -2, i64::MAX - 1, i64::MIN + 1] {
        let d = Timestamp::Value(Micros(v));
        let mut out: Vec<u8> = Vec::new();
        assert_eq!(d.to_sql(&Type::Timestamp, &mut out, &SESSION), Ok(IsNull::No));
        assert_eq!(out, v.to_be_bytes());
        assert_eq!(Timestamp::<Micros>::from_sql(&Type::Timestamp, &out, &SESSION), Ok(d));
    }
}

#[test]
fn timestamp_value_at_an_extreme_reads_back_as_an_infinity() {
    let mut out: Vec<u8> = Vec::new();
    let r = Timestamp::Value(Micros(i64::MAX)).to_sql(&Type::Timestamp, &mut out, &SESSION);
    assert_eq!(r, Ok(IsNull::No));
    assert_eq!(Timestamp::<Micros>::from_sql(&Type::Timestamp, &out, &SESSION), Ok(Timestamp::PosInfinity));

    let mut out: Vec<u8> = Vec::new();
    let r = Timestamp::Value(Micros(i64::MIN)).to_sql(&Type::Timestamp, &mut out, &SESSION);
    assert_eq!(r, Ok(IsNull::No));
    assert_eq!(Timestamp::<Micros>::from_sql(&Type::Timestamp, &out, &SESSION), Ok(Timestamp::NegInfinity));
}

#[test]
fn timestamp_accepts_its_column_where_the_inner_type_does() {
    assert!(<Timestamp<Seen> as FromSql>::accepts(&Type::Timestamp));
    assert!(<Timestamp<Seen> as ToSql>::accepts(&Type::Timestamp));
    assert!(<Timestamp<Seen> as FromSql>::accepts(&Type::Timestamptz));
    assert!(<Timestamp<Seen> as ToSql>::accepts(&Type::Timestamptz));
    assert!(<Timestamp<Micros> as FromSql>::accepts(&Type::Timestamp));
    assert!(<Timestamp<Micros> as ToSql>::accepts(&Type::Timestamp));
    assert!(<Timestamp<Micros> as FromSql>::accepts(&Type::Timestamptz));
    assert!(<Timestamp<Micros> as ToSql>::accepts(&Type::Timestamptz));
}

#[test]
fn timestamp_accepts_no_other_column() {
    assert!(!<Timestamp<Seen> as FromSql>::accepts(&Type::Date));
    assert!(!<Timestamp<Seen> as ToSql>::accepts(&Type::Date));
    assert!(!<Timestamp<Seen> as FromSql>::accepts(&Type::Other(23)));
    assert!(!<Timestamp<Seen> as ToSql>::accepts(&Type::Other(23)));
    assert!(!<Timestamp<Seen> as FromSql>::accepts(&Type::Other(0)));
    assert!(!<Timestamp<Seen> as ToSql>::accepts(&Type::Other(0)));
    assert!(<Seen as FromSql>::accepts(&Type::Other(23)));
    assert!(<Seen as ToSql>::accepts(&Type::Other(23)));
}

#[test]
fn timestamp_accepts_nothing_that_the_inner_type_refuses() {
    assert!(!<Timestamp<Never> as FromSql>::accepts(&Type::Timestamp));
    assert!(!<Timestamp<Never> as ToSql>::accepts(&Type::Timestamp));
    assert!(!<Timestamp<Never> as FromSql>::accepts(&Type::Timestamptz));
    assert!(!<Timestamp<Never> as ToSql>::accepts(&Type::Timestamptz));
}

#[test]
fn timestamp_is_a_plain_value() {
    let d = Timestamp::Value(Micros(1_000_000));
    let copy = d;
    assert_eq!(d, copy);
    assert_eq!(d.clone(), Timestamp::Value(Micros(1_000_000)));
    assert_ne!(d, Timestamp::PosInfinity);
    assert_ne!(Timestamp::<Micros>::PosInfinity, Timestamp::NegInfinity);
    assert_eq!(format!("{:?}", Timestamp::<Micros>::NegInfinity), "NegInfinity");
}

#[test]
fn timestamp_with_bytes_left_over_fails_as_the_protocol_crate_does() {
    let r = Timestamp::<Seen>::from_sql(&Type::Timestamp, &[0x00, 0x00, 0x00, 0x00, 0x00, 0x00, 0x00, 0x01, 0x00], &SESSION);
    assert_eq!(r, Err(Error { message: String::from("invalid message length") }));
}
