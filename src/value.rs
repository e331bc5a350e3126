//! Raw column values, decoded attribute values and entity identifiers.
use vstd::prelude::*;

verus! {

/// One column of a fetched row, as the database driver hands it over.
/// A floating-point column keeps no payload: it is never decoded.
#[derive(Clone)]
pub enum RawColumn {
    Null,
    Integer(i64),
    Real,
    Text(Vec<u8>),
    Blob(Vec<u8>),
}

/// A unique entity identifier: an entity type name paired with an id.
pub struct Uid {
    pub entity_type: String,
    pub id: String,
}

/// The mathematical form of a [`Uid`]: (type name, id).
pub type UidView = (Seq<char>, Seq<char>);

impl View for Uid {
    type V = UidView;

    open spec fn view(&self) -> UidView {
        (self.entity_type@, self.id@)
    }
}

impl Uid {
    pub fn clone_uid(&self) -> (r: Uid)
        ensures
            r@ == self@,
    {
        Uid { entity_type: self.entity_type.clone(), id: self.id.clone() }
    }
}

/// An attribute value that a column or a caller can supply.
pub enum AttrValue {
    Long(i64),
    Str(String),
    Entity(Uid),
}

/// The mathematical form of an [`AttrValue`].
pub ghost enum AttrVal {
    Long(int),
    Str(Seq<char>),
    Entity(UidView),
}

impl View for AttrValue {
    type V = AttrVal;

    open spec fn view(&self) -> AttrVal {
        match self {
            AttrValue::Long(x) => AttrVal::Long(*x as int),
            AttrValue::Str(s) => AttrVal::Str(s@),
            AttrValue::Entity(u) => AttrVal::Entity(u@),
        }
    }
}

/// Failures while turning stored data into entity data.
#[derive(Debug, PartialEq, Eq, Structural)]
pub enum DatabaseToCedarError {
    /// A column holds a kind of value that cannot be decoded as requested.
    InvalidType,
    /// A row has no column at the requested position.
    InvalidColumnIndex,
    /// An inline ancestor column is not a JSON array of entity uids.
    InvalidAncestors,
}

/// Failures of a single-attribute lookup.
#[derive(Debug, PartialEq, Eq, Structural)]
pub enum EntityAttrAccessError {
    UnknownAttr,
    UnknownEntity,
    Database(DatabaseToCedarError),
}

/// What `std::str::from_utf8` makes of a byte string: the characters it
/// encodes, or `None` when the bytes are not well-formed UTF-8.
pub uninterp spec fn utf8_decode(b: Seq<u8>) -> Option<Seq<char>>;

/// The character of a decimal digit.
pub open spec fn digit_char(d: nat) -> char {
    seq!['0', '1', '2', '3', '4', '5', '6', '7', '8', '9'][d as int]
}

/// The decimal digits of a natural number, most significant first, with no
/// leading zero.
pub open spec fn digits(n: nat) -> Seq<char>
    decreases n,
{
    if n < 10 {
        seq![digit_char(n)]
    } else {
        digits(n / 10).push(digit_char(n % 10))
    }
}

/// The decimal text of an integer: its digits, after a `-` when negative.
pub open spec fn decimal_text(x: int) -> Seq<char> {
    if x < 0 {
        seq!['-'] + digits((-x) as nat)
    } else {
        digits(x as nat)
    }
}

/// Relies on `std::str::from_utf8`: it accepts exactly the well-formed UTF-8
/// byte strings.
#[verifier::external_body]
pub(crate) fn utf8_text(b: &Vec<u8>) -> (r: Option<String>)
    ensures
        r is Some <==> utf8_decode(b@) is Some,
        r is Some ==> r->0@ == utf8_decode(b@)->0,
{
    std::str::from_utf8(b.as_slice()).ok().map(|s| s.to_string())
}

/// Relies on `String::push`: appends one character.
#[verifier::external_body]
fn push_char(s: &mut String, c: char)
    ensures
        final(s)@ == old(s)@.push(c),
{
    s.push(c);
}

fn digit(d: u64) -> (c: char)
    requires
        d < 10,
    ensures
        c == digit_char(d as nat),
{
    match d {
        0 => '0',
        1 => '1',
        2 => '2',
        3 => '3',
        4 => '4',
        5 => '5',
        6 => '6',
        7 => '7',
        8 => '8',
        _ => '9',
    }
}

fn write_digits(n: u64, out: &mut String)
    ensures
        final(out)@ == old(out)@ + digits(n as nat),
    decreases n,
{
    if n >= 10 {
        write_digits(n / 10, out);
    }
    push_char(out, digit(n % 10));
    assert(old(out)@ + digits(n as nat) =~= final(out)@);
}

/// The decimal text of an integer, as `i64::to_string` writes it.
pub fn integer_text(x: i64) -> (r: String)
    ensures
        r@ == decimal_text(x as int),
{
    let mut out = String::new();
    if x < 0 {
        push_char(&mut out, '-');
        let m: u64 = (0i128 - x as i128) as u64;
        write_digits(m, &mut out);
        assert(out@ =~= decimal_text(x as int));
    } else {
        write_digits(x as u64, &mut out);
        assert(out@ =~= decimal_text(x as int));
    }
    out
}

/// The decoded value of a column read as an attribute: `Ok(None)` for NULL.
/// Floating-point and binary columns are refused rather than mapped to some
/// other kind of value: the attribute values hold integers, strings and
/// entity references only, and a float is never rounded into one of them.
pub open spec fn decode_attr(c: RawColumn) -> Result<Option<AttrVal>, DatabaseToCedarError> {
    match c {
        RawColumn::Null => Ok(None),
        RawColumn::Integer(x) => Ok(Some(AttrVal::Long(x as int))),
        RawColumn::Text(b) => match utf8_decode(b@) {
            Some(s) => Ok(Some(AttrVal::Str(s))),
            None => Err(DatabaseToCedarError::InvalidType),
        },
        _ => Err(DatabaseToCedarError::InvalidType),
    }
}

/// The id text of a column read as an identifier.
pub open spec fn decode_id(c: RawColumn) -> Result<Seq<char>, DatabaseToCedarError> {
    match c {
        RawColumn::Integer(x) => Ok(decimal_text(x as int)),
        RawColumn::Text(b) => match utf8_decode(b@) {
            Some(s) => Ok(s),
            None => Err(DatabaseToCedarError::InvalidType),
        },
        _ => Err(DatabaseToCedarError::InvalidType),
    }
}

/// A column decoded as an attribute value; `None` stands for SQL NULL.
pub struct SQLValue(pub Option<AttrValue>);

impl SQLValue {
    /// Decodes one column: NULL, integer and well-formed text are accepted,
    /// floating-point, binary and malformed text are not.
    pub fn column_result(value: &RawColumn) -> (r: Result<SQLValue, DatabaseToCedarError>)
        ensures
            match (r, decode_attr(*value)) {
                (Ok(SQLValue(None)), Ok(None)) => true,
                (Ok(SQLValue(Some(v))), Ok(Some(w))) => v@ == w,
                (Err(e), Err(f)) => e == f,
                _ => false,
            },
    {
        match value {
            RawColumn::Null => Ok(SQLValue(None)),
            RawColumn::Integer(x) => Ok(SQLValue(Some(AttrValue::Long(*x)))),
            RawColumn::Text(b) => match utf8_text(b) {
                Some(s) => Ok(SQLValue(Some(AttrValue::Str(s)))),
                None => Err(DatabaseToCedarError::InvalidType),
            },
            _ => Err(DatabaseToCedarError::InvalidType),
        }
    }
}

/// A column decoded as an entity id, to be paired with a type name.
pub struct EntitySQLId(pub String);

impl EntitySQLId {
    /// Decodes one column as an id: integers are written in decimal, text is
    /// taken as it is; every other kind of column is refused.
    pub fn column_result(value: &RawColumn) -> (r: Result<EntitySQLId, DatabaseToCedarError>)
        ensures
            match (r, decode_id(*value)) {
                (Ok(id), Ok(s)) => id.0@ == s,
                (Err(e), Err(f)) => e == f,
                _ => false,
            },
    {
        match value {
            RawColumn::Integer(x) => Ok(EntitySQLId(integer_text(*x))),
            RawColumn::Text(b) => match utf8_text(b) {
                Some(s) => Ok(EntitySQLId(s)),
                None => Err(DatabaseToCedarError::InvalidType),
            },
            _ => Err(DatabaseToCedarError::InvalidType),
        }
    }

    /// Pairs the id with an entity type name.
    pub fn into_uid(self, tp: &String) -> (r: Uid)
        ensures
            r@ == (tp@, self.0@),
    {
        Uid { entity_type: tp.clone(), id: self.0 }
    }
}

} // verus!
