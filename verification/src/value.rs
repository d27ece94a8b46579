use vstd::prelude::*;

use crate::text::{bool_string, bool_text, signed_integer_text, signed_text, unsigned_text, decimal_digits};

verus! {

/// The column types a database value can have.
#[derive(Copy, Clone, Debug, PartialEq, Eq, Hash, Structural)]
pub enum DatabaseType {
    Bool,
    SmallInteger,
    UnsignedSmallInteger,
    Integer,
    UnsignedInteger,
    BigInteger,
    UnsignedBigInteger,
    Float,
    Double,
    Decimal,
    Binary,
    Time,
    Date,
    DateTime,
    String,
    Json,
}

/// The name of a database type, as its display shows it.
pub open spec fn database_type_text(t: DatabaseType) -> Seq<char> {
    match t {
        DatabaseType::Bool => "Bool"@,
        DatabaseType::SmallInteger => "SmallInteger"@,
        DatabaseType::UnsignedSmallInteger => "UnsignedSmallInteger"@,
        DatabaseType::Integer => "Integer"@,
        DatabaseType::UnsignedInteger => "UnsignedInteger"@,
        DatabaseType::BigInteger => "BigInteger"@,
        DatabaseType::UnsignedBigInteger => "UnsignedBigInteger"@,
        DatabaseType::Float => "Float"@,
        DatabaseType::Double => "Double"@,
        DatabaseType::Decimal => "Decimal"@,
        DatabaseType::Binary => "Binary"@,
        DatabaseType::Time => "Time"@,
        DatabaseType::Date => "Date"@,
        DatabaseType::DateTime => "DateTime"@,
        DatabaseType::String => "String"@,
        DatabaseType::Json => "Json"@,
    }
}

impl DatabaseType {
    /// The name of the type.
    pub fn to_display_string(&self) -> (s: String)
        ensures
            s@ == database_type_text(*self),
    {
        match self {
            DatabaseType::Bool => String::from_str("Bool"),
            DatabaseType::SmallInteger => String::from_str("SmallInteger"),
            DatabaseType::UnsignedSmallInteger => String::from_str("UnsignedSmallInteger"),
            DatabaseType::Integer => String::from_str("Integer"),
            DatabaseType::UnsignedInteger => String::from_str("UnsignedInteger"),
            DatabaseType::BigInteger => String::from_str("BigInteger"),
            DatabaseType::UnsignedBigInteger => String::from_str("UnsignedBigInteger"),
            DatabaseType::Float => String::from_str("Float"),
            DatabaseType::Double => String::from_str("Double"),
            DatabaseType::Decimal => String::from_str("Decimal"),
            DatabaseType::Binary => String::from_str("Binary"),
            DatabaseType::Time => String::from_str("Time"),
            DatabaseType::Date => String::from_str("Date"),
            DatabaseType::DateTime => String::from_str("DateTime"),
            DatabaseType::String => String::from_str("String"),
            DatabaseType::Json => String::from_str("Json"),
        }
    }
}

/// The largest magnitude of a decimal mantissa (96 bits).
pub open spec fn max_decimal_mantissa() -> int {
    0xFFFF_FFFF_FFFF_FFFF_FFFF_FFFFint
}

/// `digits` with zeros in front, to at least `width` characters.
pub open spec fn zero_padded(digits: Seq<char>, width: nat) -> Seq<char> {
    if digits.len() < width {
        Seq::new((width - digits.len()) as nat, |i: int| '0') + digits
    } else {
        digits
    }
}

/// The decimal digits of `n` without leading zeros; none for zero.
pub open spec fn significant_digits(n: nat) -> Seq<char> {
    if n == 0 {
        Seq::empty()
    } else {
        decimal_digits(n)
    }
}

/// `digits` without its trailing zeros, keeping the first digit.
pub open spec fn trim_trailing_zeros(digits: Seq<char>) -> Seq<char>
    decreases digits.len(),
{
    if digits.len() > 1 && digits.last() == '0' {
        trim_trailing_zeros(digits.drop_last())
    } else {
        digits
    }
}

/// The magnitude of an integer.
pub open spec fn magnitude(n: int) -> nat {
    if n < 0 {
        (-n) as nat
    } else {
        n as nat
    }
}

/// A fixed-point decimal number: `mantissa / 10^scale`.
#[derive(Clone, Copy, Debug)]
pub struct DecimalValue {
    mantissa: i128,
    scale: u32,
}

/// The display text of the decimal number `mantissa / 10^scale`: `-`
/// for a negative mantissa; then the digits of the magnitude, padded
/// with zeros to at least `scale` digits, with the last `scale` of them
/// after a `.` (none when the scale is 0) and `0` before it when no digit
/// is left there.
pub open spec fn decimal_display(mantissa: i128, scale: u32) -> Seq<char> {
    let ds = zero_padded(significant_digits(magnitude(mantissa as int)), scale as nat);
    let whole = ds.take(ds.len() - scale);
    let fraction = ds.skip(ds.len() - scale);
    (if mantissa < 0 {
        seq!['-']
    } else {
        Seq::empty()
    }) + (if whole.len() == 0 {
        seq!['0']
    } else {
        whole
    }) + (if scale > 0 {
        seq!['.'] + fraction
    } else {
        Seq::empty()
    })
}

/// Calls `rust_decimal::Decimal::from_i128_with_scale` and its `Display`
/// (`to_str_internal` in its `str.rs`, then `pad_integral` with the sign
/// of the mantissa), whose text `decimal_display` writes out. The call
/// does not panic on the inputs that `requires` admits (its panics are a
/// scale above 28 and a magnitude above 96 bits).
#[verifier::external_body]
fn decimal_text(mantissa: i128, scale: u32) -> (s: String)
    requires
        -max_decimal_mantissa() <= mantissa <= max_decimal_mantissa(),
        scale <= 28,
    ensures
        s@ == decimal_display(mantissa, scale),
{
    rust_decimal::Decimal::from_i128_with_scale(mantissa, scale).to_string()
}

impl DecimalValue {
    #[verifier::type_invariant]
    spec fn inv(self) -> bool {
        &&& -max_decimal_mantissa() <= self.mantissa <= max_decimal_mantissa()
        &&& self.scale <= 28
    }

    pub closed spec fn spec_mantissa(self) -> i128 {
        self.mantissa
    }

    pub closed spec fn spec_scale(self) -> u32 {
        self.scale
    }

    /// The decimal `mantissa / 10^scale`, if it can be represented.
    pub fn new(mantissa: i128, scale: u32) -> (r: Option<Self>)
        ensures
            r is Some <==> (-max_decimal_mantissa() <= mantissa <= max_decimal_mantissa()
                && scale <= 28),
            r matches Some(d) ==> d.spec_mantissa() == mantissa && d.spec_scale() == scale,
    {
        if -0xFFFF_FFFF_FFFF_FFFF_FFFF_FFFFi128 <= mantissa && mantissa
            <= 0xFFFF_FFFF_FFFF_FFFF_FFFF_FFFFi128 && scale <= 28 {
            Some(DecimalValue { mantissa, scale })
        } else {
            None
        }
    }

    pub fn mantissa(&self) -> (m: i128)
        ensures
            m == self.spec_mantissa(),
    {
        self.mantissa
    }

    pub fn scale(&self) -> (s: u32)
        ensures
            s == self.spec_scale(),
    {
        self.scale
    }

    /// The display text of the number.
    pub fn to_display_string(&self) -> (s: String)
        ensures
            s@ == decimal_display(self.spec_mantissa(), self.spec_scale()),
    {
        proof {
            use_type_invariant(self);
        }
        decimal_text(self.mantissa, self.scale)
    }
}

/// A time of day.
#[derive(Clone, Copy, Debug)]
pub struct TimeValue {
    hour: u8,
    minute: u8,
    second: u8,
    nanosecond: u32,
}

/// The display text of a time of day: the hour without padding, `:`,
/// the minute and the second on two digits each separated by `:`, `.`,
/// and the nanoseconds on nine digits with their trailing zeros removed
/// (the first digit always stays).
pub open spec fn time_display(hour: u8, minute: u8, second: u8, nanosecond: u32) -> Seq<char> {
    decimal_digits(hour as nat) + seq![':'] + zero_padded(decimal_digits(minute as nat), 2)
        + seq![':'] + zero_padded(decimal_digits(second as nat), 2) + seq!['.']
        + trim_trailing_zeros(zero_padded(decimal_digits(nanosecond as nat), 9))
}

/// Calls `time::Time::from_hms_nano` and its `Display`
/// (`fmt_into_buffer` in its `time.rs`), whose text `time_display` writes
/// out. The constructor fails only outside the ranges that `requires`
/// states, so the error arm is not reached.
#[verifier::external_body]
fn time_text(hour: u8, minute: u8, second: u8, nanosecond: u32) -> (s: String)
    requires
        hour < 24,
        minute < 60,
        second < 60,
        nanosecond < 1_000_000_000,
    ensures
        s@ == time_display(hour, minute, second, nanosecond),
{
    match time::Time::from_hms_nano(hour, minute, second, nanosecond) {
        Ok(t) => t.to_string(),
        Err(_) => String::new(),
    }
}

impl TimeValue {
    #[verifier::type_invariant]
    spec fn inv(self) -> bool {
        &&& self.hour < 24
        &&& self.minute < 60
        &&& self.second < 60
        &&& self.nanosecond < 1_000_000_000
    }

    pub closed spec fn spec_hour(self) -> u8 {
        self.hour
    }

    pub closed spec fn spec_minute(self) -> u8 {
        self.minute
    }

    pub closed spec fn spec_second(self) -> u8 {
        self.second
    }

    pub closed spec fn spec_nanosecond(self) -> u32 {
        self.nanosecond
    }

    /// The time `hour:minute:second.nanosecond`, if every part is in range.
    pub fn new(hour: u8, minute: u8, second: u8, nanosecond: u32) -> (r: Option<Self>)
        ensures
            r is Some <==> (hour < 24 && minute < 60 && second < 60 && nanosecond
                < 1_000_000_000),
            r matches Some(t) ==> t.spec_hour() == hour && t.spec_minute() == minute
                && t.spec_second() == second && t.spec_nanosecond() == nanosecond,
    {
        if hour < 24 && minute < 60 && second < 60 && nanosecond < 1_000_000_000 {
            Some(TimeValue { hour, minute, second, nanosecond })
        } else {
            None
        }
    }

    pub fn hour(&self) -> (v: u8)
        ensures
            v == self.spec_hour(),
    {
        self.hour
    }

    pub fn minute(&self) -> (v: u8)
        ensures
            v == self.spec_minute(),
    {
        self.minute
    }

    pub fn second(&self) -> (v: u8)
        ensures
            v == self.spec_second(),
    {
        self.second
    }

    pub fn nanosecond(&self) -> (v: u32)
        ensures
            v == self.spec_nanosecond(),
    {
        self.nanosecond
    }

    /// The display text of the time.
    pub fn to_display_string(&self) -> (s: String)
        ensures
            s@ == time_display(
                self.spec_hour(),
                self.spec_minute(),
                self.spec_second(),
                self.spec_nanosecond(),
            ),
    {
        proof {
            use_type_invariant(self);
        }
        time_text(self.hour, self.minute, self.second, self.nanosecond)
    }
}

/// Whether `year` is a leap year of the proleptic Gregorian calendar.
pub open spec fn is_leap_year(year: int) -> bool {
    year % 4 == 0 && (year % 100 != 0 || year % 400 == 0)
}

/// The number of days of `month` (1 to 12) in `year`.
pub open spec fn days_in_month(year: int, month: int) -> int {
    if month == 2 {
        if is_leap_year(year) { 29 } else { 28 }
    } else if month == 4 || month == 6 || month == 9 || month == 11 {
        30
    } else {
        31
    }
}

/// Whether year, month and day name a calendar date in the years
/// -9999 to 9999.
pub open spec fn valid_date(year: int, month: int, day: int) -> bool {
    &&& -9999 <= year <= 9999
    &&& 1 <= month <= 12
    &&& 1 <= day <= days_in_month(year, month)
}

/// A calendar date.
#[derive(Clone, Copy, Debug)]
pub struct DateValue {
    year: i32,
    month: u8,
    day: u8,
}

/// The display text of a calendar date in the years -9999 to 9999: `-`
/// for a negative year, the magnitude of the year on at least four
/// digits, `-`, the month on two digits, `-`, the day on two digits.
pub open spec fn date_display(year: i32, month: u8, day: u8) -> Seq<char> {
    (if year < 0 {
        seq!['-']
    } else {
        Seq::empty()
    }) + zero_padded(decimal_digits(magnitude(year as int)), 4) + seq!['-'] + zero_padded(
        decimal_digits(month as nat),
        2,
    ) + seq!['-'] + zero_padded(decimal_digits(day as nat), 2)
}

/// Calls `time::Date::from_calendar_date` (with `time::Month::try_from`)
/// and its `Display` (`fmt_into_buffer` in its `date.rs`), whose text
/// `date_display` writes out for the years that `requires` admits. Both
/// calls succeed on every date that `requires` admits.
#[verifier::external_body]
fn date_text(year: i32, month: u8, day: u8) -> (s: String)
    requires
        valid_date(year as int, month as int, day as int),
    ensures
        s@ == date_display(year, month, day),
{
    match time::Month::try_from(month) {
        Ok(m) => match time::Date::from_calendar_date(year, m, day) {
            Ok(d) => d.to_string(),
            Err(_) => String::new(),
        },
        Err(_) => String::new(),
    }
}

impl DateValue {
    #[verifier::type_invariant]
    spec fn inv(self) -> bool {
        valid_date(self.year as int, self.month as int, self.day as int)
    }

    pub closed spec fn spec_year(self) -> i32 {
        self.year
    }

    pub closed spec fn spec_month(self) -> u8 {
        self.month
    }

    pub closed spec fn spec_day(self) -> u8 {
        self.day
    }

    /// The date `year-month-day`, if it is a calendar date in the years
    /// -9999 to 9999.
    pub fn new(year: i32, month: u8, day: u8) -> (r: Option<Self>)
        ensures
            r is Some <==> valid_date(year as int, month as int, day as int),
            r matches Some(d) ==> d.spec_year() == year && d.spec_month() == month
                && d.spec_day() == day,
    {
        if year < -9999 || year > 9999 || month < 1 || month > 12 || day < 1 {
            return None;
        }
        let leap = year % 4 == 0 && (year % 100 != 0 || year % 400 == 0);
        let days: u8 = if month == 2 {
            if leap { 29 } else { 28 }
        } else if month == 4 || month == 6 || month == 9 || month == 11 {
            30
        } else {
            31
        };
        if day <= days {
            Some(DateValue { year, month, day })
        } else {
            None
        }
    }

    pub fn year(&self) -> (v: i32)
        ensures
            v == self.spec_year(),
    {
        self.year
    }

    pub fn month(&self) -> (v: u8)
        ensures
            v == self.spec_month(),
    {
        self.month
    }

    pub fn day(&self) -> (v: u8)
        ensures
            v == self.spec_day(),
    {
        self.day
    }

    /// The display text of the date.
    pub fn to_display_string(&self) -> (s: String)
        ensures
            s@ == date_display(self.spec_year(), self.spec_month(), self.spec_day()),
    {
        proof {
            use_type_invariant(self);
        }
        date_text(self.year, self.month, self.day)
    }
}

/// A calendar date with a time of day.
#[derive(Clone, Copy, Debug)]
pub struct DateTimeValue {
    pub date: DateValue,
    pub time: TimeValue,
}

/// The display text of a date with a time of day: the date, a space,
/// the time (as `time::PrimitiveDateTime` displays itself).
pub open spec fn date_time_text(d: DateTimeValue) -> Seq<char> {
    date_display(d.date.spec_year(), d.date.spec_month(), d.date.spec_day()) + " "@
        + time_display(
        d.time.spec_hour(),
        d.time.spec_minute(),
        d.time.spec_second(),
        d.time.spec_nanosecond(),
    )
}

impl DateTimeValue {
    /// The display text of the date and time.
    pub fn to_display_string(&self) -> (s: String)
        ensures
            s@ == date_time_text(*self),
    {
        let mut s = self.date.to_display_string();
        s.append(" ");
        let t = self.time.to_display_string();
        s.append(t.as_str());
        s
    }
}


/// A value that a query carries to the database.
///
/// Floating-point numbers travel as the text that Rust displays for
/// them (which reads back to the same number), and JSON documents as
/// their serialized text.
#[derive(Clone, Debug)]
pub enum DatabaseValue {
    Bool(bool),
    SmallInteger(i16),
    UnsignedSmallInteger(u16),
    Integer(i32),
    UnsignedInteger(u32),
    BigInteger(i64),
    UnsignedBigInteger(u64),
    Float(String),
    Double(String),
    Decimal(DecimalValue),
    Binary(Vec<u8>),
    Time(TimeValue),
    Date(DateValue),
    DateTime(DateTimeValue),
    String(String),
    Json(String),
    Null(DatabaseType),
}

/// The column type of a value. An `Integer` reports `UnsignedInteger`,
/// as the conversion this library has always made does.
pub open spec fn type_of_value(v: DatabaseValue) -> DatabaseType {
    match v {
        DatabaseValue::Bool(_) => DatabaseType::Bool,
        DatabaseValue::SmallInteger(_) => DatabaseType::SmallInteger,
        DatabaseValue::UnsignedSmallInteger(_) => DatabaseType::UnsignedSmallInteger,
        DatabaseValue::Integer(_) => DatabaseType::UnsignedInteger,
        DatabaseValue::UnsignedInteger(_) => DatabaseType::UnsignedInteger,
        DatabaseValue::BigInteger(_) => DatabaseType::BigInteger,
        DatabaseValue::UnsignedBigInteger(_) => DatabaseType::UnsignedBigInteger,
        DatabaseValue::Float(_) => DatabaseType::Float,
        DatabaseValue::Double(_) => DatabaseType::Double,
        DatabaseValue::Decimal(_) => DatabaseType::Decimal,
        DatabaseValue::Binary(_) => DatabaseType::Binary,
        DatabaseValue::Time(_) => DatabaseType::Time,
        DatabaseValue::Date(_) => DatabaseType::Date,
        DatabaseValue::DateTime(_) => DatabaseType::DateTime,
        DatabaseValue::String(_) => DatabaseType::String,
        DatabaseValue::Json(_) => DatabaseType::Json,
        DatabaseValue::Null(t) => t,
    }
}

/// The display text of a value.
pub open spec fn value_text(v: DatabaseValue) -> Seq<char> {
    match v {
        DatabaseValue::Bool(b) => bool_text(b),
        DatabaseValue::SmallInteger(i) => signed_text(i as int),
        DatabaseValue::UnsignedSmallInteger(i) => decimal_digits(i as nat),
        DatabaseValue::Integer(i) => signed_text(i as int),
        DatabaseValue::UnsignedInteger(i) => decimal_digits(i as nat),
        DatabaseValue::BigInteger(i) => signed_text(i as int),
        DatabaseValue::UnsignedBigInteger(i) => decimal_digits(i as nat),
        DatabaseValue::Float(t) => t@,
        DatabaseValue::Double(t) => t@,
        DatabaseValue::Decimal(d) => decimal_display(d.spec_mantissa(), d.spec_scale()),
        DatabaseValue::Binary(_) => "BinaryData"@,
        DatabaseValue::Time(t) => time_display(
            t.spec_hour(),
            t.spec_minute(),
            t.spec_second(),
            t.spec_nanosecond(),
        ),
        DatabaseValue::Date(d) => date_display(d.spec_year(), d.spec_month(), d.spec_day()),
        DatabaseValue::DateTime(dt) => date_time_text(dt),
        DatabaseValue::String(s) => "\""@ + s@ + "\""@,
        DatabaseValue::Json(t) => t@,
        DatabaseValue::Null(_) => "NULL"@,
    }
}

impl DatabaseValue {
    /// The column type of the value.
    pub fn database_type(&self) -> (t: DatabaseType)
        ensures
            t == type_of_value(*self),
    {
        match self {
            DatabaseValue::Bool(_) => DatabaseType::Bool,
            DatabaseValue::SmallInteger(_) => DatabaseType::SmallInteger,
            DatabaseValue::UnsignedSmallInteger(_) => DatabaseType::UnsignedSmallInteger,
            DatabaseValue::Integer(_) => DatabaseType::UnsignedInteger,
            DatabaseValue::UnsignedInteger(_) => DatabaseType::UnsignedInteger,
            DatabaseValue::BigInteger(_) => DatabaseType::BigInteger,
            DatabaseValue::UnsignedBigInteger(_) => DatabaseType::UnsignedBigInteger,
            DatabaseValue::Float(_) => DatabaseType::Float,
            DatabaseValue::Double(_) => DatabaseType::Double,
            DatabaseValue::Decimal(_) => DatabaseType::Decimal,
            DatabaseValue::Binary(_) => DatabaseType::Binary,
            DatabaseValue::Time(_) => DatabaseType::Time,
            DatabaseValue::Date(_) => DatabaseType::Date,
            DatabaseValue::DateTime(_) => DatabaseType::DateTime,
            DatabaseValue::String(_) => DatabaseType::String,
            DatabaseValue::Json(_) => DatabaseType::Json,
            DatabaseValue::Null(t) => *t,
        }
    }

    /// The display text of the value.
    pub fn to_display_string(&self) -> (s: String)
        ensures
            s@ == value_text(*self),
    {
        match self {
            DatabaseValue::Bool(b) => bool_string(*b),
            DatabaseValue::SmallInteger(i) => signed_integer_text(*i as i64),
            DatabaseValue::UnsignedSmallInteger(i) => unsigned_text(*i as u64),
            DatabaseValue::Integer(i) => signed_integer_text(*i as i64),
            DatabaseValue::UnsignedInteger(i) => unsigned_text(*i as u64),
            DatabaseValue::BigInteger(i) => signed_integer_text(*i),
            DatabaseValue::UnsignedBigInteger(i) => unsigned_text(*i),
            DatabaseValue::Float(t) => t.clone(),
            DatabaseValue::Double(t) => t.clone(),
            DatabaseValue::Decimal(d) => d.to_display_string(),
            DatabaseValue::Binary(_) => String::from_str("BinaryData"),
            DatabaseValue::Time(t) => t.to_display_string(),
            DatabaseValue::Date(d) => d.to_display_string(),
            DatabaseValue::DateTime(dt) => dt.to_display_string(),
            DatabaseValue::String(s) => {
                let mut out = String::from_str("\"");
                out.append(s.as_str());
                out.append("\"");
                out
            },
            DatabaseValue::Json(t) => t.clone(),
            DatabaseValue::Null(_) => String::from_str("NULL"),
        }
    }
}

/// The column type a `NULL` of column type `t` is bound as: a boolean
/// `NULL` goes as a small integer, every other as its own type.
pub open spec fn null_binding_type_of(t: DatabaseType) -> DatabaseType {
    if t == DatabaseType::Bool {
        DatabaseType::SmallInteger
    } else {
        t
    }
}

/// The column type a `NULL` of column type `t` is bound as (see
/// `null_binding_type_of`).
pub fn null_binding_type(t: DatabaseType) -> (r: DatabaseType)
    ensures
        r == null_binding_type_of(t),
{
    match t {
        DatabaseType::Bool => DatabaseType::SmallInteger,
        _ => t,
    }
}

/// Whether `b` holds the same value as `a`: equal, with byte strings
/// compared by their contents.
pub open spec fn value_equiv(a: DatabaseValue, b: DatabaseValue) -> bool {
    match a {
        DatabaseValue::Binary(x) => b matches DatabaseValue::Binary(y) && x@ == y@,
        _ => a == b,
    }
}

/// Whether two lists hold the same values, position by position.
pub open spec fn values_equiv(a: Seq<DatabaseValue>, b: Seq<DatabaseValue>) -> bool {
    a.len() == b.len() && forall|i: int| 0 <= i < a.len() ==> #[trigger] value_equiv(a[i], b[i])
}

/// A copy of a byte string.
fn copy_bytes(bytes: &Vec<u8>) -> (r: Vec<u8>)
    ensures
        r@ == bytes@,
{
    let mut out: Vec<u8> = Vec::new();
    let n = bytes.len();
    let mut i: usize = 0;
    while i < n
        invariant
            n == bytes@.len(),
            0 <= i <= n,
            out@ == bytes@.take(i as int),
        decreases n - i,
    {
        out.push(bytes[i]);
        i = i + 1;
        assert(out@ =~= bytes@.take(i as int));
    }
    assert(bytes@.take(n as int) =~= bytes@);
    out
}

/// A copy of a value.
pub(crate) fn copy_value(v: &DatabaseValue) -> (r: DatabaseValue)
    ensures
        value_equiv(*v, r),
{
    match v {
        DatabaseValue::Bool(b) => DatabaseValue::Bool(*b),
        DatabaseValue::SmallInteger(i) => DatabaseValue::SmallInteger(*i),
        DatabaseValue::UnsignedSmallInteger(i) => DatabaseValue::UnsignedSmallInteger(*i),
        DatabaseValue::Integer(i) => DatabaseValue::Integer(*i),
        DatabaseValue::UnsignedInteger(i) => DatabaseValue::UnsignedInteger(*i),
        DatabaseValue::BigInteger(i) => DatabaseValue::BigInteger(*i),
        DatabaseValue::UnsignedBigInteger(i) => DatabaseValue::UnsignedBigInteger(*i),
        DatabaseValue::Float(t) => DatabaseValue::Float(t.clone()),
        DatabaseValue::Double(t) => DatabaseValue::Double(t.clone()),
        DatabaseValue::Decimal(d) => DatabaseValue::Decimal(*d),
        DatabaseValue::Binary(b) => DatabaseValue::Binary(copy_bytes(b)),
        DatabaseValue::Time(t) => DatabaseValue::Time(*t),
        DatabaseValue::Date(d) => DatabaseValue::Date(*d),
        DatabaseValue::DateTime(dt) => DatabaseValue::DateTime(*dt),
        DatabaseValue::String(s) => DatabaseValue::String(s.clone()),
        DatabaseValue::Json(t) => DatabaseValue::Json(t.clone()),
        DatabaseValue::Null(t) => DatabaseValue::Null(*t),
    }
}

/// A copy of a list of values.
pub(crate) fn copy_values(values: &Vec<DatabaseValue>) -> (r: Vec<DatabaseValue>)
    ensures
        values_equiv(values@, r@),
{
    let mut out: Vec<DatabaseValue> = Vec::new();
    let n = values.len();
    let mut i: usize = 0;
    while i < n
        invariant
            n == values@.len(),
            0 <= i <= n,
            out@.len() == i,
            forall|j: int| 0 <= j < i ==> #[trigger] value_equiv(values@[j], out@[j]),
        decreases n - i,
    {
        out.push(copy_value(&values[i]));
        i = i + 1;
    }
    out
}

impl Default for DatabaseValue {
    fn default() -> (v: Self)
        ensures
            v == DatabaseValue::Bool(false),
    {
        DatabaseValue::Bool(false)
    }
}

impl From<&DatabaseValue> for DatabaseType {
    /// The column type of a value (see `type_of_value`).
    fn from(database_value: &DatabaseValue) -> (t: DatabaseType) {
        database_value.database_type()
    }
}

impl vstd::std_specs::convert::FromSpecImpl<&DatabaseValue> for DatabaseType {
    open spec fn obeys_from_spec() -> bool {
        true
    }

    open spec fn from_spec(database_value: &DatabaseValue) -> DatabaseType {
        type_of_value(*database_value)
    }
}

} // verus!
