//! Typing the fields of raw records: text decoded as UTF-8, decimal
//! integers of each field's width, dates and times.

use vstd::prelude::*;
use vstd::utf8::{decode_utf8, valid_utf8};
use crate::ast::{
    AccountIdent, AccountIdentField, AccountInfo, AccountInfoField, AccountTrailer,
    AccountTrailerField, Date, DistributedAvailDistribution, DistributedAvailDistributionField,
    FileHeader, FileHeaderField, FileTrailer, FileTrailerField, FundsType, FundsTypeField,
    GroupHeader, GroupHeaderField, GroupTrailer, GroupTrailerField, ParsedAccountIdent,
    ParsedAccountInfo, ParsedAccountTrailer, ParsedDistributedAvailDistribution,
    ParsedFileHeader, ParsedFileTrailer, ParsedFundsType, ParsedGroupHeader, ParsedGroupTrailer,
    ParsedRecord, ParsedTransactionDetail, RawAccountIdent, RawAccountInfo, RawAccountTrailer,
    RawDistributedAvailDistribution, RawFileHeader, RawFileTrailer, RawFundsType, RawGroupHeader,
    RawGroupTrailer, RawRecord, RawTransactionDetail, Record, RecordField, Time,
    TransactionDetail, TransactionDetailField,
};

verus! {

/// Why a field could not be typed, with the field.
#[derive(Debug, Clone, Copy, PartialEq, Eq)]
pub enum ParseError<F, E> {
    /// The bytes are not UTF-8.
    Utf8(F),
    /// The text is not a decimal integer of the field's width.
    Int(F),
    /// The text is not one the field allows.
    Format(F),
    /// A field with a structure of its own failed.
    Error(F, E),
}

pub open spec fn is_digit(b: u8) -> bool {
    48 <= b <= 57
}

pub open spec fn all_digits(s: Seq<u8>) -> bool {
    forall|i: int| 0 <= i < s.len() ==> is_digit(#[trigger] s[i])
}

/// The number that a string of decimal digits writes.
pub open spec fn digits_value(s: Seq<u8>) -> int
    decreases s.len(),
{
    if s.len() == 0 {
        0
    } else {
        digits_value(s.drop_last()) * 10 + (s.last() - 48)
    }
}

/// The integer written by `s`, when it lies in `lo..=hi`: an optional sign
/// (`-` only where `lo` is negative) and one or more decimal digits.
pub open spec fn int_value(s: Seq<u8>, lo: int, hi: int) -> Option<int> {
    let neg = s.len() > 0 && s[0] == 45 && lo < 0;
    let ds = if s.len() > 0 && (s[0] == 43 || neg) {
        s.drop_first()
    } else {
        s
    };
    let v = if neg {
        -digits_value(ds)
    } else {
        digits_value(ds)
    };
    if ds.len() > 0 && all_digits(ds) && lo <= v <= hi {
        Some(v)
    } else {
        None
    }
}

/// The error of a text field.
pub open spec fn str_err<F, E>(b: Seq<u8>, f: F) -> Option<ParseError<F, E>> {
    if valid_utf8(b) {
        None
    } else {
        Some(ParseError::Utf8(f))
    }
}

/// The error of an integer field of range `lo..=hi`.
pub open spec fn num_err<F, E>(b: Seq<u8>, lo: int, hi: int, f: F) -> Option<ParseError<F, E>> {
    if !valid_utf8(b) {
        Some(ParseError::Utf8(f))
    } else if int_value(b, lo, hi) is None {
        Some(ParseError::Int(f))
    } else {
        None
    }
}

pub open spec fn opt_str_err<F, E>(b: Option<&[u8]>, f: F) -> Option<ParseError<F, E>> {
    match b {
        Some(b) => str_err(b@, f),
        None => None,
    }
}

pub open spec fn opt_num_err<F, E>(b: Option<&[u8]>, lo: int, hi: int, f: F) -> Option<
    ParseError<F, E>,
> {
    match b {
        Some(b) => num_err(b@, lo, hi, f),
        None => None,
    }
}

/// The first error of two, in order.
pub open spec fn first<T>(a: Option<T>, b: Option<T>) -> Option<T> {
    if a is Some {
        a
    } else {
        b
    }
}

/// The value of an integer field that has no error.
pub open spec fn num_of(b: Seq<u8>, lo: int, hi: int) -> int {
    int_value(b, lo, hi)->0
}

pub open spec fn opt_num_of(b: Option<&[u8]>, lo: int, hi: int) -> Option<int> {
    match b {
        Some(b) => Some(num_of(b@, lo, hi)),
        None => None,
    }
}

/// The text of a field that has no error.
pub open spec fn str_of(b: Seq<u8>) -> Seq<char> {
    decode_utf8(b)
}

pub open spec fn opt_str_is(s: Option<&str>, b: Option<&[u8]>) -> bool {
    match (s, b) {
        (None, None) => true,
        (Some(s), Some(b)) => s@ == str_of(b@),
        _ => false,
    }
}

pub open spec fn opt_u16_is(v: Option<u16>, b: Option<&[u8]>) -> bool {
    match (v, b) {
        (None, None) => true,
        (Some(v), Some(b)) => v == num_of(b@, 0, u16::MAX as int),
        _ => false,
    }
}

pub open spec fn opt_i64_is(v: Option<i64>, b: Option<&[u8]>) -> bool {
    match (v, b) {
        (None, None) => true,
        (Some(v), Some(b)) => v == num_of(b@, i64::MIN as int, i64::MAX as int),
        _ => false,
    }
}

/// Relies on `std::str::from_utf8`: it accepts exactly the byte strings that
/// are valid UTF-8, and reads their characters.
#[verifier::external_body]
fn utf8_str<'a>(b: &'a [u8]) -> (r: Option<&'a str>)
    ensures
        r is Some <==> valid_utf8(b@),
        r matches Some(s) ==> s@ == decode_utf8(b@),
{
    std::str::from_utf8(b).ok()
}

proof fn lemma_digits_value_nonneg(s: Seq<u8>)
    requires
        all_digits(s),
    ensures
        digits_value(s) >= 0,
    decreases s.len(),
{
    if s.len() > 0 {
        assert(all_digits(s.drop_last()));
        lemma_digits_value_nonneg(s.drop_last());
    }
}

/// A string of digits writes at least what any of its prefixes writes.
proof fn lemma_digits_prefix_le(s: Seq<u8>, k: int)
    requires
        all_digits(s),
        0 <= k <= s.len(),
    ensures
        digits_value(s.take(k)) <= digits_value(s),
    decreases s.len(),
{
    if k < s.len() {
        assert(all_digits(s.drop_last()));
        lemma_digits_prefix_le(s.drop_last(), k);
        assert(s.drop_last().take(k) == s.take(k));
        lemma_digits_value_nonneg(s.drop_last());
    } else {
        assert(s.take(k) == s);
    }
}

/// The number written by the digits of `s` from `start` on, when there is
/// at least one digit, nothing else, and the number is at most `max`.
fn digits_from(s: &[u8], start: usize, max: u64) -> (r: Option<u64>)
    requires
        start <= s@.len(),
    ensures
        r == (if s@.len() > start && all_digits(s@.skip(start as int)) && digits_value(
            s@.skip(start as int),
        ) <= max {
            Some(digits_value(s@.skip(start as int)) as u64)
        } else {
            None
        }),
{
    let ghost t = s@.skip(start as int);
    let mut v: u64 = 0;
    let mut i: usize = start;
    while i < s.len()
        invariant
            start <= i <= s@.len(),
            t == s@.skip(start as int),
            all_digits(t.take(i - start)),
            v == digits_value(t.take(i - start)),
            v <= max,
        decreases s@.len() - i,
    {
        let b = s[i];
        assert(t[i - start] == b);
        if b < 48 || b > 57 {
            return None;
        }
        let d = (b - 48) as u64;
        assert(t.take(i - start + 1).drop_last() == t.take(i - start));
        assert(all_digits(t.take(i - start + 1)));
        if v > max / 10 || max - v * 10 < d {
            proof {
                assert(v * 10 + d > max) by (nonlinear_arith)
                    requires
                        v > max / 10 || max - v * 10 < d,
                        d >= 0,
                        max >= 0,
                ;
                if all_digits(t) {
                    lemma_digits_prefix_le(t, i - start + 1);
                }
            }
            return None;
        }
        v = v * 10 + d;
        i = i + 1;
    }
    assert(t.take(i - start) == t);
    if i == start {
        return None;
    }
    Some(v)
}

/// Reads an unsigned integer of at most `max`: an optional `+` and digits.
fn parse_uint(s: &[u8], max: u64) -> (r: Option<u64>)
    ensures
        r == (match int_value(s@, 0, max as int) {
            Some(v) => Some(v as u64),
            None => None,
        }),
{
    if s.len() > 0 && s[0] == 43 {
        assert(s@.skip(1) == s@.drop_first());
        proof {
            if all_digits(s@.skip(1)) {
                lemma_digits_value_nonneg(s@.skip(1));
            }
        }
        digits_from(s, 1, max)
    } else {
        assert(s@.skip(0) == s@);
        proof {
            if all_digits(s@) {
                lemma_digits_value_nonneg(s@);
            }
        }
        digits_from(s, 0, max)
    }
}

/// Reads a signed 64-bit integer: an optional `+` or `-` and digits.
fn parse_i64(s: &[u8]) -> (r: Option<i64>)
    ensures
        r == (match int_value(s@, i64::MIN as int, i64::MAX as int) {
            Some(v) => Some(v as i64),
            None => None,
        }),
{
    if s.len() > 0 && s[0] == 45 {
        assert(s@.skip(1) == s@.drop_first());
        proof {
            if all_digits(s@.skip(1)) {
                lemma_digits_value_nonneg(s@.skip(1));
            }
        }
        match digits_from(s, 1, 9223372036854775808u64) {
            Some(v) => {
                if v == 9223372036854775808u64 {
                    Some(i64::MIN)
                } else {
                    Some(-(v as i64))
                }
            },
            None => None,
        }
    } else if s.len() > 0 && s[0] == 43 {
        assert(s@.skip(1) == s@.drop_first());
        proof {
            if all_digits(s@.skip(1)) {
                lemma_digits_value_nonneg(s@.skip(1));
            }
        }
        match digits_from(s, 1, i64::MAX as u64) {
            Some(v) => Some(v as i64),
            None => None,
        }
    } else {
        assert(s@.skip(0) == s@);
        proof {
            if all_digits(s@) {
                lemma_digits_value_nonneg(s@);
            }
        }
        match digits_from(s, 0, i64::MAX as u64) {
            Some(v) => Some(v as i64),
            None => None,
        }
    }
}

/// Types a text field.
fn str_field<'a, F: Copy, E>(b: &'a [u8], f: F) -> (r: Result<&'a str, ParseError<F, E>>)
    ensures
        match str_err::<F, E>(b@, f) {
            Some(e) => r == Err::<&str, ParseError<F, E>>(e),
            None => r matches Ok(s) && s@ == str_of(b@),
        },
{
    match utf8_str(b) {
        Some(s) => Ok(s),
        None => Err(ParseError::Utf8(f)),
    }
}

fn opt_str_field<'a, F: Copy, E>(b: Option<&'a [u8]>, f: F) -> (r: Result<
    Option<&'a str>,
    ParseError<F, E>,
>)
    ensures
        match opt_str_err::<F, E>(b, f) {
            Some(e) => r == Err::<Option<&str>, ParseError<F, E>>(e),
            None => r matches Ok(s) && opt_str_is(s, b),
        },
{
    match b {
        Some(b) => match str_field(b, f) {
            Ok(s) => Ok(Some(s)),
            Err(e) => Err(e),
        },
        None => Ok(None),
    }
}

/// Types an unsigned integer field of at most `max`.
fn uint_field<F: Copy, E>(b: &[u8], max: u64, f: F) -> (r: Result<u64, ParseError<F, E>>)
    ensures
        match num_err::<F, E>(b@, 0, max as int, f) {
            Some(e) => r == Err::<u64, ParseError<F, E>>(e),
            None => r matches Ok(v) && v == num_of(b@, 0, max as int),
        },
{
    if utf8_str(b).is_none() {
        return Err(ParseError::Utf8(f));
    }
    match parse_uint(b, max) {
        Some(v) => Ok(v),
        None => Err(ParseError::Int(f)),
    }
}

/// Types a signed 64-bit integer field.
fn i64_field<F: Copy, E>(b: &[u8], f: F) -> (r: Result<i64, ParseError<F, E>>)
    ensures
        match num_err::<F, E>(b@, i64::MIN as int, i64::MAX as int, f) {
            Some(e) => r == Err::<i64, ParseError<F, E>>(e),
            None => r matches Ok(v) && v == num_of(b@, i64::MIN as int, i64::MAX as int),
        },
{
    if utf8_str(b).is_none() {
        return Err(ParseError::Utf8(f));
    }
    match parse_i64(b) {
        Some(v) => Ok(v),
        None => Err(ParseError::Int(f)),
    }
}

fn opt_i64_field<F: Copy, E>(b: Option<&[u8]>, f: F) -> (r: Result<Option<i64>, ParseError<F, E>>)
    ensures
        match opt_num_err::<F, E>(b, i64::MIN as int, i64::MAX as int, f) {
            Some(e) => r == Err::<Option<i64>, ParseError<F, E>>(e),
            None => r matches Ok(v) && opt_i64_is(v, b),
        },
{
    match b {
        Some(b) => match i64_field(b, f) {
            Ok(v) => Ok(Some(v)),
            Err(e) => Err(e),
        },
        None => Ok(None),
    }
}

/// A date field that is not six two-digit parts.
#[derive(Debug, Clone, Copy, PartialEq, Eq, Structural)]
pub enum DateError {
    /// Not six bytes long.
    All,
    Year,
    Month,
    Day,
}

/// A time field that is not four two-digit parts.
#[derive(Debug, Clone, Copy, PartialEq, Eq, Structural)]
pub enum TimeError {
    /// Not four bytes long.
    All,
    Hour,
    Minute,
}

pub open spec fn two_digits(b: Seq<u8>, i: int) -> bool {
    is_digit(b[i]) && is_digit(b[i + 1])
}

pub open spec fn two_digit_value(b: Seq<u8>, i: int) -> int {
    (b[i] - 48) * 10 + (b[i + 1] - 48)
}

/// A date written YYMMDD.
pub open spec fn date_result(b: Seq<u8>) -> Result<Date, DateError> {
    if b.len() != 6 {
        Err(DateError::All)
    } else if !two_digits(b, 0) {
        Err(DateError::Year)
    } else if !two_digits(b, 2) {
        Err(DateError::Month)
    } else if !two_digits(b, 4) {
        Err(DateError::Day)
    } else {
        Ok(
            Date {
                year: two_digit_value(b, 0) as u8,
                month: two_digit_value(b, 2) as u8,
                day: two_digit_value(b, 4) as u8,
            },
        )
    }
}

/// A time written HHMM.
pub open spec fn time_result(b: Seq<u8>) -> Result<Time, TimeError> {
    if b.len() != 4 {
        Err(TimeError::All)
    } else if !two_digits(b, 0) {
        Err(TimeError::Hour)
    } else if !two_digits(b, 2) {
        Err(TimeError::Minute)
    } else {
        Ok(Time { hour: two_digit_value(b, 0) as u8, minute: two_digit_value(b, 2) as u8 })
    }
}

fn two_digit(b: &[u8], i: usize) -> (r: Option<u8>)
    requires
        i + 1 < b@.len(),
    ensures
        r == (if two_digits(b@, i as int) {
            Some(two_digit_value(b@, i as int) as u8)
        } else {
            None
        }),
{
    let h = b[i];
    let l = b[i + 1];
    if 48 <= h && h <= 57 && 48 <= l && l <= 57 {
        Some((h - 48) * 10 + (l - 48))
    } else {
        None
    }
}

impl Date {
    /// Reads a date written YYMMDD.
    pub fn from_bytes(b: &[u8]) -> (r: Result<Date, DateError>)
        ensures
            r == date_result(b@),
    {
        if b.len() != 6 {
            return Err(DateError::All);
        }
        let year = match two_digit(b, 0) {
            Some(v) => v,
            None => return Err(DateError::Year),
        };
        let month = match two_digit(b, 2) {
            Some(v) => v,
            None => return Err(DateError::Month),
        };
        let day = match two_digit(b, 4) {
            Some(v) => v,
            None => return Err(DateError::Day),
        };
        Ok(Date { year, month, day })
    }
}

impl std::str::FromStr for Date {
    type Err = DateError;

    fn from_str(s: &str) -> Result<Date, DateError> {
        Date::from_bytes(s.as_bytes())
    }
}

impl std::str::FromStr for Time {
    type Err = TimeError;

    fn from_str(s: &str) -> Result<Time, TimeError> {
        Time::from_bytes(s.as_bytes())
    }
}

impl Time {
    /// Reads a time written HHMM.
    pub fn from_bytes(b: &[u8]) -> (r: Result<Time, TimeError>)
        ensures
            r == time_result(b@),
    {
        if b.len() != 4 {
            return Err(TimeError::All);
        }
        let hour = match two_digit(b, 0) {
            Some(v) => v,
            None => return Err(TimeError::Hour),
        };
        let minute = match two_digit(b, 2) {
            Some(v) => v,
            None => return Err(TimeError::Minute),
        };
        Ok(Time { hour, minute })
    }
}

pub open spec fn opt_u8_is(v: Option<u8>, b: Option<&[u8]>) -> bool {
    match (v, b) {
        (None, None) => true,
        (Some(v), Some(b)) => v == num_of(b@, 0, u8::MAX as int),
        _ => false,
    }
}

pub open spec fn opt_u32_is(v: Option<u32>, b: Option<&[u8]>) -> bool {
    match (v, b) {
        (None, None) => true,
        (Some(v), Some(b)) => v == num_of(b@, 0, u32::MAX as int),
        _ => false,
    }
}

pub open spec fn opt_u64_is(v: Option<u64>, b: Option<&[u8]>) -> bool {
    match (v, b) {
        (None, None) => true,
        (Some(v), Some(b)) => v == num_of(b@, 0, u64::MAX as int),
        _ => false,
    }
}

fn opt_u8_field<F: Copy, E>(b: Option<&[u8]>, f: F) -> (r: Result<Option<u8>, ParseError<F, E>>)
    ensures
        match opt_num_err::<F, E>(b, 0, u8::MAX as int, f) {
            Some(e) => r == Err::<Option<u8>, ParseError<F, E>>(e),
            None => r matches Ok(v) && opt_u8_is(v, b),
        },
{
    match b {
        Some(b) => match uint_field(b, u8::MAX as u64, f) {
            Ok(v) => Ok(Some(v as u8)),
            Err(e) => Err(e),
        },
        None => Ok(None),
    }
}

fn opt_u16_field<F: Copy, E>(b: Option<&[u8]>, f: F) -> (r: Result<Option<u16>, ParseError<F, E>>)
    ensures
        match opt_num_err::<F, E>(b, 0, u16::MAX as int, f) {
            Some(e) => r == Err::<Option<u16>, ParseError<F, E>>(e),
            None => r matches Ok(v) && opt_u16_is(v, b),
        },
{
    match b {
        Some(b) => match uint_field(b, u16::MAX as u64, f) {
            Ok(v) => Ok(Some(v as u16)),
            Err(e) => Err(e),
        },
        None => Ok(None),
    }
}

fn opt_u32_field<F: Copy, E>(b: Option<&[u8]>, f: F) -> (r: Result<Option<u32>, ParseError<F, E>>)
    ensures
        match opt_num_err::<F, E>(b, 0, u32::MAX as int, f) {
            Some(e) => r == Err::<Option<u32>, ParseError<F, E>>(e),
            None => r matches Ok(v) && opt_u32_is(v, b),
        },
{
    match b {
        Some(b) => match uint_field(b, u32::MAX as u64, f) {
            Ok(v) => Ok(Some(v as u32)),
            Err(e) => Err(e),
        },
        None => Ok(None),
    }
}

fn opt_u64_field<F: Copy, E>(b: Option<&[u8]>, f: F) -> (r: Result<Option<u64>, ParseError<F, E>>)
    ensures
        match opt_num_err::<F, E>(b, 0, u64::MAX as int, f) {
            Some(e) => r == Err::<Option<u64>, ParseError<F, E>>(e),
            None => r matches Ok(v) && opt_u64_is(v, b),
        },
{
    match b {
        Some(b) => match uint_field(b, u64::MAX, f) {
            Ok(v) => Ok(Some(v)),
            Err(e) => Err(e),
        },
        None => Ok(None),
    }
}

/// The error of a date field; `wrap` carries a date error into the field's
/// error type.
pub open spec fn date_err<F, E>(b: Seq<u8>, f: F, wrap: spec_fn(DateError) -> E) -> Option<
    ParseError<F, E>,
> {
    if !valid_utf8(b) {
        Some(ParseError::Utf8(f))
    } else {
        match date_result(b) {
            Err(e) => Some(ParseError::Error(f, wrap(e))),
            Ok(_) => None,
        }
    }
}

/// The error of a time field.
pub open spec fn time_err<F, E>(b: Seq<u8>, f: F, wrap: spec_fn(TimeError) -> E) -> Option<
    ParseError<F, E>,
> {
    if !valid_utf8(b) {
        Some(ParseError::Utf8(f))
    } else {
        match time_result(b) {
            Err(e) => Some(ParseError::Error(f, wrap(e))),
            Ok(_) => None,
        }
    }
}

pub open spec fn opt_time_err<F, E>(b: Option<&[u8]>, f: F, wrap: spec_fn(TimeError) -> E) -> Option<
    ParseError<F, E>,
> {
    match b {
        Some(b) => time_err(b@, f, wrap),
        None => None,
    }
}

pub open spec fn opt_time_is(t: Option<Time>, b: Option<&[u8]>) -> bool {
    match (t, b) {
        (None, None) => true,
        (Some(t), Some(b)) => time_result(b@) == Ok::<Time, TimeError>(t),
        _ => false,
    }
}

#[derive(Debug, Clone, Copy, PartialEq, Eq)]
pub enum FileHeaderError {
    Date(DateError),
    Time(TimeError),
}

/// The version field must be exactly `2`.
pub open spec fn version_err(b: Seq<u8>) -> Option<ParseError<FileHeaderField, FileHeaderError>> {
    if !valid_utf8(b) {
        Some(ParseError::Utf8(FileHeaderField::VersionNumber))
    } else if b != seq![50u8] {
        Some(ParseError::Format(FileHeaderField::VersionNumber))
    } else {
        None
    }
}

/// The first field of a file header before its version, in order, that
/// cannot be typed.
pub open spec fn file_header_fields_error(h: RawFileHeader) -> Option<
    ParseError<FileHeaderField, FileHeaderError>,
> {
    first(
        str_err(h.sender_ident@, FileHeaderField::SenderIdent),
        first(
            str_err(h.receiver_ident@, FileHeaderField::ReceiverIdent),
            first(
                date_err(
                    h.creation_date@,
                    FileHeaderField::CreationDate,
                    |e: DateError| FileHeaderError::Date(e),
                ),
                first(
                    time_err(
                        h.creation_time@,
                        FileHeaderField::CreationTime,
                        |e: TimeError| FileHeaderError::Time(e),
                    ),
                    first(
                        num_err(h.ident_num@, 0, u32::MAX as int, FileHeaderField::IdentNum),
                        first(
                            opt_num_err(
                                h.physical_record_len,
                                0,
                                u16::MAX as int,
                                FileHeaderField::PhysicalRecordLen,
                            ),
                            opt_num_err(
                                h.block_size,
                                0,
                                u16::MAX as int,
                                FileHeaderField::BlockSize,
                            ),
                        ),
                    ),
                ),
            ),
        ),
    )
}

/// The first field of a file header, in order, that cannot be typed.
pub open spec fn file_header_error(h: RawFileHeader) -> Option<
    ParseError<FileHeaderField, FileHeaderError>,
> {
    first(file_header_fields_error(h), version_err(h.version_number@))
}

/// A file header whose version is not the single byte `2` always fails;
/// when its other fields are well-formed, it fails on its version.
pub proof fn lemma_version_gate(h: RawFileHeader)
    requires
        h.version_number@ != seq![50u8],
    ensures
        file_header_error(h) is Some,
        file_header_fields_error(h) is None ==> (file_header_error(h) == Some(
            ParseError::<FileHeaderField, FileHeaderError>::Utf8(FileHeaderField::VersionNumber),
        ) || file_header_error(h) == Some(
            ParseError::<FileHeaderField, FileHeaderError>::Format(FileHeaderField::VersionNumber),
        )),
{
}

/// A time field reads as the end-of-day time 99:99 exactly when it is
/// `9999`.
pub proof fn lemma_end_of_day_field(b: Seq<u8>)
    ensures
        time_result(b) matches Ok(t) ==> ((t.hour == 99 && t.minute == 99) <==> b == seq![
            57u8,
            57u8,
            57u8,
            57u8,
        ]),
{
    if b == seq![57u8, 57u8, 57u8, 57u8] {
        assert(b[0] == 57 && b[1] == 57 && b[2] == 57 && b[3] == 57);
    }
    match time_result(b) {
        Ok(t) => {
            if t.hour == 99 && t.minute == 99 {
                assert(b =~= seq![57u8, 57u8, 57u8, 57u8]);
            }
        },
        Err(_) => {},
    }
}

/// `p` holds the typed fields of `h`.
pub open spec fn file_header_parsed(h: RawFileHeader, p: ParsedFileHeader) -> bool {
    &&& p.sender_ident@ == str_of(h.sender_ident@)
    &&& p.receiver_ident@ == str_of(h.receiver_ident@)
    &&& date_result(h.creation_date@) == Ok::<Date, DateError>(p.creation_date)
    &&& time_result(h.creation_time@) == Ok::<Time, TimeError>(p.creation_time)
    &&& p.ident_num == num_of(h.ident_num@, 0, u32::MAX as int)
    &&& opt_u16_is(p.physical_record_len, h.physical_record_len)
    &&& opt_u16_is(p.block_size, h.block_size)
}

impl FileHeader {
    /// Types the fields of a file header; only version 2 is accepted.
    pub fn parse<'a>(raw: &RawFileHeader<'a>) -> (r: Result<
        ParsedFileHeader<'a>,
        ParseError<FileHeaderField, FileHeaderError>,
    >)
        ensures
            match file_header_error(*raw) {
                Some(e) => r == Err::<ParsedFileHeader, ParseError<FileHeaderField, FileHeaderError>>(e),
                None => r matches Ok(p) && file_header_parsed(*raw, p),
            },
    {
        let sender_ident = str_field(raw.sender_ident, FileHeaderField::SenderIdent)?;
        let receiver_ident = str_field(raw.receiver_ident, FileHeaderField::ReceiverIdent)?;
        if utf8_str(raw.creation_date).is_none() {
            return Err(ParseError::Utf8(FileHeaderField::CreationDate));
        }
        let creation_date = match Date::from_bytes(raw.creation_date) {
            Ok(d) => d,
            Err(e) => return Err(
                ParseError::Error(FileHeaderField::CreationDate, FileHeaderError::Date(e)),
            ),
        };
        if utf8_str(raw.creation_time).is_none() {
            return Err(ParseError::Utf8(FileHeaderField::CreationTime));
        }
        let creation_time = match Time::from_bytes(raw.creation_time) {
            Ok(t) => t,
            Err(e) => return Err(
                ParseError::Error(FileHeaderField::CreationTime, FileHeaderError::Time(e)),
            ),
        };
        let ident_num = uint_field(raw.ident_num, u32::MAX as u64, FileHeaderField::IdentNum)?;
        let physical_record_len = opt_u16_field(
            raw.physical_record_len,
            FileHeaderField::PhysicalRecordLen,
        )?;
        let block_size = opt_u16_field(raw.block_size, FileHeaderField::BlockSize)?;
        if utf8_str(raw.version_number).is_none() {
            return Err(ParseError::Utf8(FileHeaderField::VersionNumber));
        }
        if !(raw.version_number.len() == 1 && raw.version_number[0] == 50) {
            proof {
                if raw.version_number@ == seq![50u8] {
                    assert(raw.version_number@[0] == 50u8);
                }
            }
            return Err(ParseError::Format(FileHeaderField::VersionNumber));
        }
        assert(raw.version_number@ == seq![50u8]);
        Ok(
            ParsedFileHeader {
                sender_ident,
                receiver_ident,
                creation_date,
                creation_time,
                ident_num: ident_num as u32,
                physical_record_len,
                block_size,
            },
        )
    }
}

#[derive(Debug, Clone, Copy, PartialEq, Eq)]
pub enum GroupHeaderError {
    Date(DateError),
    Time(TimeError),
}

/// The first field of a group header, in order, that cannot be typed.
pub open spec fn group_header_error(h: RawGroupHeader) -> Option<
    ParseError<GroupHeaderField, GroupHeaderError>,
> {
    first(
        opt_str_err(h.ultimate_receiver_ident, GroupHeaderField::UltimateReceiverIdent),
        first(
            opt_str_err(h.originator_ident, GroupHeaderField::OriginatorIdent),
            first(
                num_err(h.status@, 0, u8::MAX as int, GroupHeaderField::Status),
                first(
                    date_err(
                        h.as_of_date@,
                        GroupHeaderField::AsOfDate,
                        |e: DateError| GroupHeaderError::Date(e),
                    ),
                    first(
                        opt_time_err(
                            h.as_of_time,
                            GroupHeaderField::AsOfTime,
                            |e: TimeError| GroupHeaderError::Time(e),
                        ),
                        first(
                            opt_str_err(h.currency, GroupHeaderField::Currency),
                            opt_num_err(
                                h.as_of_date_mod,
                                0,
                                u8::MAX as int,
                                GroupHeaderField::AsOfDateMod,
                            ),
                        ),
                    ),
                ),
            ),
        ),
    )
}

/// `p` holds the typed fields of `h`.
pub open spec fn group_header_parsed(h: RawGroupHeader, p: ParsedGroupHeader) -> bool {
    &&& opt_str_is(p.ultimate_receiver_ident, h.ultimate_receiver_ident)
    &&& opt_str_is(p.originator_ident, h.originator_ident)
    &&& p.status == num_of(h.status@, 0, u8::MAX as int)
    &&& date_result(h.as_of_date@) == Ok::<Date, DateError>(p.as_of_date)
    &&& opt_time_is(p.as_of_time, h.as_of_time)
    &&& opt_str_is(p.currency, h.currency)
    &&& opt_u8_is(p.as_of_date_mod, h.as_of_date_mod)
}

impl GroupHeader {
    /// Types the fields of a group header.
    pub fn parse<'a>(raw: &RawGroupHeader<'a>) -> (r: Result<
        ParsedGroupHeader<'a>,
        ParseError<GroupHeaderField, GroupHeaderError>,
    >)
        ensures
            match group_header_error(*raw) {
                Some(e) => r == Err::<ParsedGroupHeader, ParseError<GroupHeaderField, GroupHeaderError>>(e),
                None => r matches Ok(p) && group_header_parsed(*raw, p),
            },
    {
        let ultimate_receiver_ident = opt_str_field(
            raw.ultimate_receiver_ident,
            GroupHeaderField::UltimateReceiverIdent,
        )?;
        let originator_ident = opt_str_field(
            raw.originator_ident,
            GroupHeaderField::OriginatorIdent,
        )?;
        let status = uint_field(raw.status, u8::MAX as u64, GroupHeaderField::Status)?;
        if utf8_str(raw.as_of_date).is_none() {
            return Err(ParseError::Utf8(GroupHeaderField::AsOfDate));
        }
        let as_of_date = match Date::from_bytes(raw.as_of_date) {
            Ok(d) => d,
            Err(e) => return Err(
                ParseError::Error(GroupHeaderField::AsOfDate, GroupHeaderError::Date(e)),
            ),
        };
        let as_of_time = match raw.as_of_time {
            None => None,
            Some(b) => {
                if utf8_str(b).is_none() {
                    return Err(ParseError::Utf8(GroupHeaderField::AsOfTime));
                }
                match Time::from_bytes(b) {
                    Ok(t) => Some(t),
                    Err(e) => return Err(
                        ParseError::Error(GroupHeaderField::AsOfTime, GroupHeaderError::Time(e)),
                    ),
                }
            },
        };
        let currency = opt_str_field(raw.currency, GroupHeaderField::Currency)?;
        let as_of_date_mod = opt_u8_field(raw.as_of_date_mod, GroupHeaderField::AsOfDateMod)?;
        Ok(
            ParsedGroupHeader {
                ultimate_receiver_ident,
                originator_ident,
                status: status as u8,
                as_of_date,
                as_of_time,
                currency,
                as_of_date_mod,
            },
        )
    }
}

/// The first field of a distribution that cannot be typed.
pub open spec fn dist_error(d: RawDistributedAvailDistribution) -> Option<
    ParseError<DistributedAvailDistributionField, ()>,
> {
    first(
        num_err(d.days@, 0, u32::MAX as int, DistributedAvailDistributionField::Days),
        num_err(
            d.amount@,
            i64::MIN as int,
            i64::MAX as int,
            DistributedAvailDistributionField::Amount,
        ),
    )
}

pub open spec fn dist_parsed(
    d: RawDistributedAvailDistribution,
    p: ParsedDistributedAvailDistribution,
) -> bool {
    p.days == num_of(d.days@, 0, u32::MAX as int) && p.amount == num_of(
        d.amount@,
        i64::MIN as int,
        i64::MAX as int,
    )
}

impl DistributedAvailDistribution {
    /// Types the days and amount of one distribution.
    pub fn parse<'a>(raw: &RawDistributedAvailDistribution<'a>) -> (r: Result<
        ParsedDistributedAvailDistribution,
        ParseError<DistributedAvailDistributionField, ()>,
    >)
        ensures
            match dist_error(*raw) {
                Some(e) => r == Err::<
                    ParsedDistributedAvailDistribution,
                    ParseError<DistributedAvailDistributionField, ()>,
                >(e),
                None => r matches Ok(p) && dist_parsed(*raw, p),
            },
    {
        let days = uint_field(raw.days, u32::MAX as u64, DistributedAvailDistributionField::Days)?;
        let amount = i64_field(raw.amount, DistributedAvailDistributionField::Amount)?;
        Ok(ParsedDistributedAvailDistribution { days: days as u32, amount })
    }
}

#[derive(Debug, Clone, Copy, PartialEq, Eq)]
pub enum FundsTypeError {
    Date(DateError),
    Time(TimeError),
    /// The distribution at this index failed.
    DistributedAvailDDist(usize, ParseError<DistributedAvailDistributionField, ()>),
}

/// The first distribution, by index, that cannot be typed.
pub open spec fn dists_error(ds: Seq<RawDistributedAvailDistribution>) -> Option<
    (int, ParseError<DistributedAvailDistributionField, ()>),
>
    decreases ds.len(),
{
    if ds.len() == 0 {
        None
    } else {
        match dists_error(ds.drop_last()) {
            Some(x) => Some(x),
            None => match dist_error(ds.last()) {
                Some(e) => Some(((ds.len() - 1) as int, e)),
                None => None,
            },
        }
    }
}

proof fn lemma_dists_error_extends(ds: Seq<RawDistributedAvailDistribution>, k: int)
    requires
        0 <= k <= ds.len(),
        dists_error(ds.take(k)) is Some,
    ensures
        dists_error(ds) == dists_error(ds.take(k)),
    decreases ds.len() - k,
{
    if k < ds.len() {
        assert(ds.take(k + 1).drop_last() == ds.take(k));
        lemma_dists_error_extends(ds, k + 1);
    } else {
        assert(ds.take(k) == ds);
    }
}

/// The error of a funds type, if any.
pub open spec fn funds_type_error(f: RawFundsType) -> Option<ParseError<FundsTypeField, FundsTypeError>> {
    match f {
        RawFundsType::DistributedAvailS { immediate, one_day, more_than_one_day } => first(
            opt_num_err(
                immediate,
                i64::MIN as int,
                i64::MAX as int,
                FundsTypeField::DistributedAvailSImmediate,
            ),
            first(
                opt_num_err(
                    one_day,
                    i64::MIN as int,
                    i64::MAX as int,
                    FundsTypeField::DistributedAvailSOneDay,
                ),
                opt_num_err(
                    more_than_one_day,
                    i64::MIN as int,
                    i64::MAX as int,
                    FundsTypeField::DistributedAvailSMoreThanOneDay,
                ),
            ),
        ),
        RawFundsType::ValueDated { date, time } => first(
            date_err(date@, FundsTypeField::ValueDatedDate, |e: DateError| FundsTypeError::Date(e)),
            opt_time_err(time, FundsTypeField::ValueDatedTime, |e: TimeError| FundsTypeError::Time(e)),
        ),
        RawFundsType::DistributedAvailD { num, dists } => first(
            num_err(num@, 0, usize::MAX as int, FundsTypeField::DistributedAvailDNum),
            match dists_error(dists@) {
                Some((i, e)) => Some(
                    ParseError::Error(
                        FundsTypeField::DistributedAvailDDists,
                        FundsTypeError::DistributedAvailDDist(i as usize, e),
                    ),
                ),
                None => None,
            },
        ),
        _ => None,
    }
}

/// `p` is the typed funds type `f`.
pub open spec fn funds_type_parsed(f: RawFundsType, p: ParsedFundsType) -> bool {
    match f {
        RawFundsType::Unknown => p is Unknown,
        RawFundsType::ImmediateAvail => p is ImmediateAvail,
        RawFundsType::OneDayAvail => p is OneDayAvail,
        RawFundsType::TwoOrMoreDaysAvail => p is TwoOrMoreDaysAvail,
        RawFundsType::DistributedAvailS { immediate, one_day, more_than_one_day } => {
            &&& p is DistributedAvailS
            &&& opt_i64_is(p->immediate, immediate)
            &&& opt_i64_is(p->one_day, one_day)
            &&& opt_i64_is(p->more_than_one_day, more_than_one_day)
        },
        RawFundsType::ValueDated { date, time } => {
            &&& p is ValueDated
            &&& date_result(date@) == Ok::<Date, DateError>(p->date)
            &&& opt_time_is(p->time, time)
        },
        RawFundsType::DistributedAvailD { num, dists } => {
            &&& p is DistributedAvailD
            &&& p->num == num_of(num@, 0, usize::MAX as int)
            &&& p->dists@.len() == dists@.len()
            &&& forall|i: int| 0 <= i < dists@.len() ==> dist_parsed(dists@[i], p->dists@[i])
        },
    }
}

pub open spec fn opt_funds_type_error(f: Option<RawFundsType>) -> Option<ParseError<FundsTypeField, FundsTypeError>> {
    match f {
        Some(f) => funds_type_error(f),
        None => None,
    }
}

pub open spec fn opt_funds_type_parsed(f: Option<RawFundsType>, p: Option<ParsedFundsType>) -> bool {
    match (f, p) {
        (None, None) => true,
        (Some(f), Some(p)) => funds_type_parsed(f, p),
        _ => false,
    }
}

impl FundsType {
    /// Types the sub-fields of a funds type.
    pub fn parse<'a>(raw: &RawFundsType<'a>) -> (r: Result<
        ParsedFundsType,
        ParseError<FundsTypeField, FundsTypeError>,
    >)
        ensures
            match funds_type_error(*raw) {
                Some(e) => r == Err::<ParsedFundsType, ParseError<FundsTypeField, FundsTypeError>>(e),
                None => r matches Ok(p) && funds_type_parsed(*raw, p),
            },
    {
        match raw {
            RawFundsType::Unknown => Ok(ParsedFundsType::Unknown),
            RawFundsType::ImmediateAvail => Ok(ParsedFundsType::ImmediateAvail),
            RawFundsType::OneDayAvail => Ok(ParsedFundsType::OneDayAvail),
            RawFundsType::TwoOrMoreDaysAvail => Ok(ParsedFundsType::TwoOrMoreDaysAvail),
            RawFundsType::DistributedAvailS { immediate, one_day, more_than_one_day } => {
                let immediate = opt_i64_field(*immediate, FundsTypeField::DistributedAvailSImmediate)?;
                let one_day = opt_i64_field(*one_day, FundsTypeField::DistributedAvailSOneDay)?;
                let more_than_one_day = opt_i64_field(
                    *more_than_one_day,
                    FundsTypeField::DistributedAvailSMoreThanOneDay,
                )?;
                Ok(ParsedFundsType::DistributedAvailS { immediate, one_day, more_than_one_day })
            },
            RawFundsType::ValueDated { date, time } => {
                if utf8_str(date).is_none() {
                    return Err(ParseError::Utf8(FundsTypeField::ValueDatedDate));
                }
                let date = match Date::from_bytes(date) {
                    Ok(d) => d,
                    Err(e) => return Err(
                        ParseError::Error(FundsTypeField::ValueDatedDate, FundsTypeError::Date(e)),
                    ),
                };
                let time = match time {
                    None => None,
                    Some(b) => {
                        if utf8_str(b).is_none() {
                            return Err(ParseError::Utf8(FundsTypeField::ValueDatedTime));
                        }
                        match Time::from_bytes(b) {
                            Ok(t) => Some(t),
                            Err(e) => return Err(
                                ParseError::Error(
                                    FundsTypeField::ValueDatedTime,
                                    FundsTypeError::Time(e),
                                ),
                            ),
                        }
                    },
                };
                Ok(ParsedFundsType::ValueDated { date, time })
            },
            RawFundsType::DistributedAvailD { num, dists } => {
                let declared = uint_field(
                    num,
                    usize::MAX as u64,
                    FundsTypeField::DistributedAvailDNum,
                )?;
                let n = dists.len();
                let mut out: Vec<ParsedDistributedAvailDistribution> = Vec::new();
                let mut i: usize = 0;
                #[verifier::loop_isolation(false)]
                while i < n
                    invariant
                        n == dists@.len(),
                        i <= n,
                        out@.len() == i,
                        dists_error(dists@.take(i as int)) is None,
                        forall|j: int| 0 <= j < i ==> dist_parsed(dists@[j], out@[j]),
                        num_err::<FundsTypeField, FundsTypeError>(
                            num@,
                            0,
                            usize::MAX as int,
                            FundsTypeField::DistributedAvailDNum,
                        ) is None,
                        declared == num_of(num@, 0, usize::MAX as int),
                    decreases n - i,
                {
                    assert(dists@.take(i as int + 1).drop_last() == dists@.take(i as int));
                    match DistributedAvailDistribution::parse(&dists[i]) {
                        Ok(d) => {
                            assert(dists@.take(i as int + 1).last() == dists@[i as int]);
                            out.push(d);
                        },
                        Err(e) => {
                            proof {
                                assert(dists@.take(i as int + 1).last() == dists@[i as int]);
                                assert(dists_error(dists@.take(i as int + 1)) == Some(
                                    (i as int, e),
                                ));
                                lemma_dists_error_extends(dists@, i as int + 1);
                            }
                            return Err(
                                ParseError::Error(
                                    FundsTypeField::DistributedAvailDDists,
                                    FundsTypeError::DistributedAvailDDist(i, e),
                                ),
                            );
                        },
                    }
                    i = i + 1;
                }
                assert(dists@.take(n as int) == dists@);
                Ok(ParsedFundsType::DistributedAvailD { num: declared as usize, dists: out })
            },
        }
    }
}

fn opt_funds_type<'a>(f: &Option<RawFundsType<'a>>) -> (r: Result<
    Option<ParsedFundsType>,
    ParseError<FundsTypeField, FundsTypeError>,
>)
    ensures
        match opt_funds_type_error(*f) {
            Some(e) => r == Err::<Option<ParsedFundsType>, ParseError<FundsTypeField, FundsTypeError>>(e),
            None => r matches Ok(p) && opt_funds_type_parsed(*f, p),
        },
{
    match f {
        Some(f) => match FundsType::parse(f) {
            Ok(p) => Ok(Some(p)),
            Err(e) => Err(e),
        },
        None => Ok(None),
    }
}

#[derive(Debug, Clone, Copy, PartialEq, Eq)]
pub enum AccountInfoError {
    FundsType(ParseError<FundsTypeField, FundsTypeError>),
}

/// The first field of an account info tuple that cannot be typed.
pub open spec fn account_info_error(a: RawAccountInfo) -> Option<
    ParseError<AccountInfoField, AccountInfoError>,
> {
    first(
        opt_num_err(a.type_code, 0, u16::MAX as int, AccountInfoField::TypeCode),
        first(
            opt_num_err(a.amount, i64::MIN as int, i64::MAX as int, AccountInfoField::Amount),
            first(
                opt_num_err(a.item_count, 0, u32::MAX as int, AccountInfoField::ItemCount),
                match opt_funds_type_error(a.funds_type) {
                    Some(e) => Some(
                        ParseError::Error(AccountInfoField::FundsType, AccountInfoError::FundsType(e)),
                    ),
                    None => None,
                },
            ),
        ),
    )
}

pub open spec fn account_info_parsed(a: RawAccountInfo, p: ParsedAccountInfo) -> bool {
    &&& opt_u16_is(p.type_code, a.type_code)
    &&& opt_i64_is(p.amount, a.amount)
    &&& opt_u32_is(p.item_count, a.item_count)
    &&& opt_funds_type_parsed(a.funds_type, p.funds_type)
}

impl AccountInfo {
    /// Types the fields of one account info tuple.
    pub fn parse<'a>(raw: &RawAccountInfo<'a>) -> (r: Result<
        ParsedAccountInfo,
        ParseError<AccountInfoField, AccountInfoError>,
    >)
        ensures
            match account_info_error(*raw) {
                Some(e) => r == Err::<ParsedAccountInfo, ParseError<AccountInfoField, AccountInfoError>>(e),
                None => r matches Ok(p) && account_info_parsed(*raw, p),
            },
    {
        let type_code = opt_u16_field(raw.type_code, AccountInfoField::TypeCode)?;
        let amount = opt_i64_field(raw.amount, AccountInfoField::Amount)?;
        let item_count = opt_u32_field(raw.item_count, AccountInfoField::ItemCount)?;
        let funds_type = match opt_funds_type(&raw.funds_type) {
            Ok(f) => f,
            Err(e) => return Err(
                ParseError::Error(AccountInfoField::FundsType, AccountInfoError::FundsType(e)),
            ),
        };
        Ok(ParsedAccountInfo { type_code, amount, item_count, funds_type })
    }
}

#[derive(Debug, Clone, Copy, PartialEq, Eq)]
pub enum AccountIdentError {
    /// The tuple at this index failed.
    Info(usize, ParseError<AccountInfoField, AccountInfoError>),
}

/// The first tuple, by index, that cannot be typed.
pub open spec fn infos_error(s: Seq<RawAccountInfo>) -> Option<
    (int, ParseError<AccountInfoField, AccountInfoError>),
>
    decreases s.len(),
{
    if s.len() == 0 {
        None
    } else {
        match infos_error(s.drop_last()) {
            Some(x) => Some(x),
            None => match account_info_error(s.last()) {
                Some(e) => Some(((s.len() - 1) as int, e)),
                None => None,
            },
        }
    }
}

proof fn lemma_infos_error_extends(s: Seq<RawAccountInfo>, k: int)
    requires
        0 <= k <= s.len(),
        infos_error(s.take(k)) is Some,
    ensures
        infos_error(s) == infos_error(s.take(k)),
    decreases s.len() - k,
{
    if k < s.len() {
        assert(s.take(k + 1).drop_last() == s.take(k));
        lemma_infos_error_extends(s, k + 1);
    } else {
        assert(s.take(k) == s);
    }
}

/// The first field of an account identifier that cannot be typed.
pub open spec fn account_ident_error(a: RawAccountIdent) -> Option<
    ParseError<AccountIdentField, AccountIdentError>,
> {
    first(
        str_err(a.customer_account_num@, AccountIdentField::CustomerAccountNum),
        first(
            opt_str_err(a.currency, AccountIdentField::Currency),
            match infos_error(a.infos@) {
                Some((i, e)) => Some(
                    ParseError::Error(AccountIdentField::Infos, AccountIdentError::Info(i as usize, e)),
                ),
                None => None,
            },
        ),
    )
}

pub open spec fn account_ident_parsed(a: RawAccountIdent, p: ParsedAccountIdent) -> bool {
    &&& p.customer_account_num@ == str_of(a.customer_account_num@)
    &&& opt_str_is(p.currency, a.currency)
    &&& p.infos@.len() == a.infos@.len()
    &&& forall|i: int| 0 <= i < a.infos@.len() ==> account_info_parsed(a.infos@[i], p.infos@[i])
}

impl AccountIdent {
    /// Types the fields of an account identifier and each of its tuples.
    pub fn parse<'a>(raw: &RawAccountIdent<'a>) -> (r: Result<
        ParsedAccountIdent<'a>,
        ParseError<AccountIdentField, AccountIdentError>,
    >)
        ensures
            match account_ident_error(*raw) {
                Some(e) => r == Err::<ParsedAccountIdent, ParseError<AccountIdentField, AccountIdentError>>(e),
                None => r matches Ok(p) && account_ident_parsed(*raw, p),
            },
    {
        let customer_account_num = str_field(
            raw.customer_account_num,
            AccountIdentField::CustomerAccountNum,
        )?;
        let currency = opt_str_field(raw.currency, AccountIdentField::Currency)?;
        let n = raw.infos.len();
        let mut infos: Vec<ParsedAccountInfo> = Vec::new();
        let mut i: usize = 0;
        #[verifier::loop_isolation(false)]
        while i < n
            invariant
                n == raw.infos@.len(),
                i <= n,
                infos@.len() == i,
                infos_error(raw.infos@.take(i as int)) is None,
                forall|j: int| 0 <= j < i ==> account_info_parsed(raw.infos@[j], infos@[j]),
            decreases n - i,
        {
            assert(raw.infos@.take(i as int + 1).drop_last() == raw.infos@.take(i as int));
            assert(raw.infos@.take(i as int + 1).last() == raw.infos@[i as int]);
            match AccountInfo::parse(&raw.infos[i]) {
                Ok(p) => infos.push(p),
                Err(e) => {
                    proof {
                        lemma_infos_error_extends(raw.infos@, i as int + 1);
                    }
                    return Err(
                        ParseError::Error(AccountIdentField::Infos, AccountIdentError::Info(i, e)),
                    );
                },
            }
            i = i + 1;
        }
        assert(raw.infos@.take(n as int) == raw.infos@);
        Ok(ParsedAccountIdent { customer_account_num, currency, infos })
    }
}

#[derive(Debug, Clone, Copy, PartialEq, Eq)]
pub enum TransactionDetailError {
    FundsType(ParseError<FundsTypeField, FundsTypeError>),
    /// The text line at this index is not UTF-8.
    Text(usize),
}

/// The bytes of a text's first line: its first byte, then the rest of the
/// line.
pub open spec fn first_line_bytes(seed: u8, lines: Seq<&[u8]>) -> Seq<u8> {
    if lines.len() > 0 {
        seq![seed] + lines[0]@
    } else {
        seq![seed]
    }
}

/// The first line after the first one, by index, that is not UTF-8.
pub open spec fn bad_line(lines: Seq<&[u8]>) -> Option<int>
    decreases lines.len(),
{
    if lines.len() <= 1 {
        None
    } else {
        match bad_line(lines.drop_last()) {
            Some(i) => Some(i),
            None => if !valid_utf8(lines.last()@) {
                Some(lines.len() - 1)
            } else {
                None
            },
        }
    }
}

proof fn lemma_bad_line_extends(lines: Seq<&[u8]>, k: int)
    requires
        0 <= k <= lines.len(),
        bad_line(lines.take(k)) is Some,
    ensures
        bad_line(lines) == bad_line(lines.take(k)),
    decreases lines.len() - k,
{
    if k < lines.len() {
        assert(lines.take(k + 1).drop_last() == lines.take(k));
        lemma_bad_line_extends(lines, k + 1);
    } else {
        assert(lines.take(k) == lines);
    }
}

pub open spec fn text_error(t: Option<(u8, Vec<&[u8]>)>) -> Option<
    ParseError<TransactionDetailField, TransactionDetailError>,
> {
    match t {
        None => None,
        Some((seed, lines)) => if !valid_utf8(first_line_bytes(seed, lines@)) {
            Some(ParseError::Error(TransactionDetailField::Text, TransactionDetailError::Text(0)))
        } else {
            match bad_line(lines@) {
                Some(i) => Some(
                    ParseError::Error(
                        TransactionDetailField::Text,
                        TransactionDetailError::Text(i as usize),
                    ),
                ),
                None => None,
            }
        },
    }
}

/// The typed text: the first line with its first byte in front, then the
/// other lines.
pub open spec fn text_parsed(t: Option<(u8, Vec<&[u8]>)>, p: Option<(String, Vec<&str>)>) -> bool {
    match (t, p) {
        (None, None) => true,
        (Some((seed, lines)), Some((first, rest))) => {
            &&& first@ == str_of(first_line_bytes(seed, lines@))
            &&& rest@.len() == (if lines@.len() > 0 {
                lines@.len() - 1
            } else {
                0
            })
            &&& forall|i: int| 0 <= i < rest@.len() ==> rest@[i]@ == str_of(lines@[i + 1]@)
        },
        _ => false,
    }
}

fn parse_text<'a>(t: &Option<(u8, Vec<&'a [u8]>)>) -> (r: Result<
    Option<(String, Vec<&'a str>)>,
    ParseError<TransactionDetailField, TransactionDetailError>,
>)
    ensures
        match text_error(*t) {
            Some(e) => r == Err::<
                Option<(String, Vec<&str>)>,
                ParseError<TransactionDetailField, TransactionDetailError>,
            >(e),
            None => r matches Ok(p) && text_parsed(*t, p),
        },
{
    match t {
        None => Ok(None),
        Some((seed, lines)) => {
            let mut first_bytes: Vec<u8> = Vec::new();
            first_bytes.push(*seed);
            if lines.len() > 0 {
                let l0: &[u8] = lines[0];
                let mut j: usize = 0;
                while j < l0.len()
                    invariant
                        j <= l0@.len(),
                        first_bytes@ == seq![*seed] + l0@.take(j as int),
                    decreases l0@.len() - j,
                {
                    first_bytes.push(l0[j]);
                    j = j + 1;
                }
                assert(l0@.take(l0@.len() as int) == l0@);
            }
            assert(first_bytes@ == first_line_bytes(*seed, lines@));
            let first = match utf8_str(first_bytes.as_slice()) {
                Some(s) => s.to_owned(),
                None => return Err(
                    ParseError::Error(TransactionDetailField::Text, TransactionDetailError::Text(0)),
                ),
            };
            let n = lines.len();
            let mut rest: Vec<&'a str> = Vec::new();
            let mut i: usize = 1;
            if n > 0 {
                assert(lines@.take(1).len() == 1);
            }
            #[verifier::loop_isolation(false)]
            while i < n
                invariant
                    n == lines@.len(),
                    1 <= i,
                    n > 0 ==> i <= n,
                    n == 0 ==> i == 1,
                    rest@.len() == i - 1,
                    n > 0 ==> bad_line(lines@.take(i as int)) is None,
                    forall|k: int| 0 <= k < i - 1 ==> rest@[k]@ == str_of(lines@[k + 1]@),
                decreases n - i,
            {
                assert(lines@.take(i as int + 1).drop_last() == lines@.take(i as int));
                assert(lines@.take(i as int + 1).last() == lines@[i as int]);
                match utf8_str(lines[i]) {
                    Some(s) => rest.push(s),
                    None => {
                        proof {
                            lemma_bad_line_extends(lines@, i as int + 1);
                        }
                        return Err(
                            ParseError::Error(
                                TransactionDetailField::Text,
                                TransactionDetailError::Text(i),
                            ),
                        );
                    },
                }
                i = i + 1;
            }
            if n > 0 {
                assert(lines@.take(n as int) == lines@);
            }
            Ok(Some((first, rest)))
        },
    }
}

/// The first field of a transaction detail that cannot be typed.
pub open spec fn transaction_detail_error(t: RawTransactionDetail) -> Option<
    ParseError<TransactionDetailField, TransactionDetailError>,
> {
    first(
        num_err(t.type_code@, 0, u16::MAX as int, TransactionDetailField::TypeCode),
        first(
            opt_num_err(t.amount, 0, u64::MAX as int, TransactionDetailField::Amount),
            first(
                match opt_funds_type_error(t.funds_type) {
                    Some(e) => Some(
                        ParseError::Error(
                            TransactionDetailField::FundsType,
                            TransactionDetailError::FundsType(e),
                        ),
                    ),
                    None => None,
                },
                first(
                    opt_str_err(t.bank_ref_num, TransactionDetailField::BankRefNum),
                    first(
                        opt_str_err(t.customer_ref_num, TransactionDetailField::CustomerRefNum),
                        text_error(t.text),
                    ),
                ),
            ),
        ),
    )
}

pub open spec fn transaction_detail_parsed(t: RawTransactionDetail, p: ParsedTransactionDetail) -> bool {
    &&& p.type_code == num_of(t.type_code@, 0, u16::MAX as int)
    &&& opt_u64_is(p.amount, t.amount)
    &&& opt_funds_type_parsed(t.funds_type, p.funds_type)
    &&& opt_str_is(p.bank_ref_num, t.bank_ref_num)
    &&& opt_str_is(p.customer_ref_num, t.customer_ref_num)
    &&& text_parsed(t.text, p.text)
}

impl TransactionDetail {
    /// Types the fields of a transaction detail, its text included.
    pub fn parse<'a>(raw: &RawTransactionDetail<'a>) -> (r: Result<
        ParsedTransactionDetail<'a>,
        ParseError<TransactionDetailField, TransactionDetailError>,
    >)
        ensures
            match transaction_detail_error(*raw) {
                Some(e) => r == Err::<
                    ParsedTransactionDetail,
                    ParseError<TransactionDetailField, TransactionDetailError>,
                >(e),
                None => r matches Ok(p) && transaction_detail_parsed(*raw, p),
            },
    {
        let type_code = uint_field(raw.type_code, u16::MAX as u64, TransactionDetailField::TypeCode)?;
        let amount = opt_u64_field(raw.amount, TransactionDetailField::Amount)?;
        let funds_type = match opt_funds_type(&raw.funds_type) {
            Ok(f) => f,
            Err(e) => return Err(
                ParseError::Error(
                    TransactionDetailField::FundsType,
                    TransactionDetailError::FundsType(e),
                ),
            ),
        };
        let bank_ref_num = opt_str_field(raw.bank_ref_num, TransactionDetailField::BankRefNum)?;
        let customer_ref_num = opt_str_field(
            raw.customer_ref_num,
            TransactionDetailField::CustomerRefNum,
        )?;
        let text = parse_text(&raw.text)?;
        Ok(
            ParsedTransactionDetail {
                type_code: type_code as u16,
                amount,
                funds_type,
                bank_ref_num,
                customer_ref_num,
                text,
            },
        )
    }
}

pub open spec fn account_trailer_error(t: RawAccountTrailer) -> Option<ParseError<AccountTrailerField, ()>> {
    first(
        num_err(t.control_total@, i64::MIN as int, i64::MAX as int, AccountTrailerField::ControlTotal),
        num_err(t.records_num@, 0, usize::MAX as int, AccountTrailerField::RecordsNum),
    )
}

impl AccountTrailer {
    /// Types the control total and record count of an account trailer.
    pub fn parse<'a>(raw: &RawAccountTrailer<'a>) -> (r: Result<
        ParsedAccountTrailer,
        ParseError<AccountTrailerField, ()>,
    >)
        ensures
            match account_trailer_error(*raw) {
                Some(e) => r == Err::<ParsedAccountTrailer, ParseError<AccountTrailerField, ()>>(e),
                None => r == Ok::<ParsedAccountTrailer, ParseError<AccountTrailerField, ()>>(
                    ParsedAccountTrailer {
                        control_total: num_of(raw.control_total@, i64::MIN as int, i64::MAX as int) as i64,
                        records_num: num_of(raw.records_num@, 0, usize::MAX as int) as usize,
                    },
                ),
            },
    {
        let control_total = i64_field(raw.control_total, AccountTrailerField::ControlTotal)?;
        let records_num = uint_field(raw.records_num, usize::MAX as u64, AccountTrailerField::RecordsNum)?;
        Ok(ParsedAccountTrailer { control_total, records_num: records_num as usize })
    }
}

pub open spec fn group_trailer_error(t: RawGroupTrailer) -> Option<ParseError<GroupTrailerField, ()>> {
    first(
        num_err(t.control_total@, i64::MIN as int, i64::MAX as int, GroupTrailerField::ControlTotal),
        first(
            num_err(t.accounts_num@, 0, usize::MAX as int, GroupTrailerField::AccountsNum),
            num_err(t.records_num@, 0, usize::MAX as int, GroupTrailerField::RecordsNum),
        ),
    )
}

impl GroupTrailer {
    /// Types the control total and counts of a group trailer.
    pub fn parse<'a>(raw: &RawGroupTrailer<'a>) -> (r: Result<
        ParsedGroupTrailer,
        ParseError<GroupTrailerField, ()>,
    >)
        ensures
            match group_trailer_error(*raw) {
                Some(e) => r == Err::<ParsedGroupTrailer, ParseError<GroupTrailerField, ()>>(e),
                None => r == Ok::<ParsedGroupTrailer, ParseError<GroupTrailerField, ()>>(
                    ParsedGroupTrailer {
                        control_total: num_of(raw.control_total@, i64::MIN as int, i64::MAX as int) as i64,
                        accounts_num: num_of(raw.accounts_num@, 0, usize::MAX as int) as usize,
                        records_num: num_of(raw.records_num@, 0, usize::MAX as int) as usize,
                    },
                ),
            },
    {
        let control_total = i64_field(raw.control_total, GroupTrailerField::ControlTotal)?;
        let accounts_num = uint_field(raw.accounts_num, usize::MAX as u64, GroupTrailerField::AccountsNum)?;
        let records_num = uint_field(raw.records_num, usize::MAX as u64, GroupTrailerField::RecordsNum)?;
        Ok(
            ParsedGroupTrailer {
                control_total,
                accounts_num: accounts_num as usize,
                records_num: records_num as usize,
            },
        )
    }
}

pub open spec fn file_trailer_error(t: RawFileTrailer) -> Option<ParseError<FileTrailerField, ()>> {
    first(
        num_err(t.control_total@, i64::MIN as int, i64::MAX as int, FileTrailerField::ControlTotal),
        first(
            num_err(t.groups_num@, 0, usize::MAX as int, FileTrailerField::GroupsNum),
            num_err(t.records_num@, 0, usize::MAX as int, FileTrailerField::RecordsNum),
        ),
    )
}

impl FileTrailer {
    /// Types the control total and counts of a file trailer.
    pub fn parse<'a>(raw: &RawFileTrailer<'a>) -> (r: Result<
        ParsedFileTrailer,
        ParseError<FileTrailerField, ()>,
    >)
        ensures
            match file_trailer_error(*raw) {
                Some(e) => r == Err::<ParsedFileTrailer, ParseError<FileTrailerField, ()>>(e),
                None => r == Ok::<ParsedFileTrailer, ParseError<FileTrailerField, ()>>(
                    ParsedFileTrailer {
                        control_total: num_of(raw.control_total@, i64::MIN as int, i64::MAX as int) as i64,
                        groups_num: num_of(raw.groups_num@, 0, usize::MAX as int) as usize,
                        records_num: num_of(raw.records_num@, 0, usize::MAX as int) as usize,
                    },
                ),
            },
    {
        let control_total = i64_field(raw.control_total, FileTrailerField::ControlTotal)?;
        let groups_num = uint_field(raw.groups_num, usize::MAX as u64, FileTrailerField::GroupsNum)?;
        let records_num = uint_field(raw.records_num, usize::MAX as u64, FileTrailerField::RecordsNum)?;
        Ok(
            ParsedFileTrailer {
                control_total,
                groups_num: groups_num as usize,
                records_num: records_num as usize,
            },
        )
    }
}

/// The error of a record of any kind, tagged with its kind.
#[derive(Debug, Clone, Copy, PartialEq, Eq)]
pub enum RecordError {
    FileHeader(ParseError<FileHeaderField, FileHeaderError>),
    GroupHeader(ParseError<GroupHeaderField, GroupHeaderError>),
    AccountIdent(ParseError<AccountIdentField, AccountIdentError>),
    TransactionDetail(ParseError<TransactionDetailField, TransactionDetailError>),
    AccountTrailer(ParseError<AccountTrailerField, ()>),
    GroupTrailer(ParseError<GroupTrailerField, ()>),
    FileTrailer(ParseError<FileTrailerField, ()>),
}

/// The error of typing a record, if any.
pub open spec fn record_error(r: RawRecord) -> Option<ParseError<RecordField, RecordError>> {
    match r {
        RawRecord::FileHeader(h) => match file_header_error(h) {
            Some(e) => Some(ParseError::Error(RecordField::FileHeader, RecordError::FileHeader(e))),
            None => None,
        },
        RawRecord::GroupHeader(h) => match group_header_error(h) {
            Some(e) => Some(ParseError::Error(RecordField::GroupHeader, RecordError::GroupHeader(e))),
            None => None,
        },
        RawRecord::AccountIdent(a) => match account_ident_error(a) {
            Some(e) => Some(
                ParseError::Error(RecordField::AccountIdent, RecordError::AccountIdent(e)),
            ),
            None => None,
        },
        RawRecord::TransactionDetail(t) => match transaction_detail_error(t) {
            Some(e) => Some(
                ParseError::Error(RecordField::TransactionDetail, RecordError::TransactionDetail(e)),
            ),
            None => None,
        },
        RawRecord::AccountTrailer(t) => match account_trailer_error(t) {
            Some(e) => Some(
                ParseError::Error(RecordField::AccountTrailer, RecordError::AccountTrailer(e)),
            ),
            None => None,
        },
        RawRecord::GroupTrailer(t) => match group_trailer_error(t) {
            Some(e) => Some(
                ParseError::Error(RecordField::GroupTrailer, RecordError::GroupTrailer(e)),
            ),
            None => None,
        },
        RawRecord::FileTrailer(t) => match file_trailer_error(t) {
            Some(e) => Some(ParseError::Error(RecordField::FileTrailer, RecordError::FileTrailer(e))),
            None => None,
        },
    }
}

/// `p` is the typed record `r`, of the same kind.
pub open spec fn record_parsed(r: RawRecord, p: ParsedRecord) -> bool {
    match (r, p) {
        (RawRecord::FileHeader(h), ParsedRecord::FileHeader(q)) => file_header_parsed(h, q),
        (RawRecord::GroupHeader(h), ParsedRecord::GroupHeader(q)) => group_header_parsed(h, q),
        (RawRecord::AccountIdent(a), ParsedRecord::AccountIdent(q)) => account_ident_parsed(a, q),
        (RawRecord::TransactionDetail(t), ParsedRecord::TransactionDetail(q)) => transaction_detail_parsed(t, q),
        (RawRecord::AccountTrailer(t), ParsedRecord::AccountTrailer(q)) => {
            &&& q.control_total == num_of(t.control_total@, i64::MIN as int, i64::MAX as int)
            &&& q.records_num == num_of(t.records_num@, 0, usize::MAX as int)
        },
        (RawRecord::GroupTrailer(t), ParsedRecord::GroupTrailer(q)) => {
            &&& q.control_total == num_of(t.control_total@, i64::MIN as int, i64::MAX as int)
            &&& q.accounts_num == num_of(t.accounts_num@, 0, usize::MAX as int)
            &&& q.records_num == num_of(t.records_num@, 0, usize::MAX as int)
        },
        (RawRecord::FileTrailer(t), ParsedRecord::FileTrailer(q)) => {
            &&& q.control_total == num_of(t.control_total@, i64::MIN as int, i64::MAX as int)
            &&& q.groups_num == num_of(t.groups_num@, 0, usize::MAX as int)
            &&& q.records_num == num_of(t.records_num@, 0, usize::MAX as int)
        },
        _ => false,
    }
}

impl Record {
    /// Types the fields of a record of any kind.
    pub fn parse<'a>(raw: &RawRecord<'a>) -> (r: Result<
        ParsedRecord<'a>,
        ParseError<RecordField, RecordError>,
    >)
        ensures
            match record_error(*raw) {
                Some(e) => r == Err::<ParsedRecord, ParseError<RecordField, RecordError>>(e),
                None => r matches Ok(p) && record_parsed(*raw, p),
            },
    {
        match raw {
            RawRecord::FileHeader(h) => match FileHeader::parse(h) {
                Ok(p) => Ok(ParsedRecord::FileHeader(p)),
                Err(e) => Err(ParseError::Error(RecordField::FileHeader, RecordError::FileHeader(e))),
            },
            RawRecord::GroupHeader(h) => match GroupHeader::parse(h) {
                Ok(p) => Ok(ParsedRecord::GroupHeader(p)),
                Err(e) => Err(
                    ParseError::Error(RecordField::GroupHeader, RecordError::GroupHeader(e)),
                ),
            },
            RawRecord::AccountIdent(a) => match AccountIdent::parse(a) {
                Ok(p) => Ok(ParsedRecord::AccountIdent(p)),
                Err(e) => Err(
                    ParseError::Error(RecordField::AccountIdent, RecordError::AccountIdent(e)),
                ),
            },
            RawRecord::TransactionDetail(t) => match TransactionDetail::parse(t) {
                Ok(p) => Ok(ParsedRecord::TransactionDetail(p)),
                Err(e) => Err(
                    ParseError::Error(
                        RecordField::TransactionDetail,
                        RecordError::TransactionDetail(e),
                    ),
                ),
            },
            RawRecord::AccountTrailer(t) => match AccountTrailer::parse(t) {
                Ok(p) => Ok(ParsedRecord::AccountTrailer(p)),
                Err(e) => Err(
                    ParseError::Error(RecordField::AccountTrailer, RecordError::AccountTrailer(e)),
                ),
            },
            RawRecord::GroupTrailer(t) => match GroupTrailer::parse(t) {
                Ok(p) => Ok(ParsedRecord::GroupTrailer(p)),
                Err(e) => Err(
                    ParseError::Error(RecordField::GroupTrailer, RecordError::GroupTrailer(e)),
                ),
            },
            RawRecord::FileTrailer(t) => match FileTrailer::parse(t) {
                Ok(p) => Ok(ParsedRecord::FileTrailer(p)),
                Err(e) => Err(ParseError::Error(RecordField::FileTrailer, RecordError::FileTrailer(e))),
            },
        }
    }
}

} // verus!
