//! Turning typed records into the file tree, with the checks of each
//! trailer's control total and count.

use vstd::prelude::*;
use crate::ast::{
    Date, ParsedAccountIdent, ParsedAccountInfo, ParsedDistributedAvailDistribution,
    ParsedFileHeader, ParsedFundsType, ParsedGroupHeader, ParsedRecord, ParsedTransactionDetail,
    Time,
};
use crate::calendar::{
    date_exists, is_calendar_date, is_clock_time, time_exists, CalendarDate, DateTime, TimeOfDay,
};
use crate::data::{
    self, iso_currency_code, is_currency_code, AccountNumber, AsOfDateModifier, CurrencyCode,
    DistributedAvailDistribution, FileIdent, GroupStatus, NaiveDateOrTime, Party, ReferenceNum,
};
use crate::type_codes::{detail_result, status_result, summary_result, DetailCode, StatusCode,
    SummaryCode};

verus! {

/// A date or time that the calendar does not have.
#[derive(Debug, Clone, Copy, PartialEq, Eq, Structural)]
pub enum ChronoError {
    InvalidDate,
    InvalidTime,
}

/// The four-digit year of a two-digit year: above 70 is 19xx, else 20xx.
pub open spec fn pivot_year(y: u8) -> int {
    if y > 70 {
        1900 + y
    } else {
        2000 + y
    }
}

/// The time written 9999, which stands for the end of the day.
pub open spec fn is_end_of_day(t: Time) -> bool {
    t.hour == 99 && t.minute == 99
}

/// The calendar date of a record's date, or why there is none.
pub open spec fn spec_date(d: Date) -> Result<CalendarDate, ChronoError> {
    let y = pivot_year(d.year);
    if is_calendar_date(y, d.month as int, d.day as int) {
        Ok(CalendarDate { year: y as i32, month: d.month as u32, day: d.day as u32 })
    } else {
        Err(ChronoError::InvalidDate)
    }
}

/// The date and time of a record's date and time; 9999 is the end of the
/// day.
pub open spec fn spec_date_time(d: Date, t: Time, end_of_day: TimeOfDay) -> Result<
    DateTime,
    ChronoError,
> {
    match spec_date(d) {
        Err(e) => Err(e),
        Ok(cd) => if is_end_of_day(t) {
            Ok(DateTime { date: cd, time: end_of_day })
        } else if is_clock_time(t.hour as int, t.minute as int, 0) {
            Ok(
                DateTime {
                    date: cd,
                    time: TimeOfDay { hour: t.hour as u32, minute: t.minute as u32, second: 0 },
                },
            )
        } else {
            Err(ChronoError::InvalidTime)
        },
    }
}

/// A date alone when no time is given, else a date and time.
pub open spec fn spec_date_or_time(d: Date, t: Option<Time>, end_of_day: TimeOfDay) -> Result<
    NaiveDateOrTime,
    ChronoError,
> {
    match t {
        Some(t) => match spec_date_time(d, t, end_of_day) {
            Ok(dt) => Ok(NaiveDateOrTime::DateTime(dt)),
            Err(e) => Err(e),
        },
        None => match spec_date(d) {
            Ok(cd) => Ok(NaiveDateOrTime::Date(cd)),
            Err(e) => Err(e),
        },
    }
}

/// The calendar date of a record's date, with the year pivoted.
pub fn chrono_date(date: &Date) -> (r: Result<CalendarDate, ChronoError>)
    ensures
        r == spec_date(*date),
{
    let year: i32 = if date.year > 70 {
        1900 + date.year as i32
    } else {
        2000 + date.year as i32
    };
    if date_exists(year, date.month as u32, date.day as u32) {
        Ok(CalendarDate { year, month: date.month as u32, day: date.day as u32 })
    } else {
        Err(ChronoError::InvalidDate)
    }
}

/// The date and time of a record; the time 9999 gives `end_of_day`.
pub fn chrono_date_time(date: &Date, time: &Time, end_of_day: TimeOfDay) -> (r: Result<
    DateTime,
    ChronoError,
>)
    ensures
        r == spec_date_time(*date, *time, end_of_day),
{
    let d = match chrono_date(date) {
        Ok(d) => d,
        Err(e) => return Err(e),
    };
    if time.hour == 99 && time.minute == 99 {
        Ok(DateTime { date: d, time: end_of_day })
    } else if time_exists(time.hour as u32, time.minute as u32, 0) {
        Ok(
            DateTime {
                date: d,
                time: TimeOfDay { hour: time.hour as u32, minute: time.minute as u32, second: 0 },
            },
        )
    } else {
        Err(ChronoError::InvalidTime)
    }
}

/// A date alone when no time is given, else a date and time.
pub fn chrono_date_or_time(date: &Date, time: Option<&Time>, end_of_day: TimeOfDay) -> (r: Result<
    NaiveDateOrTime,
    ChronoError,
>)
    ensures
        r == spec_date_or_time(
            *date,
            match time {
                Some(t) => Some(*t),
                None => None,
            },
            end_of_day,
        ),
{
    match time {
        Some(time) => match chrono_date_time(date, time, end_of_day) {
            Ok(dt) => Ok(NaiveDateOrTime::DateTime(dt)),
            Err(e) => Err(e),
        },
        None => match chrono_date(date) {
            Ok(d) => Ok(NaiveDateOrTime::Date(d)),
            Err(e) => Err(e),
        },
    }
}

#[derive(Debug, Clone, Copy, PartialEq, Eq, Structural)]
pub enum FundsTypeConvError {
    ValueDated(ChronoError),
    /// The number of distributions actually given, when it differs from the
    /// declared one.
    DistributedAvailDNum(usize),
}

/// The error, if any, of converting a funds type.
pub open spec fn funds_error(p: ParsedFundsType, end_of_day: TimeOfDay) -> Option<
    FundsTypeConvError,
> {
    match p {
        ParsedFundsType::ValueDated { date, time } => match spec_date_or_time(
            date,
            time,
            end_of_day,
        ) {
            Err(e) => Some(FundsTypeConvError::ValueDated(e)),
            Ok(_) => None,
        },
        ParsedFundsType::DistributedAvailD { num, dists } => if num != dists@.len() {
            Some(FundsTypeConvError::DistributedAvailDNum(dists@.len() as usize))
        } else {
            None
        },
        _ => None,
    }
}

/// `f` is what the funds type `p` converts to.
pub open spec fn funds_converts(p: ParsedFundsType, f: data::FundsType, end_of_day: TimeOfDay) -> bool {
    match p {
        ParsedFundsType::Unknown => f is Unknown,
        ParsedFundsType::ImmediateAvail => f is ImmediateAvail,
        ParsedFundsType::OneDayAvail => f is OneDayAvail,
        ParsedFundsType::TwoOrMoreDaysAvail => f is TwoOrMoreDaysAvail,
        ParsedFundsType::DistributedAvailS { immediate, one_day, more_than_one_day } => f
            == data::FundsType::DistributedAvailS { immediate, one_day, more_than_one_day },
        ParsedFundsType::ValueDated { date, time } => spec_date_or_time(date, time, end_of_day)
            matches Ok(v) && f == data::FundsType::ValueDated(v),
        ParsedFundsType::DistributedAvailD { num, dists } => f matches data::FundsType::DistributedAvailD(v)
            && v@.len() == dists@.len() && forall|i: int|
            0 <= i < v@.len() ==> v@[i].days == dists@[i].days && v@[i].amount == dists@[i].amount,
    }
}

/// Both are absent, or `f` is what `p` converts to.
pub open spec fn opt_funds_converts(
    p: Option<ParsedFundsType>,
    f: Option<data::FundsType>,
    end_of_day: TimeOfDay,
) -> bool {
    match (p, f) {
        (None, None) => true,
        (Some(p), Some(f)) => funds_converts(p, f, end_of_day),
        _ => false,
    }
}

/// The error, if any, of converting a funds type that may be absent.
pub open spec fn opt_funds_error(p: Option<ParsedFundsType>, end_of_day: TimeOfDay) -> Option<
    FundsTypeConvError,
> {
    match p {
        Some(p) => funds_error(p, end_of_day),
        None => None,
    }
}

impl ParsedFundsType {
    /// Converts a funds type; a distributed availability must give as many
    /// distributions as it declares.
    pub fn convert(&self, end_of_day: TimeOfDay) -> (r: Result<data::FundsType, FundsTypeConvError>)
        ensures
            match funds_error(*self, end_of_day) {
                Some(e) => r == Err::<data::FundsType, FundsTypeConvError>(e),
                None => r matches Ok(f) && funds_converts(*self, f, end_of_day),
            },
    {
        match self {
            ParsedFundsType::Unknown => Ok(data::FundsType::Unknown),
            ParsedFundsType::ImmediateAvail => Ok(data::FundsType::ImmediateAvail),
            ParsedFundsType::OneDayAvail => Ok(data::FundsType::OneDayAvail),
            ParsedFundsType::TwoOrMoreDaysAvail => Ok(data::FundsType::TwoOrMoreDaysAvail),
            ParsedFundsType::DistributedAvailS { immediate, one_day, more_than_one_day } => {
                Ok(
                    data::FundsType::DistributedAvailS {
                        immediate: *immediate,
                        one_day: *one_day,
                        more_than_one_day: *more_than_one_day,
                    },
                )
            },
            ParsedFundsType::ValueDated { date, time } => {
                let t: Option<&Time> = match time {
                    Some(t) => Some(t),
                    None => None,
                };
                match chrono_date_or_time(date, t, end_of_day) {
                    Ok(v) => Ok(data::FundsType::ValueDated(v)),
                    Err(e) => Err(FundsTypeConvError::ValueDated(e)),
                }
            },
            ParsedFundsType::DistributedAvailD { num, dists } => {
                let ndists = dists.len();
                if *num != ndists {
                    return Err(FundsTypeConvError::DistributedAvailDNum(ndists));
                }
                let mut out: Vec<DistributedAvailDistribution> = Vec::new();
                let mut i: usize = 0;
                while i < ndists
                    invariant
                        ndists == dists@.len(),
                        i <= ndists,
                        out@.len() == i,
                        forall|j: int|
                            0 <= j < i ==> out@[j].days == dists@[j].days && out@[j].amount
                                == dists@[j].amount,
                    decreases ndists - i,
                {
                    let d = &dists[i];
                    out.push(DistributedAvailDistribution { days: d.days, amount: d.amount });
                    i = i + 1;
                }
                Ok(data::FundsType::DistributedAvailD(out))
            },
        }
    }
}

#[derive(Debug, Clone, Copy, PartialEq, Eq, Structural)]
pub enum AccountInfoConvError {
    /// Amount, item count or funds were given without a type code.
    NoCode,
    /// The type code is neither a status nor a summary code.
    InvalidCode(u16),
    /// A status entry carried an item count.
    StatusItemCount,
    /// A status entry carried a funds type.
    StatusFunds,
    /// A summary entry carried a negative amount.
    SummaryNegativeAmount,
    Funds(FundsTypeConvError),
}

/// The error, if any, of converting an account info tuple.
pub open spec fn info_error(p: ParsedAccountInfo, end_of_day: TimeOfDay) -> Option<
    AccountInfoConvError,
> {
    match p.type_code {
        None => if p.amount is None && p.item_count is None && p.funds_type is None {
            None
        } else {
            Some(AccountInfoConvError::NoCode)
        },
        Some(code) => if status_result(code) is Ok {
            if p.item_count is Some {
                Some(AccountInfoConvError::StatusItemCount)
            } else if p.funds_type is Some {
                Some(AccountInfoConvError::StatusFunds)
            } else {
                None
            }
        } else if summary_result(code) is Ok {
            if p.amount matches Some(a) && a < 0 {
                Some(AccountInfoConvError::SummaryNegativeAmount)
            } else {
                match opt_funds_error(p.funds_type, end_of_day) {
                    Some(e) => Some(AccountInfoConvError::Funds(e)),
                    None => None,
                }
            }
        } else {
            Some(AccountInfoConvError::InvalidCode(code))
        },
    }
}

/// The amount of a tuple as it counts toward the control total.
pub open spec fn parsed_info_amount(p: ParsedAccountInfo) -> int {
    match p.amount {
        Some(a) => a as int,
        None => 0,
    }
}

/// `info` is what the tuple `p` converts to: nothing for an empty tuple, a
/// status entry for a status code, a summary entry for a summary code.
pub open spec fn info_converts(
    p: ParsedAccountInfo,
    info: Option<data::AccountInfo>,
    end_of_day: TimeOfDay,
) -> bool {
    match p.type_code {
        None => info is None,
        Some(code) => match status_result(code) {
            Ok(s) => info == Some(data::AccountInfo::Status { code: s, amount: p.amount }),
            Err(_) => match summary_result(code) {
                Ok(s) => info matches Some(data::AccountInfo::Summary { code, amount, item_count, funds })
                    && code == s && amount == (match p.amount {
                    Some(a) => Some(a as u64),
                    None => None,
                }) && item_count == p.item_count && opt_funds_converts(p.funds_type, funds, end_of_day),
                Err(_) => false,
            },
        },
    }
}

impl ParsedAccountInfo {
    /// Converts one tuple; an empty tuple gives nothing. With the entry comes
    /// the amount it adds to the control total.
    pub fn convert(&self, end_of_day: TimeOfDay) -> (r: Result<
        Option<(data::AccountInfo, i64)>,
        AccountInfoConvError,
    >)
        ensures
            match info_error(*self, end_of_day) {
                Some(e) => r == Err::<Option<(data::AccountInfo, i64)>, AccountInfoConvError>(e),
                None => r matches Ok(o) && info_converts(
                    *self,
                    match o {
                        Some(x) => Some(x.0),
                        None => None,
                    },
                    end_of_day,
                ) && (o matches Some(x) ==> x.1 == parsed_info_amount(*self)
                    && x.0.spec_control_amount() == parsed_info_amount(*self)),
            },
    {
        let code = match self.type_code {
            None => {
                if self.amount.is_none() && self.item_count.is_none() && self.funds_type.is_none() {
                    return Ok(None);
                } else {
                    return Err(AccountInfoConvError::NoCode);
                }
            },
            Some(code) => code,
        };
        if let Ok(code) = StatusCode::try_from(code) {
            if self.item_count.is_some() {
                return Err(AccountInfoConvError::StatusItemCount);
            }
            if self.funds_type.is_some() {
                return Err(AccountInfoConvError::StatusFunds);
            }
            let total: i64 = match self.amount {
                Some(a) => a,
                None => 0,
            };
            Ok(Some((data::AccountInfo::Status { code, amount: self.amount }, total)))
        } else if let Ok(code) = SummaryCode::try_from(code) {
            let amount: Option<u64> = match self.amount {
                Some(a) => {
                    if a < 0 {
                        return Err(AccountInfoConvError::SummaryNegativeAmount);
                    }
                    Some(a as u64)
                },
                None => None,
            };
            let funds = match &self.funds_type {
                Some(f) => match f.convert(end_of_day) {
                    Ok(f) => Some(f),
                    Err(e) => return Err(AccountInfoConvError::Funds(e)),
                },
                None => None,
            };
            let total: i64 = match self.amount {
                Some(a) => a,
                None => 0,
            };
            Ok(
                Some(
                    (
                        data::AccountInfo::Summary {
                            code,
                            amount,
                            item_count: self.item_count,
                            funds,
                        },
                        total,
                    ),
                ),
            )
        } else {
            Err(AccountInfoConvError::InvalidCode(code))
        }
    }
}

#[derive(Debug, Clone)]
pub enum AccountConvError {
    /// The currency code is not a known currency.
    Currency(String),
    /// The tuple at this index of the account's infos failed.
    AccountInfo(usize, AccountInfoConvError),
    ControlTotal { expected: i64, actual: i64 },
    RecordsNum { expected: usize, actual: usize },
    /// The running control total left the range of a signed 64-bit integer.
    ControlTotalOverflow,
}

/// The sum of the amounts of a sequence of entries.
pub open spec fn infos_sum(s: Seq<data::AccountInfo>) -> int
    decreases s.len(),
{
    if s.len() == 0 {
        0
    } else {
        infos_sum(s.drop_last()) + s.last().spec_control_amount()
    }
}

/// The number is within the range of a signed 64-bit integer.
pub open spec fn fits_i64(x: int) -> bool {
    i64::MIN <= x <= i64::MAX
}

/// Converting the tuples in order: the first failing tuple's error, else
/// the control total, which must stay within 64 bits after each tuple.
pub open spec fn infos_result(ps: Seq<ParsedAccountInfo>, end_of_day: TimeOfDay) -> Result<
    int,
    AccountConvError,
>
    decreases ps.len(),
{
    if ps.len() == 0 {
        Ok(0)
    } else {
        match infos_result(ps.drop_last(), end_of_day) {
            Err(e) => Err(e),
            Ok(t) => match info_error(ps.last(), end_of_day) {
                Some(e) => Err(AccountConvError::AccountInfo((ps.len() - 1) as usize, e)),
                None => if fits_i64(t + parsed_info_amount(ps.last())) {
                    Ok(t + parsed_info_amount(ps.last()))
                } else {
                    Err(AccountConvError::ControlTotalOverflow)
                },
            },
        }
    }
}

/// `vs` holds what the tuples `ps` convert to, empty tuples left out.
pub open spec fn infos_convert(
    ps: Seq<ParsedAccountInfo>,
    vs: Seq<data::AccountInfo>,
    end_of_day: TimeOfDay,
) -> bool
    decreases ps.len(),
{
    if ps.len() == 0 {
        vs.len() == 0
    } else if ps.last().type_code is None {
        infos_convert(ps.drop_last(), vs, end_of_day)
    } else {
        vs.len() > 0 && info_converts(ps.last(), Some(vs.last()), end_of_day) && infos_convert(
            ps.drop_last(),
            vs.drop_last(),
            end_of_day,
        )
    }
}

/// Converts the tuples of an 03 record, summing their amounts.
fn convert_infos(pinfos: &Vec<ParsedAccountInfo>, end_of_day: TimeOfDay) -> (r: Result<
    (Vec<data::AccountInfo>, i64),
    AccountConvError,
>)
    ensures
        match infos_result(pinfos@, end_of_day) {
            Err(e) => r == Err::<(Vec<data::AccountInfo>, i64), AccountConvError>(e),
            Ok(t) => r matches Ok((v, ct)) && ct == t && ct == infos_sum(v@) && infos_convert(
                pinfos@,
                v@,
                end_of_day,
            ),
        },
{
    let mut control_total: i64 = 0;
    let mut infos: Vec<data::AccountInfo> = Vec::new();
    let n = pinfos.len();
    let mut i: usize = 0;
    while i < n
        invariant
            n == pinfos@.len(),
            i <= n,
            infos_result(pinfos@.take(i as int), end_of_day) == Ok::<int, AccountConvError>(
                control_total as int,
            ),
            control_total == infos_sum(infos@),
            infos_convert(pinfos@.take(i as int), infos@, end_of_day),
        decreases n - i,
    {
        assert(pinfos@.take(i as int + 1).drop_last() == pinfos@.take(i as int));
        match pinfos[i].convert(end_of_day) {
            Err(e) => {
                assert(infos_result(pinfos@.take(i as int + 1), end_of_day) == Err::<
                    int,
                    AccountConvError,
                >(AccountConvError::AccountInfo(i, e)));
                proof {
                    lemma_infos_result_err_extends(pinfos@, end_of_day, i as int + 1);
                }
                assert(pinfos@.take(n as int) == pinfos@);
                return Err(AccountConvError::AccountInfo(i, e));
            },
            Ok(None) => {},
            Ok(Some((info, amount))) => {
                match control_total.checked_add(amount) {
                    Some(t) => {
                        control_total = t;
                        let ghost old_infos = infos@;
                        infos.push(info);
                        assert(infos@.drop_last() == old_infos);
                    },
                    None => {
                        proof {
                            lemma_infos_result_err_extends(pinfos@, end_of_day, i as int + 1);
                        }
                        assert(pinfos@.take(n as int) == pinfos@);
                        return Err(AccountConvError::ControlTotalOverflow);
                    },
                }
            },
        }
        i = i + 1;
    }
    assert(pinfos@.take(n as int) == pinfos@);
    Ok((infos, control_total))
}

/// Once the tuples fail, more tuples do not change the error.
proof fn lemma_infos_result_err_extends(ps: Seq<ParsedAccountInfo>, end_of_day: TimeOfDay, k: int)
    requires
        0 <= k <= ps.len(),
        infos_result(ps.take(k), end_of_day) is Err,
    ensures
        infos_result(ps, end_of_day) == infos_result(ps.take(k), end_of_day),
    decreases ps.len() - k,
{
    if k < ps.len() {
        assert(ps.take(k + 1).drop_last() == ps.take(k));
        lemma_infos_result_err_extends(ps, end_of_day, k + 1);
    } else {
        assert(ps.take(k) == ps);
    }
}

/// The party named `s`, when there is one.
pub open spec fn opt_party(p: Option<Party>, s: Option<&str>) -> bool {
    match (p, s) {
        (None, None) => true,
        (Some(p), Some(s)) => p.0@ == s@,
        _ => false,
    }
}

/// The currency coded `s`, when there is one.
pub open spec fn opt_currency(c: Option<CurrencyCode>, s: Option<&str>) -> bool {
    match (c, s) {
        (None, None) => true,
        (Some(c), Some(s)) => c.0@ == s@,
        _ => false,
    }
}

/// The reference number `s`, when there is one.
pub open spec fn opt_reference(c: Option<ReferenceNum>, s: Option<&str>) -> bool {
    match (c, s) {
        (None, None) => true,
        (Some(c), Some(s)) => c.0@ == s@,
        _ => false,
    }
}

/// The currency, if given, is known.
pub open spec fn currency_ok(s: Option<&str>) -> bool {
    match s {
        Some(s) => iso_currency_code(s@),
        None => true,
    }
}

fn to_party(s: &str) -> (r: Party)
    ensures
        r.0@ == s@,
{
    Party(s.to_owned())
}

fn opt_to_party(s: Option<&str>) -> (r: Option<Party>)
    ensures
        opt_party(r, s),
{
    match s {
        Some(s) => Some(to_party(s)),
        None => None,
    }
}

fn opt_to_reference(s: Option<&str>) -> (r: Option<ReferenceNum>)
    ensures
        opt_reference(r, s),
{
    match s {
        Some(s) => Some(ReferenceNum(s.to_owned())),
        None => None,
    }
}

/// Looks up a currency code; an unknown one is handed back as the error.
fn convert_currency(s: Option<&str>) -> (r: Result<Option<CurrencyCode>, String>)
    ensures
        r is Ok <==> currency_ok(s),
        r matches Ok(c) ==> opt_currency(c, s),
        r matches Err(e) ==> s matches Some(s) && e@ == s@,
{
    match s {
        Some(s) => {
            if is_currency_code(s) {
                Ok(Some(CurrencyCode(s.to_owned())))
            } else {
                Err(s.to_owned())
            }
        },
        None => Ok(None),
    }
}

#[derive(Debug, Clone, Copy, PartialEq, Eq, Structural)]
pub enum FileConvError {
    Creation(ChronoError),
    ControlTotal { expected: i64, actual: i64 },
    GroupsNum { expected: usize, actual: usize },
    RecordsNum { expected: usize, actual: usize },
    /// The file's running control total left the range of a signed 64-bit
    /// integer.
    ControlTotalOverflow,
}

/// `f` is the file, still without groups, that the header `h` opens.
pub open spec fn file_header_converts(h: ParsedFileHeader, f: data::File, end_of_day: TimeOfDay) -> bool {
    &&& f.sender.0@ == h.sender_ident@
    &&& f.receiver.0@ == h.receiver_ident@
    &&& spec_date_time(h.creation_date, h.creation_time, end_of_day) == Ok::<
        DateTime,
        ChronoError,
    >(f.creation)
    &&& f.ident == FileIdent(h.ident_num)
    &&& f.groups@.len() == 0
}

impl<'a> ParsedFileHeader<'a> {
    /// Opens a file; its creation date and time must exist.
    pub fn convert(&self, end_of_day: TimeOfDay) -> (r: Result<data::File, FileConvError>)
        ensures
            match spec_date_time(self.creation_date, self.creation_time, end_of_day) {
                Err(e) => r == Err::<data::File, FileConvError>(FileConvError::Creation(e)),
                Ok(_) => r matches Ok(f) && file_header_converts(*self, f, end_of_day),
            },
    {
        let creation = match chrono_date_time(&self.creation_date, &self.creation_time, end_of_day) {
            Ok(c) => c,
            Err(e) => return Err(FileConvError::Creation(e)),
        };
        Ok(
            data::File {
                sender: to_party(self.sender_ident),
                receiver: to_party(self.receiver_ident),
                creation,
                ident: FileIdent(self.ident_num),
                groups: Vec::new(),
            },
        )
    }
}

#[derive(Debug, Clone)]
pub enum GroupConvError {
    /// The status is not one of 1–4.
    Status,
    AsOf(ChronoError),
    /// The currency code is not a known currency.
    Currency(String),
    /// The as-of-date modifier is not one of 1–4.
    AsOfDateMod,
    ControlTotal { expected: i64, actual: i64 },
    AccountsNum { expected: usize, actual: usize },
    RecordsNum { expected: usize, actual: usize },
    /// The group's running control total left the range of a signed 64-bit
    /// integer.
    ControlTotalOverflow,
}

/// The as-of-date modifier, if given, is one of 1–4.
pub open spec fn date_mod_ok(m: Option<u8>) -> bool {
    match m {
        Some(m) => AsOfDateModifier::spec_from(m) is Some,
        None => true,
    }
}

/// `g` is the group, still without accounts, that the header `h` opens.
pub open spec fn group_header_converts(h: ParsedGroupHeader, g: data::Group, end_of_day: TimeOfDay) -> bool {
    &&& opt_party(g.ultimate_receiver, h.ultimate_receiver_ident)
    &&& opt_party(g.originator, h.originator_ident)
    &&& GroupStatus::spec_from(h.status) == Some(g.status)
    &&& spec_date_or_time(h.as_of_date, h.as_of_time, end_of_day) == Ok::<
        NaiveDateOrTime,
        ChronoError,
    >(g.as_of)
    &&& opt_currency(g.currency, h.currency)
    &&& g.as_of_date_mod == (match h.as_of_date_mod {
        Some(m) => AsOfDateModifier::spec_from(m),
        None => None,
    })
    &&& g.accounts@.len() == 0
}

/// The group header converts without error.
pub open spec fn group_header_ok(h: ParsedGroupHeader, end_of_day: TimeOfDay) -> bool {
    &&& GroupStatus::spec_from(h.status) is Some
    &&& spec_date_or_time(h.as_of_date, h.as_of_time, end_of_day) is Ok
    &&& currency_ok(h.currency)
    &&& date_mod_ok(h.as_of_date_mod)
}

/// `e` is the error of converting the group header: status, as-of date and
/// time, currency and modifier are checked in that order.
pub open spec fn group_header_fails(h: ParsedGroupHeader, end_of_day: TimeOfDay, e: GroupConvError) -> bool {
    if GroupStatus::spec_from(h.status) is None {
        e is Status
    } else {
        match spec_date_or_time(h.as_of_date, h.as_of_time, end_of_day) {
            Err(x) => e == GroupConvError::AsOf(x),
            Ok(_) => if !currency_ok(h.currency) {
                e matches GroupConvError::Currency(s) && h.currency matches Some(c) && s@ == c@
            } else {
                e is AsOfDateMod
            },
        }
    }
}

impl<'a> ParsedGroupHeader<'a> {
    /// Opens a group; the first field that fails gives the error.
    pub fn convert(&self, end_of_day: TimeOfDay) -> (r: Result<data::Group, GroupConvError>)
        ensures
            r is Ok <==> group_header_ok(*self, end_of_day),
            r matches Ok(g) ==> group_header_converts(*self, g, end_of_day),
            r matches Err(e) ==> group_header_fails(*self, end_of_day, e),
    {
        let status = match GroupStatus::try_from(self.status) {
            Ok(s) => s,
            Err(_) => return Err(GroupConvError::Status),
        };
        let t: Option<&Time> = match &self.as_of_time {
            Some(t) => Some(t),
            None => None,
        };
        let as_of = match chrono_date_or_time(&self.as_of_date, t, end_of_day) {
            Ok(a) => a,
            Err(e) => return Err(GroupConvError::AsOf(e)),
        };
        let currency = match convert_currency(self.currency) {
            Ok(c) => c,
            Err(s) => return Err(GroupConvError::Currency(s)),
        };
        let as_of_date_mod = match self.as_of_date_mod {
            Some(m) => match AsOfDateModifier::try_from(m) {
                Ok(m) => Some(m),
                Err(_) => return Err(GroupConvError::AsOfDateMod),
            },
            None => None,
        };
        Ok(
            data::Group {
                ultimate_receiver: opt_to_party(self.ultimate_receiver_ident),
                originator: opt_to_party(self.originator_ident),
                status,
                as_of,
                currency,
                as_of_date_mod,
                accounts: Vec::new(),
            },
        )
    }
}

/// `a` is the account, still without transactions, that the record `p`
/// opens.
pub open spec fn account_ident_converts(p: ParsedAccountIdent, a: data::Account, end_of_day: TimeOfDay) -> bool {
    &&& a.customer_account.0@ == p.customer_account_num@
    &&& opt_currency(a.currency, p.currency)
    &&& infos_convert(p.infos@, a.infos@, end_of_day)
    &&& a.transaction_details@.len() == 0
}

/// The account identifier converts without error.
pub open spec fn account_ident_ok(p: ParsedAccountIdent, end_of_day: TimeOfDay) -> bool {
    infos_result(p.infos@, end_of_day) is Ok && currency_ok(p.currency)
}

/// `e` is the error of converting the account identifier: its infos are
/// converted first, then its currency.
pub open spec fn account_ident_fails(p: ParsedAccountIdent, end_of_day: TimeOfDay, e: AccountConvError) -> bool {
    match infos_result(p.infos@, end_of_day) {
        Err(x) => e == x,
        Ok(_) => e matches AccountConvError::Currency(s) && p.currency matches Some(c) && s@ == c@,
    }
}

impl<'a> ParsedAccountIdent<'a> {
    /// Opens an account. With the account comes the sum of its infos'
    /// amounts.
    pub fn convert(&self, end_of_day: TimeOfDay) -> (r: Result<(data::Account, i64), AccountConvError>)
        ensures
            r is Ok <==> account_ident_ok(*self, end_of_day),
            r matches Ok((a, ct)) ==> account_ident_converts(*self, a, end_of_day) && ct == infos_sum(
                a.infos@,
            ),
            r matches Err(e) ==> account_ident_fails(*self, end_of_day, e),
    {
        let (infos, control_total) = match convert_infos(&self.infos, end_of_day) {
            Ok(x) => x,
            Err(e) => return Err(e),
        };
        let currency = match convert_currency(self.currency) {
            Ok(c) => c,
            Err(s) => return Err(AccountConvError::Currency(s)),
        };
        let account = data::Account {
            customer_account: AccountNumber(self.customer_account_num.to_owned()),
            currency,
            infos,
            transaction_details: Vec::new(),
        };
        Ok((account, control_total))
    }
}

#[derive(Debug, Clone, Copy, PartialEq, Eq, Structural)]
pub enum TransactionDetailConvError {
    NotTransactionDetailOrAccountTrailer,
    /// The type code is not a detail code.
    DetailCode(u16),
    Funds(FundsTypeConvError),
    /// The account's running control total left the range of a signed
    /// 64-bit integer.
    ControlTotalOverflow,
}

/// The error, if any, of converting a transaction detail.
pub open spec fn td_error(p: ParsedTransactionDetail, end_of_day: TimeOfDay) -> Option<
    TransactionDetailConvError,
> {
    match detail_result(p.type_code) {
        Err(c) => Some(TransactionDetailConvError::DetailCode(c)),
        Ok(_) => match opt_funds_error(p.funds_type, end_of_day) {
            Some(e) => Some(TransactionDetailConvError::Funds(e)),
            None => None,
        },
    }
}

/// The lines of a text: the first line, then the further lines, in order.
pub open spec fn text_converts(p: Option<(String, Vec<&str>)>, t: Option<Vec<String>>) -> bool {
    match (p, t) {
        (None, None) => true,
        (Some((first, rest)), Some(lines)) => {
            &&& lines@.len() == rest@.len() + 1
            &&& lines@[0]@ == first@
            &&& forall|i: int| 0 <= i < rest@.len() ==> lines@[i + 1]@ == rest@[i]@
        },
        _ => false,
    }
}

/// `t` is what the transaction detail `p` converts to.
pub open spec fn td_converts(p: ParsedTransactionDetail, t: data::TransactionDetail, end_of_day: TimeOfDay) -> bool {
    &&& detail_result(p.type_code) == Ok::<DetailCode, u16>(t.code)
    &&& t.amount == p.amount
    &&& opt_funds_converts(p.funds_type, t.funds, end_of_day)
    &&& opt_reference(t.bank_ref_num, p.bank_ref_num)
    &&& opt_reference(t.customer_ref_num, p.customer_ref_num)
    &&& text_converts(p.text, t.text)
}

fn convert_text(text: Option<(String, Vec<&str>)>) -> (r: Option<Vec<String>>)
    ensures
        text_converts(text, r),
{
    match text {
        None => None,
        Some((first, rest)) => {
            let mut lines: Vec<String> = Vec::new();
            lines.push(first);
            let n = rest.len();
            let mut i: usize = 0;
            while i < n
                invariant
                    n == rest@.len(),
                    i <= n,
                    lines@.len() == i + 1,
                    lines@[0]@ == first@,
                    forall|j: int| 0 <= j < i ==> lines@[j + 1]@ == rest@[j]@,
                decreases n - i,
            {
                lines.push(rest[i].to_owned());
                i = i + 1;
            }
            Some(lines)
        },
    }
}

impl<'a> ParsedTransactionDetail<'a> {
    /// Converts a transaction detail: its code must be a detail code and its
    /// funds type must convert.
    pub fn convert(self, end_of_day: TimeOfDay) -> (r: Result<
        data::TransactionDetail,
        TransactionDetailConvError,
    >)
        ensures
            match td_error(self, end_of_day) {
                Some(e) => r == Err::<data::TransactionDetail, TransactionDetailConvError>(e),
                None => r matches Ok(t) && td_converts(self, t, end_of_day),
            },
    {
        let code = match DetailCode::try_from(self.type_code) {
            Ok(c) => c,
            Err(c) => return Err(TransactionDetailConvError::DetailCode(c)),
        };
        let funds = match &self.funds_type {
            Some(f) => match f.convert(end_of_day) {
                Ok(f) => Some(f),
                Err(e) => return Err(TransactionDetailConvError::Funds(e)),
            },
            None => None,
        };
        Ok(
            data::TransactionDetail {
                code,
                amount: self.amount,
                funds,
                bank_ref_num: opt_to_reference(self.bank_ref_num),
                customer_ref_num: opt_to_reference(self.customer_ref_num),
                text: convert_text(self.text),
            },
        )
    }
}

/// The converter's position in the nesting of the file.
#[derive(Debug, Clone, Copy, PartialEq, Eq, Structural)]
pub enum ConverterProgress {
    Fresh,
    File,
    Group,
    Account,
}

/// The sum of the transaction amounts of a sequence of transactions.
pub open spec fn tds_sum(s: Seq<data::TransactionDetail>) -> int
    decreases s.len(),
{
    if s.len() == 0 {
        0
    } else {
        tds_sum(s.drop_last()) + match s.last().amount {
            Some(a) => a as int,
            None => 0,
        }
    }
}

/// The amounts of an account that count toward its control total: those of
/// its infos and of its transactions.
pub open spec fn account_sum(a: data::Account) -> int {
    infos_sum(a.infos@) + tds_sum(a.transaction_details@)
}

/// The sum of the control totals of a sequence of accounts.
pub open spec fn accounts_sum(s: Seq<data::Account>) -> int
    decreases s.len(),
{
    if s.len() == 0 {
        0
    } else {
        accounts_sum(s.drop_last()) + account_sum(s.last())
    }
}

/// The sum of the control totals of a sequence of groups.
pub open spec fn groups_sum(s: Seq<data::Group>) -> int
    decreases s.len(),
{
    if s.len() == 0 {
        0
    } else {
        groups_sum(s.drop_last()) + accounts_sum(s.last().accounts@)
    }
}

/// A file being assembled, with the control total of its completed groups.
#[derive(Debug, Clone)]
pub struct FileConvState {
    pub data: data::File,
    pub control_total: i64,
}

/// A group being assembled, with the control total of its completed
/// accounts.
#[derive(Debug, Clone)]
pub struct GroupConvState {
    pub data: data::Group,
    pub control_total: i64,
}

/// An account being assembled, with the control total of its infos and
/// transactions so far.
#[derive(Debug, Clone)]
pub struct AccountConvState {
    pub data: data::Account,
    pub control_total: i64,
}

impl FileConvState {
    /// The running total is the sum over the completed groups.
    pub open spec fn wf(&self) -> bool {
        self.control_total == groups_sum(self.data.groups@)
    }

    fn new(data: data::File) -> (r: Self)
        ensures
            r.data == data,
            r.control_total == 0,
    {
        FileConvState { data, control_total: 0 }
    }
}

impl GroupConvState {
    /// The running total is the sum over the completed accounts.
    pub open spec fn wf(&self) -> bool {
        self.control_total == accounts_sum(self.data.accounts@)
    }

    fn new(data: data::Group) -> (r: Self)
        ensures
            r.data == data,
            r.control_total == 0,
    {
        GroupConvState { data, control_total: 0 }
    }
}

impl AccountConvState {
    /// The running total is the sum of the account's amounts so far.
    pub open spec fn wf(&self) -> bool {
        self.control_total == account_sum(self.data)
    }
}

/// Where the converter stands, with a frame for each open level.
#[derive(Debug, Clone)]
pub enum ConverterState {
    Fresh,
    File(FileConvState),
    Group(FileConvState, GroupConvState),
    Account(FileConvState, GroupConvState, AccountConvState),
}

impl ConverterState {
    pub open spec fn spec_progress(&self) -> ConverterProgress {
        match self {
            ConverterState::Fresh => ConverterProgress::Fresh,
            ConverterState::File(..) => ConverterProgress::File,
            ConverterState::Group(..) => ConverterProgress::Group,
            ConverterState::Account(..) => ConverterProgress::Account,
        }
    }

    /// Every open frame's running total is the sum of what it holds.
    pub open spec fn wf(&self) -> bool {
        match self {
            ConverterState::Fresh => true,
            ConverterState::File(f) => f.wf(),
            ConverterState::Group(f, g) => f.wf() && g.wf(),
            ConverterState::Account(f, g, a) => f.wf() && g.wf() && a.wf(),
        }
    }

    /// Which level is open.
    pub fn progress(&self) -> (r: ConverterProgress)
        ensures
            r == self.spec_progress(),
    {
        match self {
            ConverterState::Fresh => ConverterProgress::Fresh,
            ConverterState::File(..) => ConverterProgress::File,
            ConverterState::Group(..) => ConverterProgress::Group,
            ConverterState::Account(..) => ConverterProgress::Account,
        }
    }
}

/// An error of conversion, with the indices of the group, account and
/// transaction being read: each counts the siblings already completed.
#[derive(Debug, Clone)]
pub enum ConvertError {
    /// The record at this index may not come in this state.
    RecordType { record: usize, progress: ConverterProgress },
    File(FileConvError),
    Group { group: usize, err: GroupConvError },
    Account { group: usize, account: usize, err: AccountConvError },
    TransactionDetail {
        group: usize,
        account: usize,
        transaction: usize,
        err: TransactionDetailConvError,
    },
}

/// What the converter says after each record.
#[derive(Debug, Clone)]
pub enum ConverterOutput {
    /// More records are needed.
    Active,
    /// The file trailer was read and the file is complete.
    Complete(data::File),
    /// The record was in error; the converter is done.
    Error(ConvertError),
    /// The converter was already done.
    Done,
}

impl ConverterOutput {
    pub open spec fn spec_expand(self) -> Option<Result<Option<data::File>, ConvertError>> {
        match self {
            ConverterOutput::Active => Some(Ok(None)),
            ConverterOutput::Complete(file) => Some(Ok(Some(file))),
            ConverterOutput::Error(e) => Some(Err(e)),
            ConverterOutput::Done => None,
        }
    }

    /// The output as a value: none once done, else the file, the error, or
    /// nothing yet.
    pub fn expand(self) -> (r: Option<Result<Option<data::File>, ConvertError>>)
        ensures
            r == self.spec_expand(),
    {
        match self {
            ConverterOutput::Active => Some(Ok(None)),
            ConverterOutput::Complete(file) => Some(Ok(Some(file))),
            ConverterOutput::Error(e) => Some(Err(e)),
            ConverterOutput::Done => None,
        }
    }
}

/// The output that an expanded output stands for.
pub open spec fn output_from(x: Option<Result<Option<data::File>, ConvertError>>) -> ConverterOutput {
    match x {
        Some(Ok(None)) => ConverterOutput::Active,
        Some(Ok(Some(file))) => ConverterOutput::Complete(file),
        Some(Err(e)) => ConverterOutput::Error(e),
        None => ConverterOutput::Done,
    }
}

impl From<Option<Result<Option<data::File>, ConvertError>>> for ConverterOutput {
    fn from(x: Option<Result<Option<data::File>, ConvertError>>) -> (r: ConverterOutput) {
        match x {
            Some(Ok(None)) => ConverterOutput::Active,
            Some(Ok(Some(file))) => ConverterOutput::Complete(file),
            Some(Err(e)) => ConverterOutput::Error(e),
            None => ConverterOutput::Done,
        }
    }
}

impl vstd::std_specs::convert::FromSpecImpl<Option<Result<Option<data::File>, ConvertError>>> for ConverterOutput {
    open spec fn obeys_from_spec() -> bool {
        true
    }

    open spec fn from_spec(x: Option<Result<Option<data::File>, ConvertError>>) -> ConverterOutput {
        output_from(x)
    }
}

/// Two files agree in everything but their groups.
pub open spec fn same_file_head(a: data::File, b: data::File) -> bool {
    a.sender == b.sender && a.receiver == b.receiver && a.creation == b.creation && a.ident == b.ident
}

/// Two groups agree in everything but their accounts.
pub open spec fn same_group_head(a: data::Group, b: data::Group) -> bool {
    &&& a.ultimate_receiver == b.ultimate_receiver
    &&& a.originator == b.originator
    &&& a.status == b.status
    &&& a.as_of == b.as_of
    &&& a.currency == b.currency
    &&& a.as_of_date_mod == b.as_of_date_mod
}

/// Two accounts agree in everything but their transactions.
pub open spec fn same_account_head(a: data::Account, b: data::Account) -> bool {
    a.customer_account == b.customer_account && a.currency == b.currency && a.infos == b.infos
}

/// What a transaction adds to its account's control total.
pub open spec fn td_amount(p: ParsedTransactionDetail) -> int {
    match p.amount {
        Some(a) => a as int,
        None => 0,
    }
}

/// The index of the next record: one more, unless it cannot grow.
pub open spec fn next_index(i: usize) -> usize {
    if i < usize::MAX {
        (i + 1) as usize
    } else {
        i
    }
}

/// The converter is done, having given `out`.
pub open spec fn stops(ns: Option<ConverterState>, out: ConverterOutput, e: ConvertError) -> bool {
    ns is None && out == ConverterOutput::Error(e)
}

/// One step of the converter from state `s` on the record at index `idx`:
/// `ns` is the next state (none once done) and `out` what is said.
pub open spec fn state_step<'a>(
    s: ConverterState,
    rec: ParsedRecord<'a>,
    ns: Option<ConverterState>,
    out: ConverterOutput,
    idx: usize,
    end_of_day: TimeOfDay,
) -> bool {
    match s {
        ConverterState::Fresh => match rec {
            ParsedRecord::FileHeader(fh) => match spec_date_time(
                fh.creation_date,
                fh.creation_time,
                end_of_day,
            ) {
                Err(e) => stops(ns, out, ConvertError::File(FileConvError::Creation(e))),
                Ok(_) => out is Active && (ns matches Some(ConverterState::File(f))
                    && file_header_converts(fh, f.data, end_of_day) && f.control_total == 0),
            },
            _ => stops(
                ns,
                out,
                ConvertError::RecordType { record: idx, progress: ConverterProgress::Fresh },
            ),
        },
        ConverterState::File(f) => match rec {
            ParsedRecord::GroupHeader(gh) => if group_header_ok(gh, end_of_day) {
                out is Active && (ns matches Some(ConverterState::Group(f2, g)) && f2 == f
                    && group_header_converts(gh, g.data, end_of_day) && g.control_total == 0)
            } else {
                ns is None && (out matches ConverterOutput::Error(ConvertError::Group { group, err })
                    && group == f.data.groups@.len() && group_header_fails(gh, end_of_day, err))
            },
            ParsedRecord::FileTrailer(ft) => if ft.control_total != f.control_total {
                stops(
                    ns,
                    out,
                    ConvertError::File(
                        FileConvError::ControlTotal {
                            expected: ft.control_total,
                            actual: f.control_total,
                        },
                    ),
                )
            } else if ft.groups_num != f.data.groups@.len() {
                stops(
                    ns,
                    out,
                    ConvertError::File(
                        FileConvError::GroupsNum {
                            expected: ft.groups_num,
                            actual: f.data.groups@.len() as usize,
                        },
                    ),
                )
            } else {
                ns is None && out == ConverterOutput::Complete(f.data)
            },
            _ => stops(
                ns,
                out,
                ConvertError::RecordType { record: idx, progress: ConverterProgress::File },
            ),
        },
        ConverterState::Group(f, g) => match rec {
            ParsedRecord::AccountIdent(ai) => if account_ident_ok(ai, end_of_day) {
                out is Active && (ns matches Some(ConverterState::Account(f2, g2, a)) && f2 == f && g2
                    == g && account_ident_converts(ai, a.data, end_of_day) && a.control_total
                    == infos_sum(a.data.infos@))
            } else {
                ns is None && (out matches ConverterOutput::Error(
                    ConvertError::Account { group, account, err },
                ) && group == f.data.groups@.len() && account == g.data.accounts@.len()
                    && account_ident_fails(ai, end_of_day, err))
            },
            ParsedRecord::GroupTrailer(gt) => if gt.control_total != g.control_total {
                stops(
                    ns,
                    out,
                    ConvertError::Group {
                        group: f.data.groups@.len() as usize,
                        err: GroupConvError::ControlTotal {
                            expected: gt.control_total,
                            actual: g.control_total,
                        },
                    },
                )
            } else if gt.accounts_num != g.data.accounts@.len() {
                stops(
                    ns,
                    out,
                    ConvertError::Group {
                        group: f.data.groups@.len() as usize,
                        err: GroupConvError::AccountsNum {
                            expected: gt.accounts_num,
                            actual: g.data.accounts@.len() as usize,
                        },
                    },
                )
            } else if !fits_i64(f.control_total + g.control_total) {
                stops(ns, out, ConvertError::File(FileConvError::ControlTotalOverflow))
            } else {
                out is Active && (ns matches Some(ConverterState::File(f2)) && same_file_head(
                    f2.data,
                    f.data,
                ) && f2.data.groups@ == f.data.groups@.push(g.data) && f2.control_total
                    == f.control_total + g.control_total)
            },
            _ => stops(
                ns,
                out,
                ConvertError::RecordType { record: idx, progress: ConverterProgress::Group },
            ),
        },
        ConverterState::Account(f, g, a) => match rec {
            ParsedRecord::TransactionDetail(td) => match td_error(td, end_of_day) {
                Some(e) => stops(
                    ns,
                    out,
                    ConvertError::TransactionDetail {
                        group: f.data.groups@.len() as usize,
                        account: g.data.accounts@.len() as usize,
                        transaction: a.data.transaction_details@.len() as usize,
                        err: e,
                    },
                ),
                None => if !fits_i64(a.control_total + td_amount(td)) {
                    stops(
                        ns,
                        out,
                        ConvertError::TransactionDetail {
                            group: f.data.groups@.len() as usize,
                            account: g.data.accounts@.len() as usize,
                            transaction: a.data.transaction_details@.len() as usize,
                            err: TransactionDetailConvError::ControlTotalOverflow,
                        },
                    )
                } else {
                    out is Active && (ns matches Some(ConverterState::Account(f2, g2, a2)) && f2 == f
                        && g2 == g && same_account_head(a2.data, a.data)
                        && a2.data.transaction_details@.len() == a.data.transaction_details@.len()
                        + 1 && a2.data.transaction_details@.drop_last()
                        == a.data.transaction_details@ && td_converts(
                        td,
                        a2.data.transaction_details@.last(),
                        end_of_day,
                    ) && a2.control_total == a.control_total + td_amount(td))
                },
            },
            ParsedRecord::AccountTrailer(at) => if at.control_total != a.control_total {
                stops(
                    ns,
                    out,
                    ConvertError::Account {
                        group: f.data.groups@.len() as usize,
                        account: g.data.accounts@.len() as usize,
                        err: AccountConvError::ControlTotal {
                            expected: at.control_total,
                            actual: a.control_total,
                        },
                    },
                )
            } else if !fits_i64(g.control_total + a.control_total) {
                stops(
                    ns,
                    out,
                    ConvertError::Group {
                        group: f.data.groups@.len() as usize,
                        err: GroupConvError::ControlTotalOverflow,
                    },
                )
            } else {
                out is Active && (ns matches Some(ConverterState::Group(f2, g2)) && f2 == f
                    && same_group_head(g2.data, g.data) && g2.data.accounts@
                    == g.data.accounts@.push(a.data) && g2.control_total == g.control_total
                    + a.control_total)
            },
            _ => stops(
                ns,
                out,
                ConvertError::RecordType { record: idx, progress: ConverterProgress::Account },
            ),
        },
    }
}

/// Feeds typed records, one at a time, into the nesting
/// file → group → account → transaction, checking each trailer.
pub struct Converter {
    state: Option<ConverterState>,
    records: usize,
    end_of_day: TimeOfDay,
}

/// One step of the converter `c` on `rec`, giving the converter `n` and the
/// output `out`.
pub open spec fn step<'a>(c: Converter, rec: ParsedRecord<'a>, n: Converter, out: ConverterOutput) -> bool {
    &&& n.spec_end_of_day() == c.spec_end_of_day()
    &&& match c.spec_state() {
        None => out is Done && n.spec_state() is None && n.spec_records() == c.spec_records(),
        Some(s) => n.spec_records() == next_index(c.spec_records()) && state_step(
            s,
            rec,
            n.spec_state(),
            out,
            c.spec_records(),
            c.spec_end_of_day(),
        ),
    }
}

impl Converter {
    /// The state, none once the converter is done.
    pub closed spec fn spec_state(&self) -> Option<ConverterState> {
        self.state
    }

    /// The number of records fed so far.
    pub closed spec fn spec_records(&self) -> usize {
        self.records
    }

    /// The time of day that the time 9999 stands for.
    pub closed spec fn spec_end_of_day(&self) -> TimeOfDay {
        self.end_of_day
    }

    pub open spec fn wf(&self) -> bool {
        match self.spec_state() {
            Some(s) => s.wf(),
            None => true,
        }
    }

    pub open spec fn is_fresh(&self, end_of_day: TimeOfDay) -> bool {
        &&& self.spec_state() == Some(ConverterState::Fresh)
        &&& self.spec_records() == 0
        &&& self.spec_end_of_day() == end_of_day
    }

    /// Where the converter stands; none once it is done.
    pub fn progress(&self) -> (r: Option<ConverterProgress>)
        ensures
            r == (match self.spec_state() {
                Some(s) => Some(s.spec_progress()),
                None => None,
            }),
    {
        match &self.state {
            Some(s) => Some(s.progress()),
            None => None,
        }
    }

    /// A converter that has seen no record; the time 9999 will stand for
    /// `end_of_day`.
    pub fn new(end_of_day: TimeOfDay) -> (r: Converter)
        ensures
            r.is_fresh(end_of_day),
            r.wf(),
    {
        Converter { state: Some(ConverterState::Fresh), records: 0, end_of_day }
    }

    /// Feeds one record.
    pub fn process<'a>(&mut self, record: ParsedRecord<'a>) -> (r: ConverterOutput)
        requires
            old(self).wf(),
        ensures
            final(self).wf(),
            step(*old(self), record, *final(self), r),
    {
        let idx = self.records;
        let end_of_day = self.end_of_day;
        let state = match self.state.take() {
            Some(s) => s,
            None => return ConverterOutput::Done,
        };
        self.records = if idx < usize::MAX {
            idx + 1
        } else {
            idx
        };
        match state {
            ConverterState::Fresh => match record {
                ParsedRecord::FileHeader(fh) => match fh.convert(end_of_day) {
                    Ok(file) => {
                        self.state = Some(ConverterState::File(FileConvState::new(file)));
                        ConverterOutput::Active
                    },
                    Err(e) => ConverterOutput::Error(ConvertError::File(e)),
                },
                _ => ConverterOutput::Error(
                    ConvertError::RecordType { record: idx, progress: ConverterProgress::Fresh },
                ),
            },
            ConverterState::File(f) => match record {
                ParsedRecord::GroupHeader(gh) => match gh.convert(end_of_day) {
                    Ok(group) => {
                        self.state = Some(ConverterState::Group(f, GroupConvState::new(group)));
                        ConverterOutput::Active
                    },
                    Err(err) => ConverterOutput::Error(
                        ConvertError::Group { group: f.data.groups.len(), err },
                    ),
                },
                ParsedRecord::FileTrailer(ft) => {
                    if ft.control_total != f.control_total {
                        ConverterOutput::Error(
                            ConvertError::File(
                                FileConvError::ControlTotal {
                                    expected: ft.control_total,
                                    actual: f.control_total,
                                },
                            ),
                        )
                    } else if ft.groups_num != f.data.groups.len() {
                        ConverterOutput::Error(
                            ConvertError::File(
                                FileConvError::GroupsNum {
                                    expected: ft.groups_num,
                                    actual: f.data.groups.len(),
                                },
                            ),
                        )
                    } else {
                        ConverterOutput::Complete(f.data)
                    }
                },
                _ => ConverterOutput::Error(
                    ConvertError::RecordType { record: idx, progress: ConverterProgress::File },
                ),
            },
            ConverterState::Group(f, g) => match record {
                ParsedRecord::AccountIdent(ai) => match ai.convert(end_of_day) {
                    Ok((account, control_total)) => {
                        proof {
                            assert(account_sum(account) == infos_sum(account.infos@));
                        }
                        self.state = Some(
                            ConverterState::Account(
                                f,
                                g,
                                AccountConvState { data: account, control_total },
                            ),
                        );
                        ConverterOutput::Active
                    },
                    Err(err) => ConverterOutput::Error(
                        ConvertError::Account {
                            group: f.data.groups.len(),
                            account: g.data.accounts.len(),
                            err,
                        },
                    ),
                },
                ParsedRecord::GroupTrailer(gt) => {
                    if gt.control_total != g.control_total {
                        ConverterOutput::Error(
                            ConvertError::Group {
                                group: f.data.groups.len(),
                                err: GroupConvError::ControlTotal {
                                    expected: gt.control_total,
                                    actual: g.control_total,
                                },
                            },
                        )
                    } else if gt.accounts_num != g.data.accounts.len() {
                        ConverterOutput::Error(
                            ConvertError::Group {
                                group: f.data.groups.len(),
                                err: GroupConvError::AccountsNum {
                                    expected: gt.accounts_num,
                                    actual: g.data.accounts.len(),
                                },
                            },
                        )
                    } else {
                        match f.control_total.checked_add(g.control_total) {
                            None => ConverterOutput::Error(
                                ConvertError::File(FileConvError::ControlTotalOverflow),
                            ),
                            Some(t) => {
                                let mut f = f;
                                let ghost old_groups = f.data.groups@;
                                f.data.groups.push(g.data);
                                f.control_total = t;
                                proof {
                                    assert(f.data.groups@.drop_last() == old_groups);
                                }
                                self.state = Some(ConverterState::File(f));
                                ConverterOutput::Active
                            },
                        }
                    }
                },
                _ => ConverterOutput::Error(
                    ConvertError::RecordType { record: idx, progress: ConverterProgress::Group },
                ),
            },
            ConverterState::Account(f, g, a) => match record {
                ParsedRecord::TransactionDetail(td) => {
                    let group = f.data.groups.len();
                    let account = g.data.accounts.len();
                    let transaction = a.data.transaction_details.len();
                    let amount: u64 = match td.amount {
                        Some(x) => x,
                        None => 0,
                    };
                    match td.convert(end_of_day) {
                        Err(err) => ConverterOutput::Error(
                            ConvertError::TransactionDetail { group, account, transaction, err },
                        ),
                        Ok(t) => match a.control_total.checked_add_unsigned(amount) {
                            None => ConverterOutput::Error(
                                ConvertError::TransactionDetail {
                                    group,
                                    account,
                                    transaction,
                                    err: TransactionDetailConvError::ControlTotalOverflow,
                                },
                            ),
                            Some(ct) => {
                                let mut a = a;
                                let ghost old_tds = a.data.transaction_details@;
                                a.data.transaction_details.push(t);
                                a.control_total = ct;
                                proof {
                                    assert(a.data.transaction_details@.drop_last() == old_tds);
                                }
                                self.state = Some(ConverterState::Account(f, g, a));
                                ConverterOutput::Active
                            },
                        },
                    }
                },
                ParsedRecord::AccountTrailer(at) => {
                    if at.control_total != a.control_total {
                        ConverterOutput::Error(
                            ConvertError::Account {
                                group: f.data.groups.len(),
                                account: g.data.accounts.len(),
                                err: AccountConvError::ControlTotal {
                                    expected: at.control_total,
                                    actual: a.control_total,
                                },
                            },
                        )
                    } else {
                        match g.control_total.checked_add(a.control_total) {
                            None => ConverterOutput::Error(
                                ConvertError::Group {
                                    group: f.data.groups.len(),
                                    err: GroupConvError::ControlTotalOverflow,
                                },
                            ),
                            Some(t) => {
                                let mut g = g;
                                let ghost old_accounts = g.data.accounts@;
                                g.data.accounts.push(a.data);
                                g.control_total = t;
                                proof {
                                    assert(g.data.accounts@.drop_last() == old_accounts);
                                }
                                self.state = Some(ConverterState::Group(f, g));
                                ConverterOutput::Active
                            },
                        }
                    }
                },
                _ => ConverterOutput::Error(
                    ConvertError::RecordType { record: idx, progress: ConverterProgress::Account },
                ),
            },
        }
    }
}

/// The last output other than `Done`; `Active` when there is none.
pub open spec fn outcome(outs: Seq<ConverterOutput>) -> ConverterOutput
    decreases outs.len(),
{
    if outs.len() == 0 {
        ConverterOutput::Active
    } else if outs.last() is Done {
        outcome(outs.drop_last())
    } else {
        outs.last()
    }
}

/// Feeding `recs` in order, starting from `cs[0]`, passes through the
/// converters `cs` and gives the outputs `outs`.
pub open spec fn is_run<'a>(
    cs: Seq<Converter>,
    recs: Seq<ParsedRecord<'a>>,
    outs: Seq<ConverterOutput>,
) -> bool {
    &&& cs.len() == recs.len() + 1
    &&& outs.len() == recs.len()
    &&& forall|i: int| 0 <= i < recs.len() ==> #[trigger] step(cs[i], recs[i], cs[i + 1], outs[i])
}

/// The file, else the error, else none when the records ran out first.
pub open spec fn fold_result(o: ConverterOutput) -> Result<data::File, Option<ConvertError>> {
    match o {
        ConverterOutput::Complete(f) => Ok(f),
        ConverterOutput::Error(e) => Err(Some(e)),
        _ => Err(None),
    }
}

/// Every item is an `Ok`.
pub open spec fn all_ok<'a, E>(recs: Seq<Result<ParsedRecord<'a>, E>>) -> bool {
    forall|i: int| 0 <= i < recs.len() ==> (#[trigger] recs[i]) is Ok
}

/// No output is an error.
pub open spec fn no_error(outs: Seq<ConverterOutput>) -> bool {
    forall|i: int| 0 <= i < outs.len() ==> !((#[trigger] outs[i]) is Error)
}

/// How `fold_results` ends after feeding the first `m` items, all `Ok`, to a
/// fresh converter along the run `cs`, `outs`: at the converter's first
/// error; else at the first `Err` item; else at the end of the items.
pub open spec fn fold_results_end<'a, E, O: FnOnce(Option<ConvertError>) -> E>(
    recs: Seq<Result<ParsedRecord<'a>, E>>,
    m: int,
    outs: Seq<ConverterOutput>,
    op: O,
    r: Result<data::File, E>,
) -> bool {
    if outs.len() > 0 && outs.last() is Error {
        &&& no_error(outs.drop_last())
        &&& outs.last() matches ConverterOutput::Error(c) && (r matches Err(x) && op.ensures(
            (Some(c),),
            x,
        ))
    } else if m < recs.len() {
        &&& no_error(outs)
        &&& recs[m] matches Err(e) && r == Err::<data::File, E>(e)
    } else {
        &&& no_error(outs)
        &&& m == recs.len()
        &&& match outcome(outs) {
            ConverterOutput::Complete(f) => r == Ok::<data::File, E>(f),
            _ => r matches Err(x) && op.ensures((None,), x),
        }
    }
}

/// The records inside the `Ok`s.
pub open spec fn ok_records<'a, E>(recs: Seq<Result<ParsedRecord<'a>, E>>) -> Seq<ParsedRecord<'a>> {
    recs.map_values(
        |x: Result<ParsedRecord<'a>, E>|
            match x {
                Ok(r) => r,
                Err(_) => arbitrary(),
            },
    )
}

/// Reverses a vector by moving its items.
fn reversed<T>(v: Vec<T>) -> (r: Vec<T>)
    ensures
        r@.len() == v@.len(),
        forall|j: int| 0 <= j < r@.len() ==> r@[j] == v@[v@.len() - 1 - j],
{
    let ghost orig = v@;
    let n = v.len();
    let mut v = v;
    let mut r: Vec<T> = Vec::new();
    while v.len() > 0
        invariant
            r@.len() + v@.len() == n,
            n == orig.len(),
            v@ == orig.take(v@.len() as int),
            forall|j: int| 0 <= j < r@.len() ==> r@[j] == orig[n - 1 - j],
        decreases v@.len(),
    {
        let ghost before = v@;
        match v.pop() {
            Some(x) => {
                r.push(x);
                assert(v@ == orig.take(v@.len() as int)) by {
                    assert(before.drop_last() == v@);
                }
            },
            None => {},
        }
    }
    r
}

impl Converter {
    /// Feeds all records, in order, into a fresh converter: the completed
    /// file, else the error, else none when the records end first.
    pub fn fold<'a>(records: Vec<ParsedRecord<'a>>, end_of_day: TimeOfDay) -> (r: Result<
        data::File,
        Option<ConvertError>,
    >)
        ensures
            exists|cs: Seq<Converter>, outs: Seq<ConverterOutput>|
                is_run(cs, records@, outs) && cs[0].is_fresh(end_of_day) && r == fold_result(
                    outcome(outs),
                ),
    {
        let ghost recs = records@;
        let n = records.len();
        let mut rev = reversed(records);
        let mut converter = Converter::new(end_of_day);
        let mut acc = ConverterOutput::Active;
        let ghost mut cs: Seq<Converter> = seq![converter];
        let ghost mut outs: Seq<ConverterOutput> = seq![];
        let mut i: usize = 0;
        while rev.len() > 0
            invariant
                i + rev@.len() == n,
                n == recs.len(),
                forall|j: int| 0 <= j < rev@.len() ==> rev@[j] == recs[n - 1 - j],
                converter.wf(),
                is_run(cs, recs.take(i as int), outs),
                cs[0].is_fresh(end_of_day),
                cs.last() == converter,
                acc == outcome(outs),
            decreases rev@.len(),
        {
            let ghost before = rev@;
            let r = rev.pop().unwrap();
            assert(r == recs[i as int]);
            let ghost c0 = converter;
            let out = converter.process(r);
            proof {
                let ghost old_cs = cs;
                let ghost old_outs = outs;
                cs = cs.push(converter);
                outs = outs.push(out);
                assert(outs.drop_last() == old_outs);
                assert forall|j: int| 0 <= j < i + 1 implies #[trigger] step(
                    cs[j],
                    recs.take(i + 1)[j],
                    cs[j + 1],
                    outs[j],
                ) by {
                    if j < i {
                        assert(recs.take(i + 1)[j] == recs.take(i as int)[j]);
                        assert(step(old_cs[j], recs.take(i as int)[j], old_cs[j + 1], old_outs[j]));
                    }
                }
                assert(before.drop_last() == rev@);
            }
            acc = match out {
                ConverterOutput::Done => acc,
                o => o,
            };
            i = i + 1;
        }
        assert(recs.take(n as int) == recs);
        assert(is_run(cs, recs, outs));
        match acc {
            ConverterOutput::Complete(data) => Ok(data),
            ConverterOutput::Error(e) => Err(Some(e)),
            _ => Err(None),
        }
    }
}

impl Converter {
    /// Feeds the records, in order, into a fresh converter, and stops at the
    /// first failure: an item that is an `Err`, which is returned, or a
    /// record that the converter rejects, whose error `op` turns into the
    /// result. When neither comes, the completed file is returned, or what
    /// `op` makes of none when the records end before the file does.
    pub fn fold_results<'a, E, O: FnOnce(Option<ConvertError>) -> E>(
        records: Vec<Result<ParsedRecord<'a>, E>>,
        end_of_day: TimeOfDay,
        op: O,
    ) -> (r: Result<data::File, E>)
        requires
            forall|x: Option<ConvertError>| op.requires((x,)),
        ensures
            exists|m: int, cs: Seq<Converter>, outs: Seq<ConverterOutput>|
                0 <= m <= records@.len() && all_ok(records@.take(m)) && #[trigger] is_run(
                    cs,
                    ok_records(records@.take(m)),
                    outs,
                ) && cs[0].is_fresh(end_of_day) && fold_results_end(records@, m, outs, op, r),
    {
        let ghost recs = records@;
        let n = records.len();
        let mut rev = reversed(records);
        let mut converter = Converter::new(end_of_day);
        let mut acc = ConverterOutput::Active;
        let ghost mut cs: Seq<Converter> = seq![converter];
        let ghost mut outs: Seq<ConverterOutput> = seq![];
        let mut i: usize = 0;
        #[verifier::loop_isolation(false)]
        while rev.len() > 0
            invariant
                i + rev@.len() == n,
                n == recs.len(),
                recs == records@,
                forall|j: int| 0 <= j < rev@.len() ==> rev@[j] == recs[n - 1 - j],
                converter.wf(),
                is_run(cs, ok_records(recs.take(i as int)), outs),
                cs[0].is_fresh(end_of_day),
                cs.last() == converter,
                acc == outcome(outs),
                all_ok(recs.take(i as int)),
                no_error(outs),
            decreases rev@.len(),
        {
            let ghost before = rev@;
            let item = rev.pop().unwrap();
            assert(item == recs[i as int]);
            assert(before.drop_last() == rev@);
            let rec = match item {
                Ok(rec) => rec,
                Err(e) => {
                    proof {
                        assert(fold_results_end(recs, i as int, outs, op, Err::<data::File, E>(e)));
                    }
                    return Err(e);
                },
            };
            let out = converter.process(rec);
            proof {
                let ghost old_cs = cs;
                let ghost old_outs = outs;
                cs = cs.push(converter);
                outs = outs.push(out);
                assert(outs.drop_last() == old_outs);
                assert(recs.take(i + 1).drop_last() == recs.take(i as int));
                assert forall|j: int| 0 <= j < i + 1 implies (#[trigger] recs.take(i + 1)[j]) is Ok by {
                    if j < i {
                        assert(recs.take(i + 1)[j] == recs.take(i as int)[j]);
                    }
                }
                let fed = ok_records(recs.take(i + 1));
                assert(fed.len() == i + 1);
                assert forall|j: int| 0 <= j < i + 1 implies #[trigger] step(
                    cs[j],
                    fed[j],
                    cs[j + 1],
                    outs[j],
                ) by {
                    if j < i {
                        assert(fed[j] == ok_records(recs.take(i as int))[j]);
                        assert(step(
                            old_cs[j],
                            ok_records(recs.take(i as int))[j],
                            old_cs[j + 1],
                            old_outs[j],
                        ));
                    }
                }
                assert(is_run(cs, ok_records(recs.take(i + 1)), outs));
            }
            match out {
                ConverterOutput::Error(c) => {
                    let x = op(Some(c));
                    proof {
                        assert(fold_results_end(recs, i + 1, outs, op, Err::<data::File, E>(x)));
                    }
                    return Err(x);
                },
                ConverterOutput::Done => {},
                o => {
                    acc = o;
                },
            }
            proof {
                assert forall|j: int| 0 <= j < outs.len() implies !((#[trigger] outs[j]) is Error) by {
                    if j < outs.len() - 1 {
                        assert(outs[j] == outs.drop_last()[j]);
                    }
                }
            }
            i = i + 1;
        }
        assert(recs.take(n as int) == recs);
        let r = match acc {
            ConverterOutput::Complete(data) => Ok(data),
            _ => Err(op(None)),
        };
        proof {
            assert(fold_results_end(recs, n as int, outs, op, r));
        }
        r
    }
}

/// Each trailer that the converter accepts carries the sum of the amounts
/// below it: an account trailer that of the account's infos and
/// transactions, a group trailer that of its accounts, a file trailer that
/// of its groups.
pub proof fn lemma_trailer_totals<'a>(
    s: ConverterState,
    rec: ParsedRecord<'a>,
    ns: Option<ConverterState>,
    out: ConverterOutput,
    idx: usize,
    end_of_day: TimeOfDay,
)
    requires
        s.wf(),
        state_step(s, rec, ns, out, idx, end_of_day),
        !(out is Error),
    ensures
        match (s, rec) {
            (ConverterState::Account(_, _, a), ParsedRecord::AccountTrailer(at)) => at.control_total
                == account_sum(a.data),
            (ConverterState::Group(_, g), ParsedRecord::GroupTrailer(gt)) => gt.control_total
                == accounts_sum(g.data.accounts@),
            (ConverterState::File(_), ParsedRecord::FileTrailer(ft)) => out matches ConverterOutput::Complete(
                file,
            ) && ft.control_total == groups_sum(file.groups@),
            _ => true,
        },
{
}

/// The time 9999 stands for the caller's end-of-day time; every other time
/// is read as it is written, whatever the end-of-day time.
pub proof fn lemma_end_of_day(d: Date, t: Time, end_of_day: TimeOfDay, other: TimeOfDay)
    ensures
        is_end_of_day(t) ==> match spec_date(d) {
            Ok(cd) => spec_date_time(d, t, end_of_day) == Ok::<DateTime, ChronoError>(
                DateTime { date: cd, time: end_of_day },
            ),
            Err(e) => spec_date_time(d, t, end_of_day) == Err::<DateTime, ChronoError>(e),
        },
        !is_end_of_day(t) ==> spec_date_time(d, t, end_of_day) == spec_date_time(d, t, other),
        !is_end_of_day(t) ==> (spec_date_time(d, t, end_of_day) matches Ok(dt) ==> dt.time
            == TimeOfDay { hour: t.hour as u32, minute: t.minute as u32, second: 0 }),
{
}

/// An error carries the indices of the group, account and transaction being
/// read when it occurred: each is the number of siblings already completed,
/// and the indices of levels that are not open are left out.
pub proof fn lemma_error_indices<'a>(
    s: ConverterState,
    rec: ParsedRecord<'a>,
    ns: Option<ConverterState>,
    out: ConverterOutput,
    idx: usize,
    end_of_day: TimeOfDay,
)
    requires
        state_step(s, rec, ns, out, idx, end_of_day),
    ensures
        out matches ConverterOutput::Error(ConvertError::TransactionDetail { group, account, transaction, .. })
            ==> s matches ConverterState::Account(f, g, a) && group == f.data.groups@.len() as usize
            && account == g.data.accounts@.len() as usize && transaction
            == a.data.transaction_details@.len() as usize,
        out matches ConverterOutput::Error(ConvertError::Account { group, account, .. }) ==> (s
            matches ConverterState::Account(f, g, _) && group == f.data.groups@.len() as usize && account
            == g.data.accounts@.len() as usize) || (s matches ConverterState::Group(f, g) && group
            == f.data.groups@.len() as usize && account == g.data.accounts@.len() as usize),
        out matches ConverterOutput::Error(ConvertError::Group { group, .. }) ==> match s {
            ConverterState::File(f) => group == f.data.groups@.len() as usize,
            ConverterState::Group(f, _) => group == f.data.groups@.len() as usize,
            ConverterState::Account(f, _, _) => group == f.data.groups@.len() as usize,
            ConverterState::Fresh => false,
        },
        out matches ConverterOutput::Error(ConvertError::RecordType { record, .. }) ==> record
            == idx,
{
}

} // verus!
