//! The file tree that a BAI2 stream converts to.

use vstd::prelude::*;
use crate::calendar::{CalendarDate, DateTime};
pub use crate::type_codes::{DetailCode, StatusCode, SummaryCode, TypeCode};

verus! {

/// A date, or a date with a time of day.
#[derive(Debug, Clone, Copy, PartialEq, Eq, Structural)]
pub enum NaiveDateOrTime {
    Date(CalendarDate),
    DateTime(DateTime),
}

impl NaiveDateOrTime {
    pub open spec fn spec_date(self) -> CalendarDate {
        match self {
            NaiveDateOrTime::Date(d) => d,
            NaiveDateOrTime::DateTime(dt) => dt.date,
        }
    }

    pub fn date(self) -> (r: CalendarDate)
        ensures
            r == self.spec_date(),
    {
        match self {
            NaiveDateOrTime::Date(d) => d,
            NaiveDateOrTime::DateTime(dt) => dt.date,
        }
    }

    pub fn date_ref(&self) -> (r: CalendarDate)
        ensures
            r == self.spec_date(),
    {
        match self {
            NaiveDateOrTime::Date(d) => *d,
            NaiveDateOrTime::DateTime(dt) => dt.date,
        }
    }

    pub fn date_time(self) -> (r: Option<DateTime>)
        ensures
            r == (match self {
                NaiveDateOrTime::Date(_) => None,
                NaiveDateOrTime::DateTime(dt) => Some(dt),
            }),
    {
        match self {
            NaiveDateOrTime::Date(_) => None,
            NaiveDateOrTime::DateTime(dt) => Some(dt),
        }
    }

    pub fn date_time_ref(&self) -> (r: Option<&DateTime>)
        ensures
            r == (match *self {
                NaiveDateOrTime::Date(_) => None,
                NaiveDateOrTime::DateTime(dt) => Some(&dt),
            }),
    {
        match self {
            NaiveDateOrTime::Date(_) => None,
            NaiveDateOrTime::DateTime(dt) => Some(dt),
        }
    }
}

/// A whole BAI2 file.
#[derive(Debug, Clone)]
pub struct File {
    pub sender: Party,
    pub receiver: Party,
    pub creation: DateTime,
    pub ident: FileIdent,
    pub groups: Vec<Group>,
}

/// A sender or receiver identification.
#[derive(Debug, Clone)]
pub struct Party(pub String);

/// The identification number of a file.
#[derive(Debug, Clone, Copy, PartialEq, Eq, Structural)]
pub struct FileIdent(pub u32);

/// A three-letter ISO 4217 currency code.
#[derive(Debug, Clone)]
pub struct CurrencyCode(pub String);

/// Whether a string is the code of a currency in the ISO 4217 list.
pub uninterp spec fn iso_currency_code(s: Seq<char>) -> bool;

/// Relies on `penny::Currency`'s `FromStr`: it finds the currency whose
/// code is the given string, and fails on any other string.
#[verifier::external_body]
pub(crate) fn is_currency_code(s: &str) -> (r: bool)
    ensures
        r == iso_currency_code(s@),
{
    s.parse::<penny::Currency>().is_ok()
}

/// A group of accounts from one originator.
#[derive(Debug, Clone)]
pub struct Group {
    pub ultimate_receiver: Option<Party>,
    /// Optional because some senders leave it out.
    pub originator: Option<Party>,
    pub status: GroupStatus,
    pub as_of: NaiveDateOrTime,
    pub currency: Option<CurrencyCode>,
    pub as_of_date_mod: Option<AsOfDateModifier>,
    pub accounts: Vec<Account>,
}

impl Group {
    /// The group's currency, US dollars when none is given.
    pub fn currency_def(&self) -> (r: CurrencyCode)
        ensures
            r.0@ == (match self.currency {
                Some(c) => c.0@,
                None => "USD"@,
            }),
    {
        match &self.currency {
            Some(c) => CurrencyCode(c.0.as_str().to_owned()),
            None => CurrencyCode("USD".to_owned()),
        }
    }
}

/// The status of a group.
#[derive(Debug, Clone, Copy, PartialEq, Eq, Structural)]
pub enum GroupStatus {
    Update,
    Deletion,
    Correction,
    TestOnly,
}

impl GroupStatus {
    pub open spec fn spec_from(x: u8) -> Option<GroupStatus> {
        if x == 1 {
            Some(GroupStatus::Update)
        } else if x == 2 {
            Some(GroupStatus::Deletion)
        } else if x == 3 {
            Some(GroupStatus::Correction)
        } else if x == 4 {
            Some(GroupStatus::TestOnly)
        } else {
            None
        }
    }

    /// The status encoded by 1–4; any other value is handed back.
    pub fn try_from(x: u8) -> (r: Result<GroupStatus, u8>)
        ensures
            r == (match GroupStatus::spec_from(x) {
                Some(s) => Ok::<GroupStatus, u8>(s),
                None => Err(x),
            }),
    {
        match x {
            1 => Ok(GroupStatus::Update),
            2 => Ok(GroupStatus::Deletion),
            3 => Ok(GroupStatus::Correction),
            4 => Ok(GroupStatus::TestOnly),
            _ => Err(x),
        }
    }
}

impl GroupStatus {
    pub open spec fn spec_code(self) -> u8 {
        match self {
            GroupStatus::Update => 1,
            GroupStatus::Deletion => 2,
            GroupStatus::Correction => 3,
            GroupStatus::TestOnly => 4,
        }
    }
}

impl From<GroupStatus> for u8 {
    fn from(s: GroupStatus) -> (r: u8) {
        match s {
            GroupStatus::Update => 1,
            GroupStatus::Deletion => 2,
            GroupStatus::Correction => 3,
            GroupStatus::TestOnly => 4,
        }
    }
}

impl vstd::std_specs::convert::FromSpecImpl<GroupStatus> for u8 {
    open spec fn obeys_from_spec() -> bool {
        true
    }

    open spec fn from_spec(s: GroupStatus) -> u8 {
        s.spec_code()
    }
}

/// Which day's data a group reports, and whether it is final.
#[derive(Debug, Clone, Copy, PartialEq, Eq, Structural)]
pub enum AsOfDateModifier {
    InterimPrevious,
    FinalPrevious,
    InterimSame,
    FinalSame,
}

impl AsOfDateModifier {
    pub open spec fn spec_from(x: u8) -> Option<AsOfDateModifier> {
        if x == 1 {
            Some(AsOfDateModifier::InterimPrevious)
        } else if x == 2 {
            Some(AsOfDateModifier::FinalPrevious)
        } else if x == 3 {
            Some(AsOfDateModifier::InterimSame)
        } else if x == 4 {
            Some(AsOfDateModifier::FinalSame)
        } else {
            None
        }
    }

    /// The modifier encoded by 1–4; any other value is handed back.
    pub fn try_from(x: u8) -> (r: Result<AsOfDateModifier, u8>)
        ensures
            r == (match AsOfDateModifier::spec_from(x) {
                Some(s) => Ok::<AsOfDateModifier, u8>(s),
                None => Err(x),
            }),
    {
        match x {
            1 => Ok(AsOfDateModifier::InterimPrevious),
            2 => Ok(AsOfDateModifier::FinalPrevious),
            3 => Ok(AsOfDateModifier::InterimSame),
            4 => Ok(AsOfDateModifier::FinalSame),
            _ => Err(x),
        }
    }
}

impl AsOfDateModifier {
    pub open spec fn spec_code(self) -> u8 {
        match self {
            AsOfDateModifier::InterimPrevious => 1,
            AsOfDateModifier::FinalPrevious => 2,
            AsOfDateModifier::InterimSame => 3,
            AsOfDateModifier::FinalSame => 4,
        }
    }
}

impl From<AsOfDateModifier> for u8 {
    fn from(m: AsOfDateModifier) -> (r: u8) {
        match m {
            AsOfDateModifier::InterimPrevious => 1,
            AsOfDateModifier::FinalPrevious => 2,
            AsOfDateModifier::InterimSame => 3,
            AsOfDateModifier::FinalSame => 4,
        }
    }
}

impl vstd::std_specs::convert::FromSpecImpl<AsOfDateModifier> for u8 {
    open spec fn obeys_from_spec() -> bool {
        true
    }

    open spec fn from_spec(m: AsOfDateModifier) -> u8 {
        m.spec_code()
    }
}

/// One account of a group.
#[derive(Debug, Clone)]
pub struct Account {
    pub customer_account: AccountNumber,
    pub currency: Option<CurrencyCode>,
    pub infos: Vec<AccountInfo>,
    pub transaction_details: Vec<TransactionDetail>,
}

impl Account {
    /// The account's currency, the group's when none is given.
    pub fn currency_def(&self, group_cur: CurrencyCode) -> (r: CurrencyCode)
        ensures
            r.0@ == (match self.currency {
                Some(c) => c.0@,
                None => group_cur.0@,
            }),
    {
        match &self.currency {
            Some(c) => CurrencyCode(c.0.as_str().to_owned()),
            None => group_cur,
        }
    }
}

/// A status or summary entry of an account.
#[derive(Debug, Clone)]
pub enum AccountInfo {
    Summary {
        code: SummaryCode,
        amount: Option<u64>,
        item_count: Option<u32>,
        funds: Option<FundsType>,
    },
    Status { code: StatusCode, amount: Option<i64> },
}

impl AccountInfo {
    /// What the entry adds to its account's control total.
    pub open spec fn spec_control_amount(&self) -> int {
        match self {
            AccountInfo::Summary { amount, .. } => match amount {
                Some(a) => *a as int,
                None => 0,
            },
            AccountInfo::Status { amount, .. } => match amount {
                Some(a) => *a as int,
                None => 0,
            },
        }
    }
}

impl AccountInfo {
    /// The entry's amount as a signed number; none when it has none, or when
    /// a summary amount lies beyond the signed range.
    pub fn signed_amount(&self) -> (r: Option<i64>)
        ensures
            r == (match self {
                AccountInfo::Summary { amount, .. } => match amount {
                    Some(a) => if *a <= i64::MAX as u64 {
                        Some(*a as i64)
                    } else {
                        None
                    },
                    None => None,
                },
                AccountInfo::Status { amount, .. } => *amount,
            }),
    {
        match self {
            AccountInfo::Summary { amount, .. } => match amount {
                Some(a) => if *a <= i64::MAX as u64 {
                    Some(*a as i64)
                } else {
                    None
                },
                None => None,
            },
            AccountInfo::Status { amount, .. } => *amount,
        }
    }
}

/// A customer account number.
#[derive(Debug, Clone)]
pub struct AccountNumber(pub String);

/// When the funds of an entry become available.
#[derive(Debug, Clone)]
pub enum FundsType {
    Unknown,
    ImmediateAvail,
    OneDayAvail,
    TwoOrMoreDaysAvail,
    DistributedAvailS {
        immediate: Option<i64>,
        one_day: Option<i64>,
        more_than_one_day: Option<i64>,
    },
    ValueDated(NaiveDateOrTime),
    DistributedAvailD(Vec<DistributedAvailDistribution>),
}

/// An amount that becomes available after a number of days.
#[derive(Debug, Clone, Copy, PartialEq, Eq, Structural)]
pub struct DistributedAvailDistribution {
    pub days: u32,
    pub amount: i64,
}

/// One transaction of an account.
#[derive(Debug, Clone)]
pub struct TransactionDetail {
    pub code: DetailCode,
    pub amount: Option<u64>,
    pub funds: Option<FundsType>,
    pub bank_ref_num: Option<ReferenceNum>,
    pub customer_ref_num: Option<ReferenceNum>,
    pub text: Option<Vec<String>>,
}

impl TransactionDetail {
    /// The transaction's amount as a signed number; none when it has none or
    /// when it lies beyond the signed range.
    pub fn signed_amount(&self) -> (r: Option<i64>)
        ensures
            r == (match self.amount {
                Some(a) => if a <= i64::MAX as u64 {
                    Some(a as i64)
                } else {
                    None
                },
                None => None,
            }),
    {
        match self.amount {
            Some(a) => if a <= i64::MAX as u64 {
                Some(a as i64)
            } else {
                None
            },
            None => None,
        }
    }
}

/// A bank or customer reference number.
#[derive(Debug, Clone)]
pub struct ReferenceNum(pub String);

} // verus!
