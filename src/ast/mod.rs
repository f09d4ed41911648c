//! The records of a BAI2 stream, first with their fields as raw bytes, then
//! with each field typed.

pub mod convert;
pub mod parse;

use vstd::prelude::*;

verus! {

/// A date as written in a record: two digits each of year, month and day.
#[derive(Debug, Clone, Copy, PartialEq, Eq, Structural)]
pub struct Date {
    pub year: u8,
    pub month: u8,
    pub day: u8,
}

/// A time as written in a record: two digits each of hour and minute.
#[derive(Debug, Clone, Copy, PartialEq, Eq, Structural)]
pub struct Time {
    pub hour: u8,
    pub minute: u8,
}

/// Marks the file header (01) record.
pub struct FileHeader;

/// Marks the group header (02) record.
pub struct GroupHeader;

/// Marks the account identifier (03) record.
pub struct AccountIdent;

/// Marks the transaction detail (16) record.
pub struct TransactionDetail;

/// Marks the account trailer (49) record.
pub struct AccountTrailer;

/// Marks the group trailer (98) record.
pub struct GroupTrailer;

/// Marks the file trailer (99) record.
pub struct FileTrailer;

/// Marks an account info tuple of an 03 record.
pub struct AccountInfo;

/// Marks one (days, amount) pair of a distributed availability.
pub struct DistributedAvailDistribution;

/// Marks a funds type.
pub struct FundsType;

/// Marks a record of any kind.
pub struct Record;

#[derive(Debug, Clone, Copy, PartialEq, Eq, Structural)]
pub enum FileHeaderField {
    SenderIdent,
    ReceiverIdent,
    CreationDate,
    CreationTime,
    IdentNum,
    PhysicalRecordLen,
    BlockSize,
    VersionNumber,
}

#[derive(Debug, Clone, Copy, PartialEq, Eq, Structural)]
pub enum GroupHeaderField {
    UltimateReceiverIdent,
    OriginatorIdent,
    Status,
    AsOfDate,
    AsOfTime,
    Currency,
    AsOfDateMod,
}

#[derive(Debug, Clone, Copy, PartialEq, Eq, Structural)]
pub enum AccountIdentField {
    CustomerAccountNum,
    Currency,
    Infos,
}

#[derive(Debug, Clone, Copy, PartialEq, Eq, Structural)]
pub enum TransactionDetailField {
    TypeCode,
    Amount,
    FundsType,
    BankRefNum,
    CustomerRefNum,
    Text,
}

#[derive(Debug, Clone, Copy, PartialEq, Eq, Structural)]
pub enum AccountTrailerField {
    ControlTotal,
    RecordsNum,
}

#[derive(Debug, Clone, Copy, PartialEq, Eq, Structural)]
pub enum GroupTrailerField {
    ControlTotal,
    AccountsNum,
    RecordsNum,
}

#[derive(Debug, Clone, Copy, PartialEq, Eq, Structural)]
pub enum FileTrailerField {
    ControlTotal,
    GroupsNum,
    RecordsNum,
}

#[derive(Debug, Clone, Copy, PartialEq, Eq, Structural)]
pub enum AccountInfoField {
    TypeCode,
    Amount,
    ItemCount,
    FundsType,
}

#[derive(Debug, Clone, Copy, PartialEq, Eq, Structural)]
pub enum DistributedAvailDistributionField {
    Days,
    Amount,
}

#[derive(Debug, Clone, Copy, PartialEq, Eq, Structural)]
pub enum FundsTypeField {
    DistributedAvailSImmediate,
    DistributedAvailSOneDay,
    DistributedAvailSMoreThanOneDay,
    ValueDatedDate,
    ValueDatedTime,
    DistributedAvailDNum,
    DistributedAvailDDists,
}

#[derive(Debug, Clone, Copy, PartialEq, Eq, Structural)]
pub enum RecordField {
    FileHeader,
    GroupHeader,
    AccountIdent,
    TransactionDetail,
    AccountTrailer,
    GroupTrailer,
    FileTrailer,
}

#[derive(Debug, Clone)]
pub struct RawFileHeader<'a> {
    pub sender_ident: &'a [u8],
    pub receiver_ident: &'a [u8],
    pub creation_date: &'a [u8],
    pub creation_time: &'a [u8],
    pub ident_num: &'a [u8],
    pub physical_record_len: Option<&'a [u8]>,
    pub block_size: Option<&'a [u8]>,
    pub version_number: &'a [u8],
}

#[derive(Debug, Clone)]
pub struct ParsedFileHeader<'a> {
    pub sender_ident: &'a str,
    pub receiver_ident: &'a str,
    pub creation_date: Date,
    pub creation_time: Time,
    pub ident_num: u32,
    pub physical_record_len: Option<u16>,
    pub block_size: Option<u16>,
}

#[derive(Debug, Clone)]
pub struct RawGroupHeader<'a> {
    pub ultimate_receiver_ident: Option<&'a [u8]>,
    pub originator_ident: Option<&'a [u8]>,
    pub status: &'a [u8],
    pub as_of_date: &'a [u8],
    pub as_of_time: Option<&'a [u8]>,
    pub currency: Option<&'a [u8]>,
    pub as_of_date_mod: Option<&'a [u8]>,
}

#[derive(Debug, Clone)]
pub struct ParsedGroupHeader<'a> {
    pub ultimate_receiver_ident: Option<&'a str>,
    /// Optional because some senders leave it out.
    pub originator_ident: Option<&'a str>,
    pub status: u8,
    pub as_of_date: Date,
    pub as_of_time: Option<Time>,
    pub currency: Option<&'a str>,
    pub as_of_date_mod: Option<u8>,
}

#[derive(Debug, Clone)]
pub struct RawAccountIdent<'a> {
    pub customer_account_num: &'a [u8],
    pub currency: Option<&'a [u8]>,
    pub infos: Vec<RawAccountInfo<'a>>,
}

#[derive(Debug, Clone)]
pub struct ParsedAccountIdent<'a> {
    pub customer_account_num: &'a str,
    pub currency: Option<&'a str>,
    pub infos: Vec<ParsedAccountInfo>,
}

#[derive(Debug, Clone)]
pub struct RawTransactionDetail<'a> {
    pub type_code: &'a [u8],
    pub amount: Option<&'a [u8]>,
    pub funds_type: Option<RawFundsType<'a>>,
    pub bank_ref_num: Option<&'a [u8]>,
    pub customer_ref_num: Option<&'a [u8]>,
    /// The first byte of the text, and its lines after that byte.
    pub text: Option<(u8, Vec<&'a [u8]>)>,
}

#[derive(Debug, Clone)]
pub struct ParsedTransactionDetail<'a> {
    pub type_code: u16,
    pub amount: Option<u64>,
    pub funds_type: Option<ParsedFundsType>,
    pub bank_ref_num: Option<&'a str>,
    pub customer_ref_num: Option<&'a str>,
    /// The first line of the text, and the lines after it.
    pub text: Option<(String, Vec<&'a str>)>,
}

#[derive(Debug, Clone)]
pub struct RawAccountTrailer<'a> {
    pub control_total: &'a [u8],
    pub records_num: &'a [u8],
}

#[derive(Debug, Clone, Copy, PartialEq, Eq, Structural)]
pub struct ParsedAccountTrailer {
    pub control_total: i64,
    pub records_num: usize,
}

#[derive(Debug, Clone)]
pub struct RawGroupTrailer<'a> {
    pub control_total: &'a [u8],
    pub accounts_num: &'a [u8],
    pub records_num: &'a [u8],
}

#[derive(Debug, Clone, Copy, PartialEq, Eq, Structural)]
pub struct ParsedGroupTrailer {
    pub control_total: i64,
    pub accounts_num: usize,
    pub records_num: usize,
}

#[derive(Debug, Clone)]
pub struct RawFileTrailer<'a> {
    pub control_total: &'a [u8],
    pub groups_num: &'a [u8],
    pub records_num: &'a [u8],
}

#[derive(Debug, Clone, Copy, PartialEq, Eq, Structural)]
pub struct ParsedFileTrailer {
    pub control_total: i64,
    pub groups_num: usize,
    pub records_num: usize,
}

#[derive(Debug, Clone)]
pub struct RawAccountInfo<'a> {
    pub type_code: Option<&'a [u8]>,
    pub amount: Option<&'a [u8]>,
    pub item_count: Option<&'a [u8]>,
    pub funds_type: Option<RawFundsType<'a>>,
}

#[derive(Debug, Clone)]
pub struct ParsedAccountInfo {
    pub type_code: Option<u16>,
    pub amount: Option<i64>,
    pub item_count: Option<u32>,
    pub funds_type: Option<ParsedFundsType>,
}

#[derive(Debug, Clone)]
pub struct RawDistributedAvailDistribution<'a> {
    pub days: &'a [u8],
    pub amount: &'a [u8],
}

#[derive(Debug, Clone, Copy, PartialEq, Eq, Structural)]
pub struct ParsedDistributedAvailDistribution {
    pub days: u32,
    pub amount: i64,
}

#[derive(Debug, Clone)]
pub enum RawFundsType<'a> {
    /// Z
    Unknown,
    /// 0
    ImmediateAvail,
    /// 1
    OneDayAvail,
    /// 2
    TwoOrMoreDaysAvail,
    /// S; each amount may be left out.
    DistributedAvailS {
        immediate: Option<&'a [u8]>,
        one_day: Option<&'a [u8]>,
        more_than_one_day: Option<&'a [u8]>,
    },
    /// V
    ValueDated { date: &'a [u8], time: Option<&'a [u8]> },
    /// D
    DistributedAvailD { num: &'a [u8], dists: Vec<RawDistributedAvailDistribution<'a>> },
}

#[derive(Debug, Clone)]
pub enum ParsedFundsType {
    Unknown,
    ImmediateAvail,
    OneDayAvail,
    TwoOrMoreDaysAvail,
    DistributedAvailS {
        immediate: Option<i64>,
        one_day: Option<i64>,
        more_than_one_day: Option<i64>,
    },
    ValueDated { date: Date, time: Option<Time> },
    DistributedAvailD { num: usize, dists: Vec<ParsedDistributedAvailDistribution> },
}

#[derive(Debug, Clone)]
pub enum RawRecord<'a> {
    FileHeader(RawFileHeader<'a>),
    GroupHeader(RawGroupHeader<'a>),
    AccountIdent(RawAccountIdent<'a>),
    TransactionDetail(RawTransactionDetail<'a>),
    AccountTrailer(RawAccountTrailer<'a>),
    GroupTrailer(RawGroupTrailer<'a>),
    FileTrailer(RawFileTrailer<'a>),
}

#[derive(Debug, Clone)]
pub enum ParsedRecord<'a> {
    FileHeader(ParsedFileHeader<'a>),
    GroupHeader(ParsedGroupHeader<'a>),
    AccountIdent(ParsedAccountIdent<'a>),
    TransactionDetail(ParsedTransactionDetail<'a>),
    AccountTrailer(ParsedAccountTrailer),
    GroupTrailer(ParsedGroupTrailer),
    FileTrailer(ParsedFileTrailer),
}

} // verus!
