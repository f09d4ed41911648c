//! The BAI2 numeric type codes and their three-tier taxonomy.

use vstd::prelude::*;

verus! {

/// Codes that classify as a status code: account status (1–99, vendor
/// 900–919) and loan status (700–719).
pub open spec fn is_status_range(c: int) -> bool {
    (1 <= c <= 99) || (900 <= c <= 919) || (700 <= c <= 719)
}

/// Codes that classify as a summary code: credit (100–399, vendor 920–959),
/// debit (400–469, vendor 960–999) and loan (700–799).
pub open spec fn is_summary_range(c: int) -> bool {
    (100 <= c <= 399) || (920 <= c <= 959) || (400 <= c <= 469) || (960 <= c <= 999) || (700
        <= c <= 799)
}

/// Codes that classify as a detail code: credit (100–399, vendor 920–959),
/// debit (400–699, vendor 960–999), loan (700–799) and non-monetary (890).
pub open spec fn is_detail_range(c: int) -> bool {
    (100 <= c <= 399) || (920 <= c <= 959) || (400 <= c <= 699) || (960 <= c <= 999) || (700
        <= c <= 799) || c == 890
}

/// A code describing the state of an account.
#[derive(Debug, Clone, Copy, PartialEq, Eq, Structural)]
pub enum StatusCode {
    /// Account status: 1–99, and 900–919 for vendor-defined codes.
    Account(u16),
    /// Loan status: 700–719.
    Loan(u16),
}

/// A code describing an aggregated total.
#[derive(Debug, Clone, Copy, PartialEq, Eq, Structural)]
pub enum SummaryCode {
    /// Credit summary: 100–399, and 920–959 for vendor-defined codes.
    Credit(u16),
    /// Debit summary: 400–469, and 960–999 for vendor-defined codes.
    Debit(u16),
    /// Loan summary: 700–799.
    Loan(u16),
}

/// A code describing an individual transaction.
#[derive(Debug, Clone, Copy, PartialEq, Eq, Structural)]
pub enum DetailCode {
    /// Credit detail: 100–399, and 920–959 for vendor-defined codes.
    Credit(u16),
    /// Debit detail: 400–699, and 960–999 for vendor-defined codes.
    Debit(u16),
    /// Loan detail: 700–799.
    Loan(u16),
    /// Non-monetary information: exactly 890.
    NonMonetary,
}

/// Any of the three kinds of type code.
#[derive(Debug, Clone, Copy, PartialEq, Eq, Structural)]
pub enum TypeCode {
    Status(StatusCode),
    Summary(SummaryCode),
    Detail(DetailCode),
}

/// The status code that `c` classifies as, or `c` itself when it is none.
pub open spec fn status_result(c: u16) -> Result<StatusCode, u16> {
    if (1 <= c <= 99) || (900 <= c <= 919) {
        Ok(StatusCode::Account(c))
    } else if 700 <= c <= 719 {
        Ok(StatusCode::Loan(c))
    } else {
        Err(c)
    }
}

/// The summary code that `c` classifies as, or `c` itself when it is none.
pub open spec fn summary_result(c: u16) -> Result<SummaryCode, u16> {
    if (100 <= c <= 399) || (920 <= c <= 959) {
        Ok(SummaryCode::Credit(c))
    } else if (400 <= c <= 469) || (960 <= c <= 999) {
        Ok(SummaryCode::Debit(c))
    } else if 700 <= c <= 799 {
        Ok(SummaryCode::Loan(c))
    } else {
        Err(c)
    }
}

/// The detail code that `c` classifies as, or `c` itself when it is none.
pub open spec fn detail_result(c: u16) -> Result<DetailCode, u16> {
    if (100 <= c <= 399) || (920 <= c <= 959) {
        Ok(DetailCode::Credit(c))
    } else if (400 <= c <= 699) || (960 <= c <= 999) {
        Ok(DetailCode::Debit(c))
    } else if 700 <= c <= 799 {
        Ok(DetailCode::Loan(c))
    } else if c == 890 {
        Ok(DetailCode::NonMonetary)
    } else {
        Err(c)
    }
}

impl StatusCode {
    pub open spec fn spec_code(self) -> u16 {
        match self {
            StatusCode::Account(c) => c,
            StatusCode::Loan(c) => c,
        }
    }

    /// The value carries a code of its own range.
    pub open spec fn wf(self) -> bool {
        status_result(self.spec_code()) == Ok::<StatusCode, u16>(self)
    }

    /// Classifies `code`; a code outside every status range is handed back.
    pub fn try_from(code: u16) -> (r: Result<StatusCode, u16>)
        ensures
            r == status_result(code),
    {
        if (1 <= code && code <= 99) || (900 <= code && code <= 919) {
            Ok(StatusCode::Account(code))
        } else if 700 <= code && code <= 719 {
            Ok(StatusCode::Loan(code))
        } else {
            Err(code)
        }
    }

    pub fn code(self) -> (r: u16)
        ensures
            r == self.spec_code(),
    {
        match self {
            StatusCode::Account(c) => c,
            StatusCode::Loan(c) => c,
        }
    }

    /// The code lies in a vendor-defined range.
    pub fn is_custom(self) -> (r: bool)
        ensures
            r == (900 <= self.spec_code() <= 919),
    {
        let c = self.code();
        900 <= c && c <= 919
    }
}

impl SummaryCode {
    pub open spec fn spec_code(self) -> u16 {
        match self {
            SummaryCode::Credit(c) => c,
            SummaryCode::Debit(c) => c,
            SummaryCode::Loan(c) => c,
        }
    }

    /// The value carries a code of its own range.
    pub open spec fn wf(self) -> bool {
        summary_result(self.spec_code()) == Ok::<SummaryCode, u16>(self)
    }

    /// Classifies `code`; a code outside every summary range is handed back.
    pub fn try_from(code: u16) -> (r: Result<SummaryCode, u16>)
        ensures
            r == summary_result(code),
    {
        if (100 <= code && code <= 399) || (920 <= code && code <= 959) {
            Ok(SummaryCode::Credit(code))
        } else if (400 <= code && code <= 469) || (960 <= code && code <= 999) {
            Ok(SummaryCode::Debit(code))
        } else if 700 <= code && code <= 799 {
            Ok(SummaryCode::Loan(code))
        } else {
            Err(code)
        }
    }

    pub fn code(self) -> (r: u16)
        ensures
            r == self.spec_code(),
    {
        match self {
            SummaryCode::Credit(c) => c,
            SummaryCode::Debit(c) => c,
            SummaryCode::Loan(c) => c,
        }
    }

    /// The code lies in a vendor-defined range.
    pub fn is_custom(self) -> (r: bool)
        ensures
            r == (920 <= self.spec_code() <= 999),
    {
        let c = self.code();
        920 <= c && c <= 999
    }
}

impl DetailCode {
    pub open spec fn spec_code(self) -> u16 {
        match self {
            DetailCode::Credit(c) => c,
            DetailCode::Debit(c) => c,
            DetailCode::Loan(c) => c,
            DetailCode::NonMonetary => 890,
        }
    }

    /// The value carries a code of its own range.
    pub open spec fn wf(self) -> bool {
        detail_result(self.spec_code()) == Ok::<DetailCode, u16>(self)
    }

    /// Classifies `code`; a code outside every detail range is handed back.
    pub fn try_from(code: u16) -> (r: Result<DetailCode, u16>)
        ensures
            r == detail_result(code),
    {
        if (100 <= code && code <= 399) || (920 <= code && code <= 959) {
            Ok(DetailCode::Credit(code))
        } else if (400 <= code && code <= 699) || (960 <= code && code <= 999) {
            Ok(DetailCode::Debit(code))
        } else if 700 <= code && code <= 799 {
            Ok(DetailCode::Loan(code))
        } else if code == 890 {
            Ok(DetailCode::NonMonetary)
        } else {
            Err(code)
        }
    }

    pub fn code(self) -> (r: u16)
        ensures
            r == self.spec_code(),
    {
        match self {
            DetailCode::Credit(c) => c,
            DetailCode::Debit(c) => c,
            DetailCode::Loan(c) => c,
            DetailCode::NonMonetary => 890,
        }
    }

    /// The code lies in a vendor-defined range.
    pub fn is_custom(self) -> (r: bool)
        ensures
            r == (920 <= self.spec_code() <= 999),
    {
        let c = self.code();
        920 <= c && c <= 999
    }
}

impl TypeCode {
    pub open spec fn spec_code(self) -> u16 {
        match self {
            TypeCode::Status(c) => c.spec_code(),
            TypeCode::Summary(c) => c.spec_code(),
            TypeCode::Detail(c) => c.spec_code(),
        }
    }

    pub fn code(self) -> (r: u16)
        ensures
            r == self.spec_code(),
    {
        match self {
            TypeCode::Status(c) => c.code(),
            TypeCode::Summary(c) => c.code(),
            TypeCode::Detail(c) => c.code(),
        }
    }
}

impl From<StatusCode> for u16 {
    fn from(c: StatusCode) -> (r: u16) {
        c.code()
    }
}

impl vstd::std_specs::convert::FromSpecImpl<StatusCode> for u16 {
    open spec fn obeys_from_spec() -> bool {
        true
    }

    open spec fn from_spec(c: StatusCode) -> u16 {
        c.spec_code()
    }
}

impl From<SummaryCode> for u16 {
    fn from(c: SummaryCode) -> (r: u16) {
        c.code()
    }
}

impl vstd::std_specs::convert::FromSpecImpl<SummaryCode> for u16 {
    open spec fn obeys_from_spec() -> bool {
        true
    }

    open spec fn from_spec(c: SummaryCode) -> u16 {
        c.spec_code()
    }
}

impl From<DetailCode> for u16 {
    fn from(c: DetailCode) -> (r: u16) {
        c.code()
    }
}

impl vstd::std_specs::convert::FromSpecImpl<DetailCode> for u16 {
    open spec fn obeys_from_spec() -> bool {
        true
    }

    open spec fn from_spec(c: DetailCode) -> u16 {
        c.spec_code()
    }
}

impl From<TypeCode> for u16 {
    fn from(c: TypeCode) -> (r: u16) {
        c.code()
    }
}

impl vstd::std_specs::convert::FromSpecImpl<TypeCode> for u16 {
    open spec fn obeys_from_spec() -> bool {
        true
    }

    open spec fn from_spec(c: TypeCode) -> u16 {
        c.spec_code()
    }
}

/// Classifying a code below 1000 and turning the result back into an
/// integer gives the code again, for each of the three kinds.
pub proof fn lemma_code_round_trip(c: u16)
    requires
        c < 1000,
    ensures
        status_result(c) matches Ok(s) ==> s.spec_code() == c,
        summary_result(c) matches Ok(s) ==> s.spec_code() == c,
        detail_result(c) matches Ok(d) ==> d.spec_code() == c,
{
}

/// A well-formed code value classifies back to itself.
pub proof fn lemma_value_round_trip(s: StatusCode, m: SummaryCode, d: DetailCode)
    ensures
        s.wf() ==> status_result(s.spec_code()) == Ok::<StatusCode, u16>(s),
        m.wf() ==> summary_result(m.spec_code()) == Ok::<SummaryCode, u16>(m),
        d.wf() ==> detail_result(d.spec_code()) == Ok::<DetailCode, u16>(d),
{
}

/// Every code of the declared ranges classifies, and every other code is
/// refused with the code itself as the error.
pub proof fn lemma_code_ranges_total(c: u16)
    ensures
        status_result(c) is Ok <==> is_status_range(c as int),
        !is_status_range(c as int) ==> status_result(c) == Err::<StatusCode, u16>(c),
        summary_result(c) is Ok <==> is_summary_range(c as int),
        !is_summary_range(c as int) ==> summary_result(c) == Err::<SummaryCode, u16>(c),
        detail_result(c) is Ok <==> is_detail_range(c as int),
        !is_detail_range(c as int) ==> detail_result(c) == Err::<DetailCode, u16>(c),
{
}

} // verus!
