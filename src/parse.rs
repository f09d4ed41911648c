//! The byte-level lexer: a BAI2 stream into raw records whose fields are
//! still bytes.
//!
//! A record is a two-digit tag followed by fields separated by `,` and ended
//! by `/` (and any spaces). A `/`, a line end and `88,` together separate
//! two fields as a `,` does, so a record may go on over several lines. The
//! text of a transaction detail runs to the end of its line, and goes on
//! over each following line that starts with `88,`.

use vstd::prelude::*;
use vstd::slice::slice_subrange;
use crate::ast::{
    RawAccountIdent, RawAccountInfo, RawAccountTrailer, RawDistributedAvailDistribution,
    RawFileHeader, RawFileTrailer, RawFundsType, RawGroupHeader, RawGroupTrailer, RawRecord,
    RawTransactionDetail,
};

verus! {

pub const FIELD_SEP_CHAR: u8 = 44;

pub const RECORD_SEP_CHAR: u8 = 47;

/// A field may hold any byte but the separators and line ends.
pub open spec fn is_reserved(b: u8) -> bool {
    b == 44 || b == 47 || b == 10 || b == 13
}

pub fn is_field_char(c: u8) -> (r: bool)
    ensures
        r == !is_reserved(c),
{
    c != FIELD_SEP_CHAR && c != RECORD_SEP_CHAR && c != 10 && c != 13
}

/// A text line may hold any byte but line ends.
pub fn is_text_char(c: u8) -> (r: bool)
    ensures
        r == (c != 10 && c != 13),
{
    c != 10 && c != 13
}

/// Where the field starting at `i` ends.
pub open spec fn field_end(s: Seq<u8>, i: int) -> int
    decreases s.len() - i,
{
    if i < 0 || i >= s.len() || is_reserved(s[i]) {
        i
    } else {
        field_end(s, i + 1)
    }
}

/// The length of the line end at `i`: CR LF, LF or CR; 0 when there is none.
pub open spec fn eol_len(s: Seq<u8>, i: int) -> int {
    if 0 <= i < s.len() && s[i] == 13 {
        if i + 1 < s.len() && s[i + 1] == 10 {
            2
        } else {
            1
        }
    } else if 0 <= i < s.len() && s[i] == 10 {
        1
    } else {
        0
    }
}

/// `88,` starts at `i`.
pub open spec fn is_continuation(s: Seq<u8>, i: int) -> bool {
    0 <= i && i + 3 <= s.len() && s[i] == 56 && s[i + 1] == 56 && s[i + 2] == 44
}

/// After a field separator at `i`: a `,`, or a `/`, a line end and `88,`.
pub open spec fn sep_end(s: Seq<u8>, i: int) -> Option<int> {
    if 0 <= i < s.len() && s[i] == 44 {
        Some(i + 1)
    } else if 0 <= i < s.len() && s[i] == 47 && eol_len(s, i + 1) > 0 && is_continuation(
        s,
        i + 1 + eol_len(s, i + 1),
    ) {
        Some(i + 1 + eol_len(s, i + 1) + 3)
    } else {
        None
    }
}

/// Where a run of spaces starting at `i` ends.
pub open spec fn spaces_end(s: Seq<u8>, i: int) -> int
    decreases s.len() - i,
{
    if i < 0 || i >= s.len() || s[i] != 32 {
        i
    } else {
        spaces_end(s, i + 1)
    }
}

/// After the end of a record at `i`: a `/` and any spaces.
pub open spec fn record_sep_end(s: Seq<u8>, i: int) -> Option<int> {
    if 0 <= i < s.len() && s[i] == 47 {
        Some(spaces_end(s, i + 1))
    } else {
        None
    }
}

/// A field that is present only when it is not empty.
pub open spec fn nonempty(f: Seq<u8>) -> Option<Seq<u8>> {
    if f.len() > 0 {
        Some(f)
    } else {
        None
    }
}

/// `n` fields from `i`, each possibly empty, with separators between them,
/// and where the last one ends.
pub open spec fn fields_at(s: Seq<u8>, i: int, n: nat) -> Option<(Seq<Seq<u8>>, int)>
    decreases n,
{
    if n == 0 || i < 0 || i > s.len() {
        None
    } else {
        let e = field_end(s, i);
        let f = s.subrange(i, e);
        if n == 1 {
            Some((seq![f], e))
        } else {
            match sep_end(s, e) {
                Some(j) => match fields_at(s, j, (n - 1) as nat) {
                    Some((fs, k)) => Some((seq![f] + fs, k)),
                    None => None,
                },
                None => None,
            }
        }
    }
}

/// A raw funds type as byte strings.
pub enum RawFundsTypeView {
    Unknown,
    ImmediateAvail,
    OneDayAvail,
    TwoOrMoreDaysAvail,
    DistributedAvailS {
        immediate: Option<Seq<u8>>,
        one_day: Option<Seq<u8>>,
        more_than_one_day: Option<Seq<u8>>,
    },
    ValueDated { date: Seq<u8>, time: Option<Seq<u8>> },
    DistributedAvailD { num: Seq<u8>, dists: Seq<(Seq<u8>, Seq<u8>)> },
}

/// A raw account info tuple as byte strings.
pub struct RawAccountInfoView {
    pub type_code: Option<Seq<u8>>,
    pub amount: Option<Seq<u8>>,
    pub item_count: Option<Seq<u8>>,
    pub funds_type: Option<RawFundsTypeView>,
}

/// A raw record as byte strings.
pub enum RawRecordView {
    FileHeader {
        sender_ident: Seq<u8>,
        receiver_ident: Seq<u8>,
        creation_date: Seq<u8>,
        creation_time: Seq<u8>,
        ident_num: Seq<u8>,
        physical_record_len: Option<Seq<u8>>,
        block_size: Option<Seq<u8>>,
        version_number: Seq<u8>,
    },
    GroupHeader {
        ultimate_receiver_ident: Option<Seq<u8>>,
        originator_ident: Option<Seq<u8>>,
        status: Seq<u8>,
        as_of_date: Seq<u8>,
        as_of_time: Option<Seq<u8>>,
        currency: Option<Seq<u8>>,
        as_of_date_mod: Option<Seq<u8>>,
    },
    AccountIdent {
        customer_account_num: Seq<u8>,
        currency: Option<Seq<u8>>,
        infos: Seq<RawAccountInfoView>,
    },
    TransactionDetail {
        type_code: Seq<u8>,
        amount: Option<Seq<u8>>,
        funds_type: Option<RawFundsTypeView>,
        bank_ref_num: Option<Seq<u8>>,
        customer_ref_num: Option<Seq<u8>>,
        text: Option<(u8, Seq<Seq<u8>>)>,
    },
    AccountTrailer { control_total: Seq<u8>, records_num: Seq<u8> },
    GroupTrailer { control_total: Seq<u8>, accounts_num: Seq<u8>, records_num: Seq<u8> },
    FileTrailer { control_total: Seq<u8>, groups_num: Seq<u8>, records_num: Seq<u8> },
}

pub open spec fn opt_view(b: Option<&[u8]>) -> Option<Seq<u8>> {
    match b {
        Some(b) => Some(b@),
        None => None,
    }
}

pub open spec fn slices_view(v: Seq<&[u8]>) -> Seq<Seq<u8>> {
    v.map_values(|b: &[u8]| b@)
}

impl<'a> View for RawFundsType<'a> {
    type V = RawFundsTypeView;

    open spec fn view(&self) -> RawFundsTypeView {
        match self {
            RawFundsType::Unknown => RawFundsTypeView::Unknown,
            RawFundsType::ImmediateAvail => RawFundsTypeView::ImmediateAvail,
            RawFundsType::OneDayAvail => RawFundsTypeView::OneDayAvail,
            RawFundsType::TwoOrMoreDaysAvail => RawFundsTypeView::TwoOrMoreDaysAvail,
            RawFundsType::DistributedAvailS { immediate, one_day, more_than_one_day } => {
                RawFundsTypeView::DistributedAvailS {
                    immediate: opt_view(*immediate),
                    one_day: opt_view(*one_day),
                    more_than_one_day: opt_view(*more_than_one_day),
                }
            },
            RawFundsType::ValueDated { date, time } => RawFundsTypeView::ValueDated {
                date: date@,
                time: opt_view(*time),
            },
            RawFundsType::DistributedAvailD { num, dists } => RawFundsTypeView::DistributedAvailD {
                num: num@,
                dists: dists_view(dists@),
            },
        }
    }
}

pub open spec fn opt_funds_view(f: Option<RawFundsType>) -> Option<RawFundsTypeView> {
    match f {
        Some(f) => Some(f@),
        None => None,
    }
}

impl<'a> View for RawAccountInfo<'a> {
    type V = RawAccountInfoView;

    open spec fn view(&self) -> RawAccountInfoView {
        RawAccountInfoView {
            type_code: opt_view(self.type_code),
            amount: opt_view(self.amount),
            item_count: opt_view(self.item_count),
            funds_type: opt_funds_view(self.funds_type),
        }
    }
}

pub open spec fn text_view(t: Option<(u8, Vec<&[u8]>)>) -> Option<(u8, Seq<Seq<u8>>)> {
    match t {
        Some((seed, lines)) => Some((seed, slices_view(lines@))),
        None => None,
    }
}

impl<'a> View for RawRecord<'a> {
    type V = RawRecordView;

    open spec fn view(&self) -> RawRecordView {
        match self {
            RawRecord::FileHeader(h) => RawRecordView::FileHeader {
                sender_ident: h.sender_ident@,
                receiver_ident: h.receiver_ident@,
                creation_date: h.creation_date@,
                creation_time: h.creation_time@,
                ident_num: h.ident_num@,
                physical_record_len: opt_view(h.physical_record_len),
                block_size: opt_view(h.block_size),
                version_number: h.version_number@,
            },
            RawRecord::GroupHeader(h) => RawRecordView::GroupHeader {
                ultimate_receiver_ident: opt_view(h.ultimate_receiver_ident),
                originator_ident: opt_view(h.originator_ident),
                status: h.status@,
                as_of_date: h.as_of_date@,
                as_of_time: opt_view(h.as_of_time),
                currency: opt_view(h.currency),
                as_of_date_mod: opt_view(h.as_of_date_mod),
            },
            RawRecord::AccountIdent(a) => RawRecordView::AccountIdent {
                customer_account_num: a.customer_account_num@,
                currency: opt_view(a.currency),
                infos: infos_view(a.infos@),
            },
            RawRecord::TransactionDetail(t) => RawRecordView::TransactionDetail {
                type_code: t.type_code@,
                amount: opt_view(t.amount),
                funds_type: opt_funds_view(t.funds_type),
                bank_ref_num: opt_view(t.bank_ref_num),
                customer_ref_num: opt_view(t.customer_ref_num),
                text: text_view(t.text),
            },
            RawRecord::AccountTrailer(t) => RawRecordView::AccountTrailer {
                control_total: t.control_total@,
                records_num: t.records_num@,
            },
            RawRecord::GroupTrailer(t) => RawRecordView::GroupTrailer {
                control_total: t.control_total@,
                accounts_num: t.accounts_num@,
                records_num: t.records_num@,
            },
            RawRecord::FileTrailer(t) => RawRecordView::FileTrailer {
                control_total: t.control_total@,
                groups_num: t.groups_num@,
                records_num: t.records_num@,
            },
        }
    }
}

proof fn lemma_field_end(s: Seq<u8>, i: int)
    requires
        0 <= i <= s.len(),
    ensures
        i <= field_end(s, i) <= s.len(),
        field_end(s, i) == s.len() || is_reserved(s[field_end(s, i)]),
    decreases s.len() - i,
{
    if i < s.len() && !is_reserved(s[i]) {
        lemma_field_end(s, i + 1);
    }
}

proof fn lemma_spaces_end(s: Seq<u8>, i: int)
    requires
        0 <= i <= s.len(),
    ensures
        i <= spaces_end(s, i) <= s.len(),
    decreases s.len() - i,
{
    if i < s.len() && s[i] == 32 {
        lemma_spaces_end(s, i + 1);
    }
}

proof fn lemma_fields_at(s: Seq<u8>, i: int, n: nat)
    requires
        fields_at(s, i, n) is Some,
    ensures
        fields_at(s, i, n) matches Some((fs, e)) && i <= e <= s.len() && fs.len() == n,
    decreases n,
{
    lemma_field_end(s, i);
    if n > 1 {
        let j = sep_end(s, field_end(s, i))->0;
        lemma_fields_at(s, j, (n - 1) as nat);
    }
}

fn field_end_exec(s: &[u8], i: usize) -> (r: usize)
    requires
        i <= s@.len(),
    ensures
        r == field_end(s@, i as int),
        i <= r <= s@.len(),
{
    proof {
        lemma_field_end(s@, i as int);
    }
    let mut j = i;
    while j < s.len() && is_field_char(s[j])
        invariant
            i <= j <= s@.len(),
            field_end(s@, i as int) == field_end(s@, j as int),
        decreases s@.len() - j,
    {
        j = j + 1;
    }
    j
}

pub(crate) fn eol_len_exec(s: &[u8], i: usize) -> (r: usize)
    ensures
        r == eol_len(s@, i as int),
{
    if i < s.len() && s[i] == 13 {
        if i + 1 < s.len() && s[i + 1] == 10 {
            2
        } else {
            1
        }
    } else if i < s.len() && s[i] == 10 {
        1
    } else {
        0
    }
}

fn is_continuation_exec(s: &[u8], i: usize) -> (r: bool)
    ensures
        r == is_continuation(s@, i as int),
{
    i < s.len() && s.len() - i >= 3 && s[i] == 56 && s[i + 1] == 56 && s[i + 2] == 44
}

fn sep_end_exec(s: &[u8], i: usize) -> (r: Option<usize>)
    ensures
        match sep_end(s@, i as int) {
            Some(j) => r matches Some(x) && x == j && i < j <= s@.len(),
            None => r is None,
        },
{
    if i < s.len() && s[i] == 44 {
        Some(i + 1)
    } else if i < s.len() && s[i] == 47 {
        let k = eol_len_exec(s, i + 1);
        if k > 0 && is_continuation_exec(s, i + 1 + k) {
            Some(i + 1 + k + 3)
        } else {
            None
        }
    } else {
        None
    }
}

fn record_sep_end_exec(s: &[u8], i: usize) -> (r: Option<usize>)
    ensures
        match record_sep_end(s@, i as int) {
            Some(j) => r matches Some(x) && x == j && i < j <= s@.len(),
            None => r is None,
        },
{
    if i < s.len() && s[i] == 47 {
        proof {
            lemma_spaces_end(s@, i + 1);
        }
        let mut j = i + 1;
        while j < s.len() && s[j] == 32
            invariant
                i + 1 <= j <= s@.len(),
                spaces_end(s@, i + 1) == spaces_end(s@, j as int),
            decreases s@.len() - j,
        {
            j = j + 1;
        }
        Some(j)
    } else {
        None
    }
}

pub open spec fn prepend(acc: Seq<Seq<u8>>, x: Option<(Seq<Seq<u8>>, int)>) -> Option<(Seq<Seq<u8>>, int)> {
    match x {
        Some((fs, e)) => Some((acc + fs, e)),
        None => None,
    }
}

/// Reads `n` fields from `i`.
fn fields_exec<'a>(s: &'a [u8], i: usize, n: usize) -> (r: Option<(Vec<&'a [u8]>, usize)>)
    requires
        i <= s@.len(),
        n >= 1,
    ensures
        match fields_at(s@, i as int, n as nat) {
            None => r is None,
            Some((fs, e)) => r matches Some((v, e2)) && e2 == e && slices_view(v@) == fs
                && v@.len() == n,
        },
{
    let mut out: Vec<&'a [u8]> = Vec::new();
    let mut pos = i;
    let mut k: usize = 0;
    loop
        invariant
            pos <= s@.len(),
            k < n,
            out@.len() == k,
            fields_at(s@, i as int, n as nat) == prepend(
                slices_view(out@),
                fields_at(s@, pos as int, (n - k) as nat),
            ),
        decreases n - k,
    {
        let e = field_end_exec(s, pos);
        let f = slice_subrange(s, pos, e);
        let ghost old_out = out@;
        out.push(f);
        assert(slices_view(out@) == slices_view(old_out) + seq![f@]);
        if k + 1 == n {
            assert(slices_view(old_out) + seq![f@] == slices_view(out@));
            return Some((out, e));
        }
        match sep_end_exec(s, e) {
            Some(j) => {
                proof {
                    let x = fields_at(s@, j as int, (n - k - 1) as nat);
                    assert(fields_at(s@, pos as int, (n - k) as nat) == prepend(seq![f@], x));
                    match x {
                        Some((fs, e2)) => {
                            assert(slices_view(old_out) + (seq![f@] + fs) =~= slices_view(out@)
                                + fs);
                        },
                        None => {},
                    }
                }
                pos = j;
                k = k + 1;
            },
            None => {
                return None;
            },
        }
    }
}

/// A (days, amount) pair from `i`, both fields present.
pub open spec fn dist_at(s: Seq<u8>, i: int) -> Option<((Seq<u8>, Seq<u8>), int)> {
    if i < 0 || i > s.len() {
        None
    } else {
        let e = field_end(s, i);
        if e <= i {
            None
        } else {
            match sep_end(s, e) {
                Some(j) => {
                    let e2 = field_end(s, j);
                    if e2 > j {
                        Some(((s.subrange(i, e), s.subrange(j, e2)), e2))
                    } else {
                        None
                    }
                },
                None => None,
            }
        }
    }
}

/// Further pairs, each after a separator, for as long as there are some.
pub open spec fn more_dists(s: Seq<u8>, p: int) -> (Seq<(Seq<u8>, Seq<u8>)>, int)
    decreases s.len() - p,
{
    if p < 0 || p > s.len() {
        (seq![], p)
    } else {
        match sep_end(s, p) {
            Some(j) => match dist_at(s, j) {
                Some((d, e)) => if p < e <= s.len() {
                    let (rest, k) = more_dists(s, e);
                    (seq![d] + rest, k)
                } else {
                    (seq![], p)
                },
                None => (seq![], p),
            },
            None => (seq![], p),
        }
    }
}

/// One or more pairs, separated.
pub open spec fn dists_at(s: Seq<u8>, i: int) -> Option<(Seq<(Seq<u8>, Seq<u8>)>, int)> {
    match dist_at(s, i) {
        Some((d, e)) => {
            let (rest, k) = more_dists(s, e);
            Some((seq![d] + rest, k))
        },
        None => None,
    }
}

/// A funds type from `i`, by its first byte: `Z`, `0`, `1` or `2` alone;
/// `S` and three optional amounts; `V`, a date and an optional time; `D`, a
/// count and the pairs.
pub open spec fn funds_type_at(s: Seq<u8>, i: int) -> Option<(RawFundsTypeView, int)> {
    if i < 0 || i >= s.len() {
        None
    } else if s[i] == 90 {
        Some((RawFundsTypeView::Unknown, i + 1))
    } else if s[i] == 48 {
        Some((RawFundsTypeView::ImmediateAvail, i + 1))
    } else if s[i] == 49 {
        Some((RawFundsTypeView::OneDayAvail, i + 1))
    } else if s[i] == 50 {
        Some((RawFundsTypeView::TwoOrMoreDaysAvail, i + 1))
    } else if s[i] == 83 {
        match sep_end(s, i + 1) {
            Some(j) => match fields_at(s, j, 3) {
                Some((fs, k)) => Some(
                    (
                        RawFundsTypeView::DistributedAvailS {
                            immediate: nonempty(fs[0]),
                            one_day: nonempty(fs[1]),
                            more_than_one_day: nonempty(fs[2]),
                        },
                        k,
                    ),
                ),
                None => None,
            },
            None => None,
        }
    } else if s[i] == 86 {
        match sep_end(s, i + 1) {
            Some(j) => match fields_at(s, j, 2) {
                Some((fs, k)) => if fs[0].len() > 0 {
                    Some((RawFundsTypeView::ValueDated { date: fs[0], time: nonempty(fs[1]) }, k))
                } else {
                    None
                },
                None => None,
            },
            None => None,
        }
    } else if s[i] == 68 {
        match sep_end(s, i + 1) {
            Some(j) => {
                let e = field_end(s, j);
                if e > j {
                    match sep_end(s, e) {
                        Some(m) => match dists_at(s, m) {
                            Some((ds, k)) => Some(
                                (
                                    RawFundsTypeView::DistributedAvailD {
                                        num: s.subrange(j, e),
                                        dists: ds,
                                    },
                                    k,
                                ),
                            ),
                            None => None,
                        },
                        None => None,
                    }
                } else {
                    None
                }
            },
            None => None,
        }
    } else {
        None
    }
}

pub open spec fn dists_view(v: Seq<RawDistributedAvailDistribution>) -> Seq<(Seq<u8>, Seq<u8>)> {
    v.map_values(|d: RawDistributedAvailDistribution| (d.days@, d.amount@))
}

fn dist_exec<'a>(s: &'a [u8], i: usize) -> (r: Option<(RawDistributedAvailDistribution<'a>, usize)>)
    requires
        i <= s@.len(),
    ensures
        match dist_at(s@, i as int) {
            Some((d, e)) => r matches Some((x, e2)) && e2 == e && (x.days@, x.amount@) == d && i
                < e2 <= s@.len(),
            None => r is None,
        },
{
    let e = field_end_exec(s, i);
    if e <= i {
        return None;
    }
    let j = match sep_end_exec(s, e) {
        Some(j) => j,
        None => return None,
    };
    let e2 = field_end_exec(s, j);
    if e2 <= j {
        return None;
    }
    Some(
        (
            RawDistributedAvailDistribution {
                days: slice_subrange(s, i, e),
                amount: slice_subrange(s, j, e2),
            },
            e2,
        ),
    )
}

fn dists_exec<'a>(s: &'a [u8], i: usize) -> (r: Option<(Vec<RawDistributedAvailDistribution<'a>>, usize)>)
    requires
        i <= s@.len(),
    ensures
        match dists_at(s@, i as int) {
            Some((ds, e)) => r matches Some((v, e2)) && e2 == e && dists_view(v@) == ds && i < e2
                <= s@.len(),
            None => r is None,
        },
{
    let (d, e) = match dist_exec(s, i) {
        Some(x) => x,
        None => return None,
    };
    let mut out: Vec<RawDistributedAvailDistribution<'a>> = Vec::new();
    out.push(d);
    let mut pos = e;
    assert(dists_view(out@) == seq![(d.days@, d.amount@)]);
    loop
        invariant
            i < pos <= s@.len(),
            dists_at(s@, i as int) == Some(
                (dists_view(out@) + more_dists(s@, pos as int).0, more_dists(s@, pos as int).1),
            ),
        ensures
            i < pos <= s@.len(),
            dists_at(s@, i as int) == Some((dists_view(out@), pos as int)),
        decreases s@.len() - pos,
    {
        let j = match sep_end_exec(s, pos) {
            Some(j) => j,
            None => {
                assert(dists_view(out@) + seq![] == dists_view(out@));
                break;
            },
        };
        let (d, e) = match dist_exec(s, j) {
            Some(x) => x,
            None => {
                assert(dists_view(out@) + seq![] == dists_view(out@));
                break;
            },
        };
        let ghost old_out = out@;
        out.push(d);
        proof {
            let (rest, k) = more_dists(s@, e as int);
            assert(more_dists(s@, pos as int) == (seq![(d.days@, d.amount@)] + rest, k));
            assert(dists_view(out@) == dists_view(old_out) + seq![(d.days@, d.amount@)]);
            assert(dists_view(old_out) + (seq![(d.days@, d.amount@)] + rest) == dists_view(out@)
                + rest);
        }
        pos = e;
    }
    Some((out, pos))
}

fn funds_type_exec<'a>(s: &'a [u8], i: usize) -> (r: Option<(RawFundsType<'a>, usize)>)
    requires
        i <= s@.len(),
    ensures
        match funds_type_at(s@, i as int) {
            Some((f, e)) => r matches Some((x, e2)) && e2 == e && x@ == f && i < e2 <= s@.len(),
            None => r is None,
        },
{
    if i >= s.len() {
        return None;
    }
    let c = s[i];
    if c == 90 {
        Some((RawFundsType::Unknown, i + 1))
    } else if c == 48 {
        Some((RawFundsType::ImmediateAvail, i + 1))
    } else if c == 49 {
        Some((RawFundsType::OneDayAvail, i + 1))
    } else if c == 50 {
        Some((RawFundsType::TwoOrMoreDaysAvail, i + 1))
    } else if c == 83 {
        let j = match sep_end_exec(s, i + 1) {
            Some(j) => j,
            None => return None,
        };
        let (fs, k) = match fields_exec(s, j, 3) {
            Some(x) => x,
            None => return None,
        };
        proof {
            lemma_fields_at(s@, j as int, 3);
        }
        let immediate = if fs[0].len() > 0 {
            Some(fs[0])
        } else {
            None
        };
        let one_day = if fs[1].len() > 0 {
            Some(fs[1])
        } else {
            None
        };
        let more_than_one_day = if fs[2].len() > 0 {
            Some(fs[2])
        } else {
            None
        };
        Some((RawFundsType::DistributedAvailS { immediate, one_day, more_than_one_day }, k))
    } else if c == 86 {
        let j = match sep_end_exec(s, i + 1) {
            Some(j) => j,
            None => return None,
        };
        let (fs, k) = match fields_exec(s, j, 2) {
            Some(x) => x,
            None => return None,
        };
        proof {
            lemma_fields_at(s@, j as int, 2);
        }
        if fs[0].len() == 0 {
            return None;
        }
        let time = if fs[1].len() > 0 {
            Some(fs[1])
        } else {
            None
        };
        Some((RawFundsType::ValueDated { date: fs[0], time }, k))
    } else if c == 68 {
        let j = match sep_end_exec(s, i + 1) {
            Some(j) => j,
            None => return None,
        };
        let e = field_end_exec(s, j);
        if e <= j {
            return None;
        }
        let m = match sep_end_exec(s, e) {
            Some(m) => m,
            None => return None,
        };
        let (dists, k) = match dists_exec(s, m) {
            Some(x) => x,
            None => return None,
        };
        Some((RawFundsType::DistributedAvailD { num: slice_subrange(s, j, e), dists }, k))
    } else {
        None
    }
}

pub open spec fn infos_view(v: Seq<RawAccountInfo>) -> Seq<RawAccountInfoView> {
    v.map_values(|a: RawAccountInfo| a@)
}

/// An account info tuple from `i`: type code, amount and item count, each
/// optional, then a separator and an optional funds type.
pub open spec fn account_info_at(s: Seq<u8>, i: int) -> Option<(RawAccountInfoView, int)> {
    match fields_at(s, i, 3) {
        Some((fs, e)) => match sep_end(s, e) {
            Some(j) => {
                let (f, k) = match funds_type_at(s, j) {
                    Some((f, k)) => (Some(f), k),
                    None => (None, j),
                };
                Some(
                    (
                        RawAccountInfoView {
                            type_code: nonempty(fs[0]),
                            amount: nonempty(fs[1]),
                            item_count: nonempty(fs[2]),
                            funds_type: f,
                        },
                        k,
                    ),
                )
            },
            None => None,
        },
        None => None,
    }
}

/// Further tuples, each after a separator, for as long as there are some.
pub open spec fn more_infos(s: Seq<u8>, p: int) -> (Seq<RawAccountInfoView>, int)
    decreases s.len() - p,
{
    if p < 0 || p > s.len() {
        (seq![], p)
    } else {
        match sep_end(s, p) {
            Some(j) => match account_info_at(s, j) {
                Some((a, e)) => if p < e <= s.len() {
                    let (rest, k) = more_infos(s, e);
                    (seq![a] + rest, k)
                } else {
                    (seq![], p)
                },
                None => (seq![], p),
            },
            None => (seq![], p),
        }
    }
}

/// One or more tuples, separated.
pub open spec fn infos_at(s: Seq<u8>, i: int) -> Option<(Seq<RawAccountInfoView>, int)> {
    match account_info_at(s, i) {
        Some((a, e)) => {
            let (rest, k) = more_infos(s, e);
            Some((seq![a] + rest, k))
        },
        None => None,
    }
}

fn account_info_exec<'a>(s: &'a [u8], i: usize) -> (r: Option<(RawAccountInfo<'a>, usize)>)
    requires
        i <= s@.len(),
    ensures
        match account_info_at(s@, i as int) {
            Some((a, e)) => r matches Some((x, e2)) && e2 == e && x@ == a && i < e2 <= s@.len(),
            None => r is None,
        },
{
    let (fs, e) = match fields_exec(s, i, 3) {
        Some(x) => x,
        None => return None,
    };
    proof {
        lemma_fields_at(s@, i as int, 3);
    }
    let j = match sep_end_exec(s, e) {
        Some(j) => j,
        None => return None,
    };
    let (funds_type, k) = match funds_type_exec(s, j) {
        Some((f, k)) => (Some(f), k),
        None => (None, j),
    };
    let type_code = if fs[0].len() > 0 {
        Some(fs[0])
    } else {
        None
    };
    let amount = if fs[1].len() > 0 {
        Some(fs[1])
    } else {
        None
    };
    let item_count = if fs[2].len() > 0 {
        Some(fs[2])
    } else {
        None
    };
    Some((RawAccountInfo { type_code, amount, item_count, funds_type }, k))
}

fn infos_exec<'a>(s: &'a [u8], i: usize) -> (r: Option<(Vec<RawAccountInfo<'a>>, usize)>)
    requires
        i <= s@.len(),
    ensures
        match infos_at(s@, i as int) {
            Some((v, e)) => r matches Some((x, e2)) && e2 == e && infos_view(x@) == v && i < e2
                <= s@.len(),
            None => r is None,
        },
{
    let (a, e) = match account_info_exec(s, i) {
        Some(x) => x,
        None => return None,
    };
    let mut out: Vec<RawAccountInfo<'a>> = Vec::new();
    out.push(a);
    let mut pos = e;
    assert(infos_view(out@) == seq![a@]);
    loop
        invariant
            i < pos <= s@.len(),
            infos_at(s@, i as int) == Some(
                (infos_view(out@) + more_infos(s@, pos as int).0, more_infos(s@, pos as int).1),
            ),
        ensures
            i < pos <= s@.len(),
            infos_at(s@, i as int) == Some((infos_view(out@), pos as int)),
        decreases s@.len() - pos,
    {
        let j = match sep_end_exec(s, pos) {
            Some(j) => j,
            None => {
                assert(infos_view(out@) + seq![] == infos_view(out@));
                break;
            },
        };
        let (a, e) = match account_info_exec(s, j) {
            Some(x) => x,
            None => {
                assert(infos_view(out@) + seq![] == infos_view(out@));
                break;
            },
        };
        let ghost old_out = out@;
        out.push(a);
        proof {
            let (rest, k) = more_infos(s@, e as int);
            assert(more_infos(s@, pos as int) == (seq![a@] + rest, k));
            assert(infos_view(out@) == infos_view(old_out) + seq![a@]);
            assert(infos_view(old_out) + (seq![a@] + rest) == infos_view(out@) + rest);
        }
        pos = e;
    }
    Some((out, pos))
}

/// Where the line starting at `p` ends: at a line end or the end of input.
pub open spec fn line_end(s: Seq<u8>, p: int) -> int
    decreases s.len() - p,
{
    if p < 0 || p >= s.len() || s[p] == 10 || s[p] == 13 {
        p
    } else {
        line_end(s, p + 1)
    }
}

/// Where the line `p..e` ends once its trailing spaces are left out.
pub open spec fn strip_end(s: Seq<u8>, p: int, e: int) -> int
    decreases e - p,
{
    if e > p && 0 < e <= s.len() && s[e - 1] == 32 {
        strip_end(s, p, e - 1)
    } else {
        e
    }
}

/// The lines of a text from `p`: each line without its trailing spaces, as
/// long as the next line starts with `88,`; and where the last line ends.
pub open spec fn text_lines(s: Seq<u8>, p: int) -> (Seq<Seq<u8>>, int)
    decreases s.len() - p,
{
    if p < 0 || p > s.len() {
        (seq![], p)
    } else {
        let le = line_end(s, p);
        let line = s.subrange(p, strip_end(s, p, le));
        let k = eol_len(s, le);
        if k > 0 && is_continuation(s, le + k) && p < le + k + 3 {
            let (rest, end) = text_lines(s, le + k + 3);
            (seq![line] + rest, end)
        } else {
            (seq![line], le)
        }
    }
}

/// A text from `i`: its first byte, whatever it is, then its lines.
pub open spec fn text_at(s: Seq<u8>, i: int) -> Option<((u8, Seq<Seq<u8>>), int)> {
    if 0 <= i < s.len() {
        let (lines, e) = text_lines(s, i + 1);
        Some(((s[i], lines), e))
    } else {
        None
    }
}

proof fn lemma_line_end(s: Seq<u8>, p: int)
    requires
        0 <= p <= s.len(),
    ensures
        p <= line_end(s, p) <= s.len(),
    decreases s.len() - p,
{
    if p < s.len() && s[p] != 10 && s[p] != 13 {
        lemma_line_end(s, p + 1);
    }
}

proof fn lemma_strip_end(s: Seq<u8>, p: int, e: int)
    requires
        0 <= p <= e <= s.len(),
    ensures
        p <= strip_end(s, p, e) <= e,
    decreases e - p,
{
    if e > p && s[e - 1] == 32 {
        lemma_strip_end(s, p, e - 1);
    }
}

fn text_exec<'a>(s: &'a [u8], i: usize) -> (r: Option<((u8, Vec<&'a [u8]>), usize)>)
    requires
        i <= s@.len(),
    ensures
        match text_at(s@, i as int) {
            Some((t, e)) => r matches Some((x, e2)) && e2 == e && x.0 == t.0 && slices_view(
                x.1@,
            ) == t.1 && i < e2 <= s@.len(),
            None => r is None,
        },
{
    if i >= s.len() {
        return None;
    }
    let seed = s[i];
    let mut lines: Vec<&'a [u8]> = Vec::new();
    let mut p = i + 1;
    loop
        invariant
            i < p <= s@.len(),
            i < s@.len(),
            seed == s@[i as int],
            text_lines(s@, i + 1) == (
                slices_view(lines@) + text_lines(s@, p as int).0,
                text_lines(s@, p as int).1,
            ),
        decreases s@.len() - p,
    {
        proof {
            lemma_line_end(s@, p as int);
        }
        let mut le = p;
        while le < s.len() && is_text_char(s[le])
            invariant
                p <= le <= s@.len(),
                line_end(s@, p as int) == line_end(s@, le as int),
            decreases s@.len() - le,
        {
            le = le + 1;
        }
        proof {
            lemma_strip_end(s@, p as int, le as int);
        }
        let mut se = le;
        while se > p && s[se - 1] == 32
            invariant
                p <= se <= le,
                le <= s@.len(),
                strip_end(s@, p as int, le as int) == strip_end(s@, p as int, se as int),
            decreases se - p,
        {
            se = se - 1;
        }
        let line = slice_subrange(s, p, se);
        let ghost old_lines = lines@;
        lines.push(line);
        assert(slices_view(lines@) == slices_view(old_lines) + seq![line@]);
        let k = eol_len_exec(s, le);
        if k > 0 && is_continuation_exec(s, le + k) {
            proof {
                let (rest, end) = text_lines(s@, le + k + 3);
                assert(text_lines(s@, p as int) == (seq![line@] + rest, end));
                assert(slices_view(old_lines) + (seq![line@] + rest) == slices_view(lines@) + rest);
            }
            p = le + k + 3;
        } else {
            proof {
                assert(text_lines(s@, p as int) == (seq![line@], le as int));
                assert(text_lines(s@, i + 1) == (slices_view(lines@), le as int));
            }
            return Some(((seed, lines), le));
        }
    }
}

pub open spec fn tag_is(s: Seq<u8>, i: int, a: u8, b: u8) -> bool {
    0 <= i && i + 2 <= s.len() && s[i] == a && s[i + 1] == b
}

/// The kind of the record starting at `i`, by its tag: 1, 2, 3, 16, 49,
/// 98 or 99.
pub open spec fn tag_of(s: Seq<u8>, i: int) -> Option<u8> {
    if tag_is(s, i, 48, 49) {
        Some(1)
    } else if tag_is(s, i, 48, 50) {
        Some(2)
    } else if tag_is(s, i, 48, 51) {
        Some(3)
    } else if tag_is(s, i, 49, 54) {
        Some(16)
    } else if tag_is(s, i, 52, 57) {
        Some(49)
    } else if tag_is(s, i, 57, 56) {
        Some(98)
    } else if tag_is(s, i, 57, 57) {
        Some(99)
    } else {
        None
    }
}

/// The body of a file header from `j`, through its `/`.
pub open spec fn file_header_at(s: Seq<u8>, j: int) -> Option<(RawRecordView, int)> {
    match fields_at(s, j, 8) {
        Some((fs, e)) => if fs[0].len() > 0 && fs[1].len() > 0 && fs[2].len() > 0 && fs[3].len() > 0
            && fs[4].len() > 0 && fs[7].len() > 0 {
            match record_sep_end(s, e) {
                Some(k) => Some(
                    (
                        RawRecordView::FileHeader {
                            sender_ident: fs[0],
                            receiver_ident: fs[1],
                            creation_date: fs[2],
                            creation_time: fs[3],
                            ident_num: fs[4],
                            physical_record_len: nonempty(fs[5]),
                            block_size: nonempty(fs[6]),
                            version_number: fs[7],
                        },
                        k,
                    ),
                ),
                None => None,
            }
        } else {
            None
        },
        None => None,
    }
}

/// The body of a group header from `j`, through its `/`.
pub open spec fn group_header_at(s: Seq<u8>, j: int) -> Option<(RawRecordView, int)> {
    match fields_at(s, j, 7) {
        Some((fs, e)) => if fs[2].len() > 0 && fs[3].len() > 0 {
            match record_sep_end(s, e) {
                Some(k) => Some(
                    (
                        RawRecordView::GroupHeader {
                            ultimate_receiver_ident: nonempty(fs[0]),
                            originator_ident: nonempty(fs[1]),
                            status: fs[2],
                            as_of_date: fs[3],
                            as_of_time: nonempty(fs[4]),
                            currency: nonempty(fs[5]),
                            as_of_date_mod: nonempty(fs[6]),
                        },
                        k,
                    ),
                ),
                None => None,
            }
        } else {
            None
        },
        None => None,
    }
}

/// The body of an account identifier from `j`, through its `/`.
pub open spec fn account_ident_at(s: Seq<u8>, j: int) -> Option<(RawRecordView, int)> {
    match fields_at(s, j, 2) {
        Some((fs, e)) => if fs[0].len() > 0 {
            match sep_end(s, e) {
                Some(m) => match infos_at(s, m) {
                    Some((infos, e2)) => match record_sep_end(s, e2) {
                        Some(k) => Some(
                            (
                                RawRecordView::AccountIdent {
                                    customer_account_num: fs[0],
                                    currency: nonempty(fs[1]),
                                    infos,
                                },
                                k,
                            ),
                        ),
                        None => None,
                    },
                    None => None,
                },
                None => None,
            }
        } else {
            None
        },
        None => None,
    }
}

/// The body of a transaction detail from `j`: through its `/`, or through
/// the last line of its text.
pub open spec fn transaction_detail_at(s: Seq<u8>, j: int) -> Option<(RawRecordView, int)> {
    match fields_at(s, j, 2) {
        Some((fs, e)) => if fs[0].len() > 0 {
            match sep_end(s, e) {
                Some(m) => {
                    let (funds, k1) = match funds_type_at(s, m) {
                        Some((f, k)) => (Some(f), k),
                        None => (None, m),
                    };
                    match sep_end(s, k1) {
                        Some(m2) => match fields_at(s, m2, 2) {
                            Some((gs, e3)) => match sep_end(s, e3) {
                                Some(m3) => match record_sep_end(s, m3) {
                                    Some(k) => Some(
                                        (
                                            RawRecordView::TransactionDetail {
                                                type_code: fs[0],
                                                amount: nonempty(fs[1]),
                                                funds_type: funds,
                                                bank_ref_num: nonempty(gs[0]),
                                                customer_ref_num: nonempty(gs[1]),
                                                text: None,
                                            },
                                            k,
                                        ),
                                    ),
                                    None => match text_at(s, m3) {
                                        Some((t, k)) => Some(
                                            (
                                                RawRecordView::TransactionDetail {
                                                    type_code: fs[0],
                                                    amount: nonempty(fs[1]),
                                                    funds_type: funds,
                                                    bank_ref_num: nonempty(gs[0]),
                                                    customer_ref_num: nonempty(gs[1]),
                                                    text: Some(t),
                                                },
                                                k,
                                            ),
                                        ),
                                        None => None,
                                    },
                                },
                                None => None,
                            },
                            None => None,
                        },
                        None => None,
                    }
                },
                None => None,
            }
        } else {
            None
        },
        None => None,
    }
}

/// Every field is present.
pub open spec fn all_present(fs: Seq<Seq<u8>>) -> bool {
    forall|x: int| 0 <= x < fs.len() ==> (#[trigger] fs[x]).len() > 0
}

/// The `n` fields of a trailer from `j`, all present, through its `/`.
pub open spec fn trailer_at(s: Seq<u8>, j: int, n: nat) -> Option<(Seq<Seq<u8>>, int)> {
    match fields_at(s, j, n) {
        Some((fs, e)) => if all_present(fs) {
            match record_sep_end(s, e) {
                Some(k) => Some((fs, k)),
                None => None,
            }
        } else {
            None
        },
        None => None,
    }
}

/// The record starting at `i`, and where it ends.
pub open spec fn record_at(s: Seq<u8>, i: int) -> Option<(RawRecordView, int)> {
    if i < 0 || i + 2 > s.len() {
        None
    } else {
        match sep_end(s, i + 2) {
            None => None,
            Some(j) => if tag_is(s, i, 48, 49) {
                file_header_at(s, j)
            } else if tag_is(s, i, 48, 50) {
                group_header_at(s, j)
            } else if tag_is(s, i, 48, 51) {
                account_ident_at(s, j)
            } else if tag_is(s, i, 49, 54) {
                transaction_detail_at(s, j)
            } else if tag_is(s, i, 52, 57) {
                match trailer_at(s, j, 2) {
                    Some((fs, k)) => Some(
                        (RawRecordView::AccountTrailer { control_total: fs[0], records_num: fs[1] }, k),
                    ),
                    None => None,
                }
            } else if tag_is(s, i, 57, 56) {
                match trailer_at(s, j, 3) {
                    Some((fs, k)) => Some(
                        (
                            RawRecordView::GroupTrailer {
                                control_total: fs[0],
                                accounts_num: fs[1],
                                records_num: fs[2],
                            },
                            k,
                        ),
                    ),
                    None => None,
                }
            } else if tag_is(s, i, 57, 57) {
                match trailer_at(s, j, 3) {
                    Some((fs, k)) => Some(
                        (
                            RawRecordView::FileTrailer {
                                control_total: fs[0],
                                groups_num: fs[1],
                                records_num: fs[2],
                            },
                            k,
                        ),
                    ),
                    None => None,
                }
            } else {
                None
            },
        }
    }
}

fn opt_slice<'a>(f: &'a [u8]) -> (r: Option<&'a [u8]>)
    ensures
        opt_view(r) == nonempty(f@),
{
    if f.len() > 0 {
        Some(f)
    } else {
        None
    }
}

fn trailer_exec<'a>(s: &'a [u8], j: usize, n: usize) -> (r: Option<(Vec<&'a [u8]>, usize)>)
    requires
        j <= s@.len(),
        n >= 1,
    ensures
        match trailer_at(s@, j as int, n as nat) {
            Some((fs, k)) => r matches Some((v, k2)) && k2 == k && slices_view(v@) == fs
                && v@.len() == n && j < k2 <= s@.len(),
            None => r is None,
        },
{
    let (fs, e) = match fields_exec(s, j, n) {
        Some(x) => x,
        None => return None,
    };
    proof {
        lemma_fields_at(s@, j as int, n as nat);
    }
    let mut x: usize = 0;
    #[verifier::loop_isolation(false)]
    while x < n
        invariant
            x <= n,
            fs@.len() == n,
            forall|y: int| 0 <= y < x ==> fs@[y]@.len() > 0,
        decreases n - x,
    {
        if fs[x].len() == 0 {
            proof {
                assert(slices_view(fs@)[x as int].len() == 0);
                assert(!all_present(slices_view(fs@)));
            }
            return None;
        }
        x = x + 1;
    }
    assert(all_present(slices_view(fs@)));
    match record_sep_end_exec(s, e) {
        Some(k) => Some((fs, k)),
        None => None,
    }
}

/// Reads the body of a file header.
fn file_header_exec<'a>(s: &'a [u8], j: usize) -> (r: Option<(RawRecord<'a>, usize)>)
    requires
        j <= s@.len(),
    ensures
        match file_header_at(s@, j as int) {
            Some((v, k)) => r matches Some((x, k2)) && k2 == k && x@ == v && j < k2 <= s@.len(),
            None => r is None,
        },
{
    let (fs, e) = match fields_exec(s, j, 8) {
        Some(x) => x,
        None => return None,
    };
    proof {
        lemma_fields_at(s@, j as int, 8);
    }
    if fs[0].len() == 0 || fs[1].len() == 0 || fs[2].len() == 0 || fs[3].len() == 0
        || fs[4].len() == 0 || fs[7].len() == 0 {
        return None;
    }
    let k = match record_sep_end_exec(s, e) {
        Some(k) => k,
        None => return None,
    };
    Some(
        (
            RawRecord::FileHeader(
                RawFileHeader {
                    sender_ident: fs[0],
                    receiver_ident: fs[1],
                    creation_date: fs[2],
                    creation_time: fs[3],
                    ident_num: fs[4],
                    physical_record_len: opt_slice(fs[5]),
                    block_size: opt_slice(fs[6]),
                    version_number: fs[7],
                },
            ),
            k,
        ),
    )
}

/// Reads the body of a group header.
fn group_header_exec<'a>(s: &'a [u8], j: usize) -> (r: Option<(RawRecord<'a>, usize)>)
    requires
        j <= s@.len(),
    ensures
        match group_header_at(s@, j as int) {
            Some((v, k)) => r matches Some((x, k2)) && k2 == k && x@ == v && j < k2 <= s@.len(),
            None => r is None,
        },
{
    let (fs, e) = match fields_exec(s, j, 7) {
        Some(x) => x,
        None => return None,
    };
    proof {
        lemma_fields_at(s@, j as int, 7);
    }
    if fs[2].len() == 0 || fs[3].len() == 0 {
        return None;
    }
    let k = match record_sep_end_exec(s, e) {
        Some(k) => k,
        None => return None,
    };
    Some(
        (
            RawRecord::GroupHeader(
                RawGroupHeader {
                    ultimate_receiver_ident: opt_slice(fs[0]),
                    originator_ident: opt_slice(fs[1]),
                    status: fs[2],
                    as_of_date: fs[3],
                    as_of_time: opt_slice(fs[4]),
                    currency: opt_slice(fs[5]),
                    as_of_date_mod: opt_slice(fs[6]),
                },
            ),
            k,
        ),
    )
}

/// Reads the body of an account identifier.
fn account_ident_exec<'a>(s: &'a [u8], j: usize) -> (r: Option<(RawRecord<'a>, usize)>)
    requires
        j <= s@.len(),
    ensures
        match account_ident_at(s@, j as int) {
            Some((v, k)) => r matches Some((x, k2)) && k2 == k && x@ == v && j < k2 <= s@.len(),
            None => r is None,
        },
{
    let (fs, e) = match fields_exec(s, j, 2) {
        Some(x) => x,
        None => return None,
    };
    proof {
        lemma_fields_at(s@, j as int, 2);
    }
    if fs[0].len() == 0 {
        return None;
    }
    let m = match sep_end_exec(s, e) {
        Some(m) => m,
        None => return None,
    };
    let (infos, e2) = match infos_exec(s, m) {
        Some(x) => x,
        None => return None,
    };
    let k = match record_sep_end_exec(s, e2) {
        Some(k) => k,
        None => return None,
    };
    Some(
        (
            RawRecord::AccountIdent(
                RawAccountIdent {
                    customer_account_num: fs[0],
                    currency: opt_slice(fs[1]),
                    infos,
                },
            ),
            k,
        ),
    )
}

/// Reads the body of a transaction detail.
fn transaction_detail_exec<'a>(s: &'a [u8], j: usize) -> (r: Option<(RawRecord<'a>, usize)>)
    requires
        j <= s@.len(),
    ensures
        match transaction_detail_at(s@, j as int) {
            Some((v, k)) => r matches Some((x, k2)) && k2 == k && x@ == v && j < k2 <= s@.len(),
            None => r is None,
        },
{
    let (fs, e) = match fields_exec(s, j, 2) {
        Some(x) => x,
        None => return None,
    };
    proof {
        lemma_fields_at(s@, j as int, 2);
    }
    if fs[0].len() == 0 {
        return None;
    }
    let m = match sep_end_exec(s, e) {
        Some(m) => m,
        None => return None,
    };
    let (funds_type, k1) = match funds_type_exec(s, m) {
        Some((f, k)) => (Some(f), k),
        None => (None, m),
    };
    let m2 = match sep_end_exec(s, k1) {
        Some(m2) => m2,
        None => return None,
    };
    let (gs, e3) = match fields_exec(s, m2, 2) {
        Some(x) => x,
        None => return None,
    };
    proof {
        lemma_fields_at(s@, m2 as int, 2);
    }
    let m3 = match sep_end_exec(s, e3) {
        Some(m3) => m3,
        None => return None,
    };
    let (text, k) = match record_sep_end_exec(s, m3) {
        Some(k) => (None, k),
        None => match text_exec(s, m3) {
            Some((t, k)) => (Some(t), k),
            None => return None,
        },
    };
    Some(
        (
            RawRecord::TransactionDetail(
                RawTransactionDetail {
                    type_code: fs[0],
                    amount: opt_slice(fs[1]),
                    funds_type,
                    bank_ref_num: opt_slice(gs[0]),
                    customer_ref_num: opt_slice(gs[1]),
                    text,
                },
            ),
            k,
        ),
    )
}

/// Reads the record starting at `i`, and says where it ends.
pub fn record<'a>(s: &'a [u8], i: usize) -> (r: Option<(RawRecord<'a>, usize)>)
    requires
        i <= s@.len(),
    ensures
        match record_at(s@, i as int) {
            Some((v, k)) => r matches Some((x, k2)) && k2 == k && x@ == v && i < k2 <= s@.len(),
            None => r is None,
        },
{
    if s.len() < 2 || i > s.len() - 2 {
        return None;
    }
    let j = match sep_end_exec(s, i + 2) {
        Some(j) => j,
        None => return None,
    };
    let a = s[i];
    let b = s[i + 1];
    if a == 48 && b == 49 {
        file_header_exec(s, j)
    } else if a == 48 && b == 50 {
        group_header_exec(s, j)
    } else if a == 48 && b == 51 {
        account_ident_exec(s, j)
    } else if a == 49 && b == 54 {
        transaction_detail_exec(s, j)
    } else if a == 52 && b == 57 {
        let (fs, k) = match trailer_exec(s, j, 2) {
            Some(x) => x,
            None => return None,
        };
        Some(
            (
                RawRecord::AccountTrailer(
                    RawAccountTrailer { control_total: fs[0], records_num: fs[1] },
                ),
                k,
            ),
        )
    } else if a == 57 && b == 56 {
        let (fs, k) = match trailer_exec(s, j, 3) {
            Some(x) => x,
            None => return None,
        };
        Some(
            (
                RawRecord::GroupTrailer(
                    RawGroupTrailer {
                        control_total: fs[0],
                        accounts_num: fs[1],
                        records_num: fs[2],
                    },
                ),
                k,
            ),
        )
    } else if a == 57 && b == 57 {
        let (fs, k) = match trailer_exec(s, j, 3) {
            Some(x) => x,
            None => return None,
        };
        Some(
            (
                RawRecord::FileTrailer(
                    RawFileTrailer { control_total: fs[0], groups_num: fs[1], records_num: fs[2] },
                ),
                k,
            ),
        )
    } else {
        None
    }
}


/// A record that could not be read: where it starts, and its kind when its
/// tag is a known one.
#[derive(Debug, Clone, Copy, PartialEq, Eq, Structural)]
pub struct LexError {
    pub offset: usize,
    pub tag: Option<u8>,
}

pub open spec fn records_view(v: Seq<RawRecord>) -> Seq<RawRecordView> {
    v.map_values(|r: RawRecord| r@)
}

/// The records from `i` to the end of the input, each followed by a line
/// end or by the end of the input; else where the first record that cannot
/// be read starts.
pub open spec fn file_at(s: Seq<u8>, i: int) -> Result<Seq<RawRecordView>, int>
    decreases s.len() - i,
{
    if i < 0 || i >= s.len() {
        Ok(seq![])
    } else {
        match record_at(s, i) {
            None => Err(i),
            Some((r, k)) => if k == s.len() {
                Ok(seq![r])
            } else if eol_len(s, k) > 0 && i < k < s.len() {
                match file_at(s, k + eol_len(s, k)) {
                    Ok(rs) => Ok(seq![r] + rs),
                    Err(e) => Err(e),
                }
            } else {
                Err(i)
            },
        }
    }
}

pub open spec fn prepend_records(acc: Seq<RawRecordView>, x: Result<Seq<RawRecordView>, int>) -> Result<
    Seq<RawRecordView>,
    int,
> {
    match x {
        Ok(rs) => Ok(acc + rs),
        Err(e) => Err(e),
    }
}

pub(crate) fn tag_exec(s: &[u8], i: usize) -> (r: Option<u8>)
    ensures
        r == tag_of(s@, i as int),
{
    if s.len() < 2 || i > s.len() - 2 {
        return None;
    }
    let a = s[i];
    let b = s[i + 1];
    if a == 48 && b == 49 {
        Some(1)
    } else if a == 48 && b == 50 {
        Some(2)
    } else if a == 48 && b == 51 {
        Some(3)
    } else if a == 49 && b == 54 {
        Some(16)
    } else if a == 52 && b == 57 {
        Some(49)
    } else if a == 57 && b == 56 {
        Some(98)
    } else if a == 57 && b == 57 {
        Some(99)
    } else {
        None
    }
}

/// Reads all the records of a stream, each ended by a line end or by the
/// end of the input.
pub fn file<'a>(s: &'a [u8]) -> (r: Result<Vec<RawRecord<'a>>, LexError>)
    ensures
        match file_at(s@, 0) {
            Ok(rs) => r matches Ok(v) && records_view(v@) == rs,
            Err(off) => r matches Err(e) && e.offset == off && e.tag == tag_of(s@, off),
        },
{
    let mut out: Vec<RawRecord<'a>> = Vec::new();
    let mut pos: usize = 0;
    proof {
        match file_at(s@, 0) {
            Ok(rs) => {
                assert(records_view(out@) + rs == rs);
            },
            Err(_) => {},
        }
    }
    while pos < s.len()
        invariant
            pos <= s@.len(),
            file_at(s@, 0) == prepend_records(records_view(out@), file_at(s@, pos as int)),
        decreases s@.len() - pos,
    {
        let (rec, k) = match record(s, pos) {
            Some(x) => x,
            None => return Err(LexError { offset: pos, tag: tag_exec(s, pos) }),
        };
        let ghost old_out = out@;
        out.push(rec);
        assert(records_view(out@) == records_view(old_out) + seq![rec@]);
        if k == s.len() {
            assert(file_at(s@, pos as int) == Ok::<Seq<RawRecordView>, int>(seq![rec@]));
            assert(file_at(s@, k as int) == Ok::<Seq<RawRecordView>, int>(seq![]));
            assert(records_view(out@) + seq![] == records_view(out@));
            pos = k;
        } else {
            let n = eol_len_exec(s, k);
            if n == 0 {
                return Err(LexError { offset: pos, tag: tag_exec(s, pos) });
            }
            proof {
                match file_at(s@, k + n) {
                    Ok(rs) => {
                        assert(records_view(old_out) + (seq![rec@] + rs) == records_view(out@)
                            + rs);
                    },
                    Err(_) => {},
                }
            }
            pos = k + n;
        }
    }
    assert(records_view(out@) + seq![] == records_view(out@));
    Ok(out)
}

/// At a field boundary, a `/`, a line end (LF, CR or CR LF) and `88,`
/// separate fields as a single `,` does: both end the separator where the
/// same bytes follow, after the same bytes before it.
pub proof fn lemma_continuation_separator(a: Seq<u8>, eol: Seq<u8>, b: Seq<u8>)
    requires
        eol == seq![10u8] || eol == seq![13u8] || eol == seq![13u8, 10u8],
    ensures
        sep_end(a + (seq![47u8] + eol + seq![56u8, 56u8, 44u8]) + b, a.len() as int) == Some(
            a.len() + eol.len() as int + 4,
        ),
        sep_end(a + seq![44u8] + b, a.len() as int) == Some(a.len() as int + 1),
        (a + (seq![47u8] + eol + seq![56u8, 56u8, 44u8]) + b).skip(a.len() + eol.len() as int + 4) == (a
            + seq![44u8] + b).skip(a.len() as int + 1),
        (a + (seq![47u8] + eol + seq![56u8, 56u8, 44u8]) + b).take(a.len() as int) == (a + seq![
            44u8,
        ] + b).take(a.len() as int),
{
    let sep = seq![47u8] + eol + seq![56u8, 56u8, 44u8];
    let x = a + sep + b;
    let y = a + seq![44u8] + b;
    let n = a.len() as int;
    let k = eol.len() as int;
    assert(x[n] == 47u8);
    assert(x[n + 1] == eol[0]);
    if k == 2 {
        assert(x[n + 2] == 10u8);
    }
    assert(x[n + 1 + k] == 56u8);
    assert(x[n + 2 + k] == 56u8);
    assert(x[n + 3 + k] == 44u8);
    assert(eol_len(x, n + 1) == k);
    assert(y[n] == 44u8);
    assert(x.skip(n + k + 4) =~= b);
    assert(y.skip(n + 1) =~= b);
    assert(x.take(n) =~= a);
    assert(y.take(n) =~= a);
}

} // verus!
