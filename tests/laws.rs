use bai2::ast::convert::{
    chrono_date_time, AccountConvError, ConvertError, GroupConvError, TransactionDetailConvError,
};
use bai2::ast::parse::ParseError;
use bai2::ast::{Date, FileHeaderField, RecordField, Time};
use bai2::ast::parse::RecordError;
use bai2::calendar::{CalendarDate, DateTime, TimeOfDay};
use bai2::data::{AccountInfo, File};
use bai2::process::ProcessError;
use bai2::type_codes::{DetailCode, StatusCode, SummaryCode};

fn eod() -> TimeOfDay {
    TimeOfDay { hour: 23, minute: 59, second: 59 }
}

#[test]
fn type_codes_round_trip_below_thousand() {
    for c in 0u16..1000 {
        if let Ok(s) = StatusCode::try_from(c) {
            assert_eq!(u16::from(s), c);
        }
        if let Ok(s) = SummaryCode::try_from(c) {
            assert_eq!(u16::from(s), c);
        }
        if let Ok(d) = DetailCode::try_from(c) {
            assert_eq!(u16::from(d), c);
        }
    }
}

#[test]
fn type_code_ranges_are_total() {
    assert_eq!(StatusCode::try_from(13), Ok(StatusCode::Account(13)));
    assert_eq!(StatusCode::try_from(905), Ok(StatusCode::Account(905)));
    assert_eq!(StatusCode::try_from(719), Ok(StatusCode::Loan(719)));
    assert_eq!(StatusCode::try_from(0), Err(0));
    assert_eq!(StatusCode::try_from(100), Err(100));
    assert_eq!(StatusCode::try_from(720), Err(720));
    assert_eq!(SummaryCode::try_from(469), Ok(SummaryCode::Debit(469)));
    assert_eq!(SummaryCode::try_from(470), Err(470));
    assert_eq!(SummaryCode::try_from(950), Ok(SummaryCode::Credit(950)));
    assert_eq!(SummaryCode::try_from(799), Ok(SummaryCode::Loan(799)));
    assert_eq!(DetailCode::try_from(890), Ok(DetailCode::NonMonetary));
    assert_eq!(DetailCode::try_from(699), Ok(DetailCode::Debit(699)));
    assert_eq!(DetailCode::try_from(800), Err(800));
    assert_eq!(DetailCode::try_from(1000), Err(1000));
    assert!(DetailCode::Credit(925).is_custom());
    assert!(!SummaryCode::Credit(100).is_custom());
    assert!(StatusCode::Account(919).is_custom());
}

const TOTALS: &[u8] = b"01,SND,RCV,230101,1200,1,,,2/
02,,ORIG,1,230101,,,/
03,A1,,010,-50,,,100,300,2,/
16,165,500,,,,/
16,475,25,,,,/
49,775,4/
03,A2,,040,7,,/
49,7,2/
98,782,2,8/
02,,ORIG2,1,230102,,,/
03,B1,,015,1,,/
49,1,2/
98,1,1,4/
99,783,2,14/";

#[test]
fn control_totals_accumulate_at_each_level() {
    let f = File::process(TOTALS, eod()).unwrap();
    assert_eq!(f.groups.len(), 2);
    let a1 = &f.groups[0].accounts[0];
    assert_eq!(a1.infos.len(), 2);
    assert!(matches!(a1.infos[0], AccountInfo::Status { amount: Some(-50), .. }));
    assert!(matches!(
        a1.infos[1],
        AccountInfo::Summary { amount: Some(300), item_count: Some(2), .. }
    ));
    assert_eq!(a1.transaction_details.len(), 2);
    assert_eq!(f.groups[0].accounts.len(), 2);
    assert_eq!(f.groups[1].accounts.len(), 1);
}

#[test]
fn control_total_mismatch_at_group_and_file() {
    let group_bad = b"01,SND,RCV,230101,1200,1,,,2/
02,,ORIG,1,230101,,,/
03,A,,010,5,,/
49,5,2/
98,6,1,4/
99,6,1,6/";
    assert!(matches!(
        File::process(group_bad, eod()),
        Err(ProcessError::Conversion(ConvertError::Group {
            group: 0,
            err: GroupConvError::ControlTotal { expected: 6, actual: 5 }
        }))
    ));
    let file_bad = b"01,SND,RCV,230101,1200,1,,,2/
02,,ORIG,1,230101,,,/
03,A,,010,5,,/
49,5,2/
98,5,1,4/
99,4,1,6/";
    assert!(matches!(
        File::process(file_bad, eod()),
        Err(ProcessError::Conversion(ConvertError::File(
            bai2::ast::convert::FileConvError::ControlTotal { expected: 4, actual: 5 }
        )))
    ));
}

#[test]
fn errors_carry_the_indices_where_they_occur() {
    let input = b"01,SND,RCV,230101,1200,1,,,2/
02,,ORIG,1,230101,,,/
98,0,0,2/
02,,ORIG,1,230101,,,/
03,A,,010,,,/
49,0,2/
03,B,,010,,,/
16,165,1,,,,/
16,050,1,,,,/
49,2,4/
98,2,2,8/
99,2,2,12/";
    assert!(matches!(
        File::process(input, eod()),
        Err(ProcessError::Conversion(ConvertError::TransactionDetail {
            group: 1,
            account: 1,
            transaction: 1,
            err: TransactionDetailConvError::DetailCode(50)
        }))
    ));
}

#[test]
fn account_error_carries_group_and_account_only() {
    let input = b"01,SND,RCV,230101,1200,1,,,2/
02,,ORIG,1,230101,,,/
03,A,,010,,,/
49,0,2/
03,B,,010,,5,/
49,0,2/
98,0,2,6/
99,0,1,8/";
    assert!(matches!(
        File::process(input, eod()),
        Err(ProcessError::Conversion(ConvertError::Account {
            group: 0,
            account: 1,
            err: AccountConvError::AccountInfo(0, bai2::ast::convert::AccountInfoConvError::StatusItemCount)
        }))
    ));
}

#[test]
fn continuation_gives_the_same_file() {
    let joined = File::process(MULTI_JOINED, eod()).unwrap();
    let split = File::process(MULTI_SPLIT, eod()).unwrap();
    assert_eq!(format!("{:?}", joined), format!("{:?}", split));
}

const MULTI_JOINED: &[u8] = b"01,SND,RCV,230101,1200,1,,,2/
02,,ORIG,1,230101,,,/
03,ACCT,USD,010,100,,,100,7,,/
16,165,500,Z,BANK,CUST,/
49,607,3/
98,607,1,5/
99,607,1,7/";

const MULTI_SPLIT: &[u8] = b"01,SND,RCV,230101/
88,1200,1,,,2/
02,,ORIG,1,230101,,,/
03,ACCT,USD,010,100/
88,,,100/
88,7,,/
16,165,500,Z/
88,BANK,CUST,/
49,607,3/
98,607,1,5/
99,607,1,7/";

#[test]
fn end_of_day_time_gives_the_callers_time() {
    let d = Date { year: 23, month: 1, day: 1 };
    let r = chrono_date_time(&d, &Time { hour: 99, minute: 99 }, eod()).unwrap();
    assert_eq!(r, DateTime { date: CalendarDate { year: 2023, month: 1, day: 1 }, time: eod() });
    let other = chrono_date_time(&d, &Time { hour: 23, minute: 59 }, eod()).unwrap();
    assert_eq!(other.time, TimeOfDay { hour: 23, minute: 59, second: 0 });
    let f = File::process(b"01,SND,RCV,230101,9999,1,,,2/\n99,0,0,2/", eod()).unwrap();
    assert_eq!(f.creation.time, eod());
}

#[test]
fn version_other_than_two_is_refused() {
    for v in [&b"3"[..], &b"22"[..], &b"02"[..]] {
        let mut input = b"01,SND,RCV,230101,1200,1,,,".to_vec();
        input.extend_from_slice(v);
        input.extend_from_slice(b"/\n99,0,0,2/");
        let r = File::process(&input, eod());
        assert!(matches!(
            r,
            Err(ProcessError::FieldParse {
                record: 0,
                err: ParseError::Error(
                    RecordField::FileHeader,
                    RecordError::FileHeader(ParseError::Format(FileHeaderField::VersionNumber))
                )
            })
        ));
    }
}
