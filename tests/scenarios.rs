use bai2::ast::convert::{
    AccountConvError, ConvertError, FileConvError, FundsTypeConvError, TransactionDetailConvError,
};
use bai2::calendar::{CalendarDate, DateTime, TimeOfDay};
use bai2::data::{File, GroupStatus, NaiveDateOrTime};
use bai2::process::ProcessError;

fn eod() -> TimeOfDay {
    TimeOfDay { hour: 23, minute: 59, second: 59 }
}

fn date(year: i32, month: u32, day: u32) -> CalendarDate {
    CalendarDate { year, month, day }
}

fn noon_2023() -> DateTime {
    DateTime { date: date(2023, 1, 1), time: TimeOfDay { hour: 12, minute: 0, second: 0 } }
}

#[test]
fn scenario_minimal_file() {
    let f = File::process(b"01,SND,RCV,230101,1200,1,,,2/\n99,0,0,2/", eod()).unwrap();
    assert_eq!(f.sender.0, "SND");
    assert_eq!(f.receiver.0, "RCV");
    assert_eq!(f.creation, noon_2023());
    assert_eq!(f.ident.0, 1);
    assert!(f.groups.is_empty());
}

#[test]
fn scenario_one_empty_group() {
    let input = b"01,SND,RCV,230101,1200,1,,,2/\n02,,ORIG,1,230101,,,/ \n98,0,0,1/\n99,0,1,4/";
    let f = File::process(input, eod()).unwrap();
    assert_eq!(f.groups.len(), 1);
    let g = &f.groups[0];
    assert_eq!(g.status, GroupStatus::Update);
    assert_eq!(g.as_of, NaiveDateOrTime::Date(date(2023, 1, 1)));
    assert_eq!(g.originator.as_ref().unwrap().0, "ORIG");
    assert!(g.ultimate_receiver.is_none());
    assert!(g.currency.is_none());
    assert!(g.as_of_date_mod.is_none());
    assert!(g.accounts.is_empty());
}

#[test]
fn scenario_one_empty_group_as_written_counts_no_group() {
    // The trailer `99,0,0,4` declares no group while one was read.
    let input = b"01,SND,RCV,230101,1200,1,,,2/\n02,,ORIG,1,230101,,,/ \n98,0,0,1/\n99,0,0,4/";
    let r = File::process(input, eod());
    assert!(matches!(
        r,
        Err(ProcessError::Conversion(ConvertError::File(FileConvError::GroupsNum {
            expected: 0,
            actual: 1
        })))
    ));
}

#[test]
fn scenario_continuation_as_written_has_an_empty_version() {
    // `/`, LF, `88,` separates two fields as one `,` does, so the bytes as
    // written hold an empty version field between the split and `,2`.
    let r = File::process(b"01,SND,RCV,230101,1200,1,,/\n88,,2/\n99,0,0,2/", eod());
    assert!(matches!(r, Err(ProcessError::Parse(bai2::parse::LexError { offset: 0, tag: Some(1) }))));
}

#[test]
fn scenario_continuation() {
    let f = File::process(b"01,SND,RCV,230101,1200,1,,/\n88,2/\n99,0,0,2/", eod()).unwrap();
    assert_eq!(f.sender.0, "SND");
    assert_eq!(f.receiver.0, "RCV");
    assert_eq!(f.creation, noon_2023());
    assert_eq!(f.ident.0, 1);
    assert!(f.groups.is_empty());
}

const MULTILINE: &[u8] = b"01,SND,RCV,230101,1200,1,,,2/
02,,ORIG,1,230101,,,/
03,ACCT,USD,010,100,,/
16,165,500,Z,BANK,CUST,line one
88,line two
88,line three
49,600,3/
98,600,1,6/
99,600,1,8/";

#[test]
fn scenario_transaction_multiline_text() {
    let f = File::process(MULTILINE, eod()).unwrap();
    let a = &f.groups[0].accounts[0];
    assert_eq!(a.customer_account.0, "ACCT");
    assert_eq!(a.currency.as_ref().unwrap().0, "USD");
    assert_eq!(a.transaction_details.len(), 1);
    let t = &a.transaction_details[0];
    assert_eq!(
        t.text.as_ref().unwrap(),
        &vec!["line one".to_string(), "line two".to_string(), "line three".to_string()]
    );
    assert_eq!(t.amount, Some(500));
    assert_eq!(t.bank_ref_num.as_ref().unwrap().0, "BANK");
    assert_eq!(t.customer_ref_num.as_ref().unwrap().0, "CUST");
    assert!(matches!(t.funds, Some(bai2::data::FundsType::Unknown)));
}

#[test]
fn scenario_control_total_mismatch() {
    let input = b"01,SND,RCV,230101,1200,1,,,2/
02,,ORIG,1,230101,,,/
03,ACCT,,010,,,/
16,165,500,,,,/
49,499,2/
98,499,1,4/
99,499,1,6/";
    let r = File::process(input, eod());
    assert!(matches!(
        r,
        Err(ProcessError::Conversion(ConvertError::Account {
            group: 0,
            account: 0,
            err: AccountConvError::ControlTotal { expected: 499, actual: 500 }
        }))
    ));
}

#[test]
fn scenario_distributed_count_mismatch() {
    let input = b"01,SND,RCV,230101,1200,1,,,2/
02,,ORIG,1,230101,,,/
03,ACCT,,010,,,/
16,165,300,D,3,1,100,2,200,,,/
49,300,2/
98,300,1,4/
99,300,1,6/";
    let r = File::process(input, eod());
    assert!(matches!(
        r,
        Err(ProcessError::Conversion(ConvertError::TransactionDetail {
            group: 0,
            account: 0,
            transaction: 0,
            err: TransactionDetailConvError::Funds(FundsTypeConvError::DistributedAvailDNum(2))
        }))
    ));
}
