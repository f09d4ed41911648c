use bai2::ast::convert::{
    chrono_date, AccountInfoConvError, ChronoError, ConvertError, Converter, ConverterOutput,
    ConverterProgress, FileConvError, GroupConvError,
};
use bai2::ast::parse::{DateError, FundsTypeError, ParseError, TimeError};
use bai2::ast::{
    Date, FundsType, FundsTypeField, ParsedFundsType, ParsedRecord, RawFundsType, RawRecord,
    Record, Time,
};
use bai2::calendar::{CalendarDate, TimeOfDay};
use bai2::data::{CurrencyCode, File, NaiveDateOrTime};
use bai2::parse::{is_field_char, is_text_char, record, LexError};
use bai2::process::ProcessError;

fn eod() -> TimeOfDay {
    TimeOfDay { hour: 23, minute: 59, second: 59 }
}

fn header() -> &'static [u8] {
    b"01,SND,RCV,230101,1200,1,,,2/"
}

fn parsed(line: &[u8]) -> ParsedRecord<'_> {
    let (raw, _) = record(line, 0).unwrap();
    Record::parse(&raw).unwrap()
}

#[test]
fn field_and_text_chars() {
    assert!(is_field_char(b'a'));
    assert!(!is_field_char(b','));
    assert!(!is_field_char(b'/'));
    assert!(!is_field_char(b'\n'));
    assert!(is_text_char(b','));
    assert!(is_text_char(b'/'));
    assert!(!is_text_char(b'\r'));
}

#[test]
fn lexer_reads_fields_as_bytes() {
    let (raw, end) = record(b"02,,ORIG,1,230101,0800,USD,2/  \n", 0).unwrap();
    assert_eq!(end, 31);
    match raw {
        RawRecord::GroupHeader(h) => {
            assert!(h.ultimate_receiver_ident.is_none());
            assert_eq!(h.originator_ident, Some(&b"ORIG"[..]));
            assert_eq!(h.status, b"1");
            assert_eq!(h.as_of_time, Some(&b"0800"[..]));
            assert_eq!(h.currency, Some(&b"USD"[..]));
            assert_eq!(h.as_of_date_mod, Some(&b"2"[..]));
        }
        _ => panic!("not a group header"),
    }
}

#[test]
fn lexer_reads_funds_types() {
    let (raw, _) = record(b"16,165,10,S,1,,3,,,/", 0).unwrap();
    match raw {
        RawRecord::TransactionDetail(t) => match t.funds_type.unwrap() {
            RawFundsType::DistributedAvailS { immediate, one_day, more_than_one_day } => {
                assert_eq!(immediate, Some(&b"1"[..]));
                assert_eq!(one_day, None);
                assert_eq!(more_than_one_day, Some(&b"3"[..]));
            }
            _ => panic!("not S"),
        },
        _ => panic!("not a transaction"),
    }
    let (raw, _) = record(b"16,165,10,V,230102,1000,,,/", 0).unwrap();
    match raw {
        RawRecord::TransactionDetail(t) => {
            assert!(matches!(
                t.funds_type,
                Some(RawFundsType::ValueDated { date: b"230102", time: Some(b"1000") })
            ));
        }
        _ => panic!("not a transaction"),
    }
}

#[test]
fn lexer_text_seed_and_stripped_lines() {
    let (raw, end) = record(b"16,165,10,,,,Xab  \r\n88,cd\r\n49", 0).unwrap();
    assert_eq!(end, 25);
    match raw {
        RawRecord::TransactionDetail(t) => {
            let (seed, lines) = t.text.unwrap();
            assert_eq!(seed, b'X');
            assert_eq!(lines, vec![&b"ab"[..], &b"cd"[..]]);
        }
        _ => panic!("not a transaction"),
    }
}

#[test]
fn lexer_error_gives_offset_and_tag() {
    let r = bai2::parse::file(b"01,SND,RCV,230101,1200,1,,,2/\n99,0,0/\n");
    assert_eq!(r.unwrap_err(), LexError { offset: 30, tag: Some(99) });
    let r = bai2::parse::file(b"01,SND,RCV,230101,1200,1,,,2/\nXX,1/");
    assert_eq!(r.unwrap_err(), LexError { offset: 30, tag: None });
    let r = bai2::parse::file(b"01,SND,RCV,230101,1200,1,,,2/ x");
    assert_eq!(r.unwrap_err(), LexError { offset: 0, tag: Some(1) });
    assert!(matches!(
        File::process(b"01,SND\n", eod()),
        Err(ProcessError::Parse(LexError { offset: 0, tag: Some(1) }))
    ));
}

#[test]
fn lexer_accepts_every_line_end() {
    assert_eq!(bai2::parse::file(b"01,SND,RCV,230101,1200,1,,,2/\r\n99,0,0,2/\n").unwrap().len(), 2);
    assert_eq!(bai2::parse::file(b"01,SND,RCV,230101,1200,1,,,2/\r99,0,0,2/").unwrap().len(), 2);
    assert_eq!(bai2::parse::file(b"").unwrap().len(), 0);
}

#[test]
fn empty_input_is_unfinished() {
    assert!(matches!(File::process(b"", eod()), Err(ProcessError::UnfinishedConversion)));
    assert!(matches!(File::process(header(), eod()), Err(ProcessError::UnfinishedConversion)));
}

#[test]
fn dates_and_times_from_bytes() {
    assert_eq!(Date::from_bytes(b"991231"), Ok(Date { year: 99, month: 12, day: 31 }));
    assert_eq!(Date::from_bytes(b"99123"), Err(DateError::All));
    assert_eq!(Date::from_bytes(b"9a1231"), Err(DateError::Year));
    assert_eq!(Date::from_bytes(b"99+231"), Err(DateError::Month));
    assert_eq!(Date::from_bytes(b"9912 1"), Err(DateError::Day));
    assert_eq!(Time::from_bytes(b"0930"), Ok(Time { hour: 9, minute: 30 }));
    assert_eq!(Time::from_bytes(b"930"), Err(TimeError::All));
    assert_eq!(Time::from_bytes(b"x930"), Err(TimeError::Hour));
    assert_eq!(Time::from_bytes(b"09x0"), Err(TimeError::Minute));
}

#[test]
fn year_pivot_and_calendar() {
    assert_eq!(
        chrono_date(&Date { year: 70, month: 2, day: 1 }),
        Ok(CalendarDate { year: 2070, month: 2, day: 1 })
    );
    assert_eq!(
        chrono_date(&Date { year: 71, month: 2, day: 1 }),
        Ok(CalendarDate { year: 1971, month: 2, day: 1 })
    );
    assert_eq!(
        chrono_date(&Date { year: 24, month: 2, day: 29 }),
        Ok(CalendarDate { year: 2024, month: 2, day: 29 })
    );
    assert_eq!(chrono_date(&Date { year: 23, month: 2, day: 29 }), Err(ChronoError::InvalidDate));
    assert_eq!(chrono_date(&Date { year: 23, month: 13, day: 1 }), Err(ChronoError::InvalidDate));
    assert!(matches!(
        File::process(b"01,SND,RCV,230101,2460,1,,,2/\n99,0,0,2/", eod()),
        Err(ProcessError::Conversion(ConvertError::File(FileConvError::Creation(
            ChronoError::InvalidTime
        ))))
    ));
}

#[test]
fn typed_fields_and_their_errors() {
    match parsed(b"01,SND,RCV,230101,1200,4294967295,80,+5,2/") {
        ParsedRecord::FileHeader(h) => {
            assert_eq!(h.ident_num, 4294967295);
            assert_eq!(h.physical_record_len, Some(80));
            assert_eq!(h.block_size, Some(5));
        }
        _ => panic!("not a file header"),
    }
    let (raw, _) = record(b"01,SND,RCV,230101,1200,4294967296,,,2/", 0).unwrap();
    assert!(matches!(
        Record::parse(&raw),
        Err(ParseError::Error(
            bai2::ast::RecordField::FileHeader,
            bai2::ast::parse::RecordError::FileHeader(ParseError::Int(
                bai2::ast::FileHeaderField::IdentNum
            ))
        ))
    ));
    let (raw, _) = record(b"01,S\xff,RCV,230101,1200,1,,,2/", 0).unwrap();
    assert!(matches!(
        Record::parse(&raw),
        Err(ParseError::Error(
            bai2::ast::RecordField::FileHeader,
            bai2::ast::parse::RecordError::FileHeader(ParseError::Utf8(
                bai2::ast::FileHeaderField::SenderIdent
            ))
        ))
    ));
    match parsed(b"49,-9223372036854775808,2/") {
        ParsedRecord::AccountTrailer(t) => assert_eq!(t.control_total, i64::MIN),
        _ => panic!("not an account trailer"),
    }
}

#[test]
fn funds_type_typing_errors() {
    let raw = RawFundsType::ValueDated { date: b"2301", time: None };
    assert!(matches!(
        FundsType::parse(&raw),
        Err(ParseError::Error(FundsTypeField::ValueDatedDate, FundsTypeError::Date(DateError::All)))
    ));
    let raw = RawFundsType::DistributedAvailD {
        num: b"1",
        dists: vec![bai2::ast::RawDistributedAvailDistribution { days: b"x", amount: b"1" }],
    };
    assert!(matches!(
        FundsType::parse(&raw),
        Err(ParseError::Error(
            FundsTypeField::DistributedAvailDDists,
            FundsTypeError::DistributedAvailDDist(0, ParseError::Int(_))
        ))
    ));
}

#[test]
fn funds_type_conversion() {
    let p = ParsedFundsType::ValueDated { date: Date { year: 23, month: 1, day: 2 }, time: None };
    assert!(matches!(
        p.convert(eod()),
        Ok(bai2::data::FundsType::ValueDated(NaiveDateOrTime::Date(CalendarDate { year: 2023, month: 1, day: 2 })))
    ));
    let p = ParsedFundsType::DistributedAvailD {
        num: 1,
        dists: vec![bai2::ast::ParsedDistributedAvailDistribution { days: 2, amount: -3 }],
    };
    match p.convert(eod()) {
        Ok(bai2::data::FundsType::DistributedAvailD(v)) => {
            assert_eq!(v, vec![bai2::data::DistributedAvailDistribution { days: 2, amount: -3 }])
        }
        _ => panic!("not converted"),
    }
}

fn account_error(info: &str) -> Option<AccountInfoConvError> {
    let input = format!(
        "01,SND,RCV,230101,1200,1,,,2/\n02,,ORIG,1,230101,,,/\n03,A,,{}/\n49,0,2/\n98,0,1,4/\n99,0,1,6/",
        info
    );
    match File::process(input.as_bytes(), eod()) {
        Err(ProcessError::Conversion(ConvertError::Account {
            err: bai2::ast::convert::AccountConvError::AccountInfo(0, e),
            ..
        })) => Some(e),
        _ => None,
    }
}

#[test]
fn account_info_errors() {
    assert_eq!(account_error(",5,,"), Some(AccountInfoConvError::NoCode));
    assert_eq!(account_error("050,,,"), None);
    assert_eq!(account_error("099,,,Z"), Some(AccountInfoConvError::StatusFunds));
    assert_eq!(account_error("400,-1,,"), Some(AccountInfoConvError::SummaryNegativeAmount));
    assert_eq!(account_error("800,,,"), Some(AccountInfoConvError::InvalidCode(800)));
    assert_eq!(
        account_error("400,,,V,230230,"),
        Some(AccountInfoConvError::Funds(bai2::ast::convert::FundsTypeConvError::ValueDated(
            ChronoError::InvalidDate
        )))
    );
}

fn group_error(header: &str) -> Option<GroupConvError> {
    let input = format!("01,SND,RCV,230101,1200,1,,,2/\n{}/\n98,0,0,2/\n99,0,1,4/", header);
    match File::process(input.as_bytes(), eod()) {
        Err(ProcessError::Conversion(ConvertError::Group { group: 0, err })) => Some(err),
        _ => None,
    }
}

#[test]
fn group_header_errors_and_currency() {
    assert!(matches!(group_error("02,,O,5,230101,,,"), Some(GroupConvError::Status)));
    assert!(matches!(
        group_error("02,,O,1,230132,,,"),
        Some(GroupConvError::AsOf(ChronoError::InvalidDate))
    ));
    assert!(matches!(group_error("02,,O,1,230101,,QQQ,"), Some(GroupConvError::Currency(c)) if c == "QQQ"));
    assert!(matches!(group_error("02,,O,1,230101,,,9"), Some(GroupConvError::AsOfDateMod)));
    assert!(group_error("02,,O,1,230101,,EUR,4").is_none());
    assert!(matches!(
        group_error("02,,O,1,230101,,,/\n02,,O,1,230101,,,"),
        None
    ));
}

#[test]
fn group_currency_defaults_to_dollars() {
    let f = File::process(
        b"01,SND,RCV,230101,1200,1,,,2/\n02,,O,1,230101,1015,EUR,3/\n98,0,0,2/\n99,0,1,4/",
        eod(),
    )
    .unwrap();
    let g = &f.groups[0];
    assert_eq!(g.currency_def().0, "EUR");
    assert!(matches!(g.as_of_date_mod, Some(bai2::data::AsOfDateModifier::InterimSame)));
    assert_eq!(g.as_of.date_time().unwrap().time, TimeOfDay { hour: 10, minute: 15, second: 0 });
    assert_eq!(g.as_of.date(), CalendarDate { year: 2023, month: 1, day: 1 });
    let f = File::process(
        b"01,SND,RCV,230101,1200,1,,,2/\n02,,O,1,230101,,,/\n03,A,,010,,,/\n49,0,2/\n98,0,1,4/\n99,0,1,6/",
        eod(),
    )
    .unwrap();
    let g = &f.groups[0];
    assert_eq!(g.currency_def().0, "USD");
    assert_eq!(g.accounts[0].currency_def(CurrencyCode("CAD".to_string())).0, "CAD");
    assert!(g.as_of.date_time_ref().is_none());
}

#[test]
fn converter_refuses_records_out_of_place() {
    assert!(matches!(
        File::process(b"99,0,0,1/", eod()),
        Err(ProcessError::Conversion(ConvertError::RecordType {
            record: 0,
            progress: ConverterProgress::Fresh
        }))
    ));
    assert!(matches!(
        File::process(b"01,SND,RCV,230101,1200,1,,,2/\n49,0,2/", eod()),
        Err(ProcessError::Conversion(ConvertError::RecordType {
            record: 1,
            progress: ConverterProgress::File
        }))
    ));
    assert!(matches!(
        File::process(
            b"01,SND,RCV,230101,1200,1,,,2/\n02,,O,1,230101,,,/\n03,A,,010,,,/\n49,0,2/\n98,0,2,4/\n99,0,1,6/",
            eod()
        ),
        Err(ProcessError::Conversion(ConvertError::Group {
            group: 0,
            err: GroupConvError::AccountsNum { expected: 2, actual: 1 }
        }))
    ));
}

#[test]
fn converter_is_done_after_an_error_or_the_file() {
    let mut c = Converter::new(eod());
    let fh = parsed(header());
    let ft = parsed(b"99,0,0,2/");
    let ft2 = parsed(b"99,0,0,2/");
    assert!(matches!(c.process(fh), ConverterOutput::Active));
    let out = c.process(ft);
    assert!(matches!(out, ConverterOutput::Complete(_)));
    assert!(matches!(out.expand(), Some(Ok(Some(_)))));
    assert!(matches!(c.process(ft2), ConverterOutput::Done));
    assert!(ConverterOutput::Done.expand().is_none());
    assert!(matches!(ConverterOutput::from(None), ConverterOutput::Done));
}

#[test]
fn fold_and_fold_results() {
    let all = vec![parsed(header()), parsed(b"99,0,0,2/")];
    assert!(Converter::fold(all, eod()).is_ok());
    let short = vec![parsed(header())];
    assert!(matches!(Converter::fold(short, eod()), Err(None)));
    let items: Vec<Result<ParsedRecord, String>> = vec![Ok(parsed(header())), Ok(parsed(b"99,5,0,1/"))];
    let r = Converter::fold_results(items, eod(), |e| format!("{:?}", e.is_some()));
    assert_eq!(r.unwrap_err(), "true");
    let items: Vec<Result<ParsedRecord, String>> = vec![Ok(parsed(header())), Err("bad".to_string())];
    let r = Converter::fold_results(items, eod(), |_| "conversion".to_string());
    assert_eq!(r.unwrap_err(), "bad");
    let items: Vec<Result<ParsedRecord, String>> = vec![Ok(parsed(header()))];
    let r = Converter::fold_results(items, eod(), |e| format!("{}", e.is_none()));
    assert_eq!(r.unwrap_err(), "true");
    assert_eq!(Converter::new(eod()).progress(), Some(ConverterProgress::Fresh));
}

#[test]
fn control_totals_that_leave_sixty_four_bits_are_refused() {
    let td = b"01,SND,RCV,230101,1200,1,,,2/
02,,O,1,230101,,,/
03,A,,010,,,/
16,165,9223372036854775808,,,,/
49,0,3/
98,0,1,5/
99,0,1,7/";
    assert!(matches!(
        File::process(td, eod()),
        Err(ProcessError::Conversion(ConvertError::TransactionDetail {
            group: 0,
            account: 0,
            transaction: 0,
            err: bai2::ast::convert::TransactionDetailConvError::ControlTotalOverflow
        }))
    ));
    let infos = b"01,SND,RCV,230101,1200,1,,,2/
02,,O,1,230101,,,/
03,A,,010,9223372036854775807,,,015,1,,/
49,0,2/
98,0,1,4/
99,0,1,6/";
    assert!(matches!(
        File::process(infos, eod()),
        Err(ProcessError::Conversion(ConvertError::Account {
            group: 0,
            account: 0,
            err: bai2::ast::convert::AccountConvError::ControlTotalOverflow
        }))
    ));
    let group = b"01,SND,RCV,230101,1200,1,,,2/
02,,O,1,230101,,,/
03,A,,010,9223372036854775807,,/
49,9223372036854775807,2/
03,B,,010,1,,/
49,1,2/
98,0,2,6/
99,0,1,8/";
    assert!(matches!(
        File::process(group, eod()),
        Err(ProcessError::Conversion(ConvertError::Group {
            group: 0,
            err: GroupConvError::ControlTotalOverflow
        }))
    ));
}

#[test]
fn signed_amounts_and_codes() {
    let f = File::process(
        b"01,SND,RCV,230101,1200,1,,,2/\n02,,O,1,230101,,,/\n03,A,,100,5,,/\n16,165,7,,,,/\n49,12,3/\n98,12,1,5/\n99,12,1,7/",
        eod(),
    )
    .unwrap();
    let a = &f.groups[0].accounts[0];
    assert_eq!(a.infos[0].signed_amount(), Some(5));
    assert_eq!(a.transaction_details[0].signed_amount(), Some(7));
    assert_eq!(u8::from(f.groups[0].status), 1);
    assert_eq!(u8::from(bai2::data::AsOfDateModifier::FinalSame), 4);
    assert_eq!("230101".parse::<Date>(), Ok(Date { year: 23, month: 1, day: 1 }));
    assert_eq!("1230".parse::<Time>(), Ok(Time { hour: 12, minute: 30 }));
}

#[test]
fn fold_results_stops_at_the_converters_first_error() {
    let items: Vec<Result<ParsedRecord, String>> =
        vec![Ok(parsed(b"99,0,0,2/")), Err("later".to_string())];
    let r = Converter::fold_results(items, eod(), |e| match e {
        Some(ConvertError::RecordType { record: 0, .. }) => "record type".to_string(),
        _ => "other".to_string(),
    });
    assert_eq!(r.unwrap_err(), "record type");
}

#[test]
fn process_reports_the_earliest_failing_record() {
    // The account trailer is refused before the malformed last line is read.
    let input = b"01,SND,RCV,230101,1200,1,,,2/
02,,O,1,230101,,,/
03,A,,010,5,,/
49,6,2/
XX,garbage/";
    assert!(matches!(
        File::process(input, eod()),
        Err(ProcessError::Conversion(ConvertError::Account {
            group: 0,
            account: 0,
            err: bai2::ast::convert::AccountConvError::ControlTotal { expected: 6, actual: 5 }
        }))
    ));
    // A field that cannot be typed comes before the converter's complaint
    // about a later record.
    let input = b"01,SND,RCV,230101,1200,1,,,2/
02,,O,1,23013x,,,/
49,6,2/";
    assert!(matches!(
        File::process(input, eod()),
        Err(ProcessError::FieldParse { record: 1, .. })
    ));
}
