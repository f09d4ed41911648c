//! Reading a whole BAI2 stream into a file: each record in turn is read,
//! typed and fed to the converter, and the first record that fails decides
//! the error.

use vstd::prelude::*;
use crate::ast::convert::{is_run, no_error, outcome, step, ConvertError, Converter, ConverterOutput};
use crate::ast::parse::{record_error, record_parsed, ParseError, RecordError};
use crate::ast::{ParsedRecord, RawRecord, Record, RecordField};
use crate::calendar::TimeOfDay;
use crate::data::File;
use crate::parse::{
    eol_len, eol_len_exec, record, record_at, records_view, tag_exec, tag_of, LexError,
    RawRecordView,
};

verus! {

/// Why a stream could not be read into a file.
#[derive(Debug, Clone)]
pub enum ProcessError {
    /// A record could not be read.
    Parse(LexError),
    /// A field of the record at this index could not be typed.
    FieldParse { record: usize, err: ParseError<RecordField, RecordError> },
    /// The records ended before the file trailer.
    UnfinishedConversion,
    /// The records do not make a valid file.
    Conversion(ConvertError),
}

/// The record from `p` and where the next one starts: after the record's
/// line end, or at the end of the input.
pub open spec fn next_record(s: Seq<u8>, p: int) -> Option<(RawRecordView, int)> {
    match record_at(s, p) {
        Some((r, k)) => if k == s.len() {
            Some((r, k))
        } else if eol_len(s, k) > 0 && p < k < s.len() {
            Some((r, k + eol_len(s, k)))
        } else {
            None
        },
        None => None,
    }
}

/// The first `n` records of the input, and where the next one starts.
pub open spec fn file_prefix(s: Seq<u8>, n: nat) -> Option<(Seq<RawRecordView>, int)>
    decreases n,
{
    if n == 0 {
        Some((seq![], 0))
    } else {
        match file_prefix(s, (n - 1) as nat) {
            Some((rs, p)) => if p < s.len() {
                match next_record(s, p) {
                    Some((r, j)) => Some((rs.push(r), j)),
                    None => None,
                }
            } else {
                None
            },
            None => None,
        }
    }
}

/// `r` is what reading `s` gives, where `raws` are the records read, `ps`
/// the typed ones fed to a fresh converter along `cs` and `outs`: the first
/// record that cannot be read, typed or converted decides the error; a
/// stream read to its end gives the converter's last word.
pub open spec fn pipeline<'a>(
    s: Seq<u8>,
    end_of_day: TimeOfDay,
    raws: Seq<RawRecord<'a>>,
    ps: Seq<ParsedRecord<'a>>,
    cs: Seq<Converter>,
    outs: Seq<ConverterOutput>,
    r: Result<File, ProcessError>,
) -> bool {
    &&& ps.len() <= raws.len() <= ps.len() + 1
    &&& forall|j: int| 0 <= j < ps.len() ==> record_parsed(raws[j], ps[j])
    &&& forall|j: int| 0 <= j < ps.len() ==> (#[trigger] record_error(raws[j])) is None
    &&& file_prefix(s, raws.len()) matches Some((views, p)) && views == records_view(raws) && (
    if raws.len() == ps.len() + 1 {
        no_error(outs) && (record_error(raws.last()) matches Some(e) && (r matches Err(
            ProcessError::FieldParse { record, err },
        ) && record == ps.len() && err == e))
    } else if outs.len() > 0 && outs.last() is Error {
        no_error(outs.drop_last()) && (outs.last() matches ConverterOutput::Error(c) && r
            == Err::<File, ProcessError>(ProcessError::Conversion(c)))
    } else if p < s.len() {
        no_error(outs) && next_record(s, p) is None && (r matches Err(ProcessError::Parse(e))
            && e.offset == p && e.tag == tag_of(s, p))
    } else {
        no_error(outs) && r == process_result(outcome(outs))
    })
    &&& is_run(cs, ps, outs)
    &&& cs[0].is_fresh(end_of_day)
}

/// What the last output of the converter makes of the stream.
pub open spec fn process_result(o: ConverterOutput) -> Result<File, ProcessError> {
    match o {
        ConverterOutput::Complete(f) => Ok(f),
        ConverterOutput::Error(e) => Err(ProcessError::Conversion(e)),
        _ => Err(ProcessError::UnfinishedConversion),
    }
}

impl File {
    /// Reads a BAI2 stream into a file, record by record: each record is
    /// read, typed and fed to the converter before the next one is read,
    /// and the first that fails gives the error. The time 9999 stands for
    /// `end_of_day`.
    pub fn process<'a>(bytes: &'a [u8], end_of_day: TimeOfDay) -> (r: Result<File, ProcessError>)
        ensures
            exists|
                raws: Seq<RawRecord<'a>>,
                ps: Seq<ParsedRecord<'a>>,
                cs: Seq<Converter>,
                outs: Seq<ConverterOutput>,
            | #[trigger] pipeline(bytes@, end_of_day, raws, ps, cs, outs, r),
    {
        let mut converter = Converter::new(end_of_day);
        let mut acc = ConverterOutput::Active;
        let ghost mut raws: Seq<RawRecord<'a>> = seq![];
        let ghost mut ps: Seq<ParsedRecord<'a>> = seq![];
        let ghost mut cs: Seq<Converter> = seq![converter];
        let ghost mut outs: Seq<ConverterOutput> = seq![];
        let mut pos: usize = 0;
        let mut count: usize = 0;
        assert(records_view(raws) =~= seq![]);
        while pos < bytes.len()
            invariant
                pos <= bytes@.len(),
                count <= pos,
                count == raws.len(),
                raws.len() == ps.len(),
                file_prefix(bytes@, raws.len()) == Some((records_view(raws), pos as int)),
                forall|j: int| 0 <= j < ps.len() ==> record_parsed(raws[j], ps[j]),
                forall|j: int| 0 <= j < ps.len() ==> (#[trigger] record_error(raws[j])) is None,
                is_run(cs, ps, outs),
                cs[0].is_fresh(end_of_day),
                cs.last() == converter,
                converter.wf(),
                acc == outcome(outs),
                no_error(outs),
            decreases bytes@.len() - pos,
        {
            let (rec, k) = match record(bytes, pos) {
                Some(x) => x,
                None => {
                    let r = Err(ProcessError::Parse(LexError { offset: pos, tag: tag_exec(bytes, pos) }));
                    assert(pipeline(bytes@, end_of_day, raws, ps, cs, outs, r));
                    return r;
                },
            };
            let next = if k == bytes.len() {
                k
            } else {
                let n = eol_len_exec(bytes, k);
                if n == 0 {
                    let r = Err(ProcessError::Parse(LexError { offset: pos, tag: tag_exec(bytes, pos) }));
                    assert(pipeline(bytes@, end_of_day, raws, ps, cs, outs, r));
                    return r;
                }
                k + n
            };
            let ghost old_raws = raws;
            proof {
                raws = raws.push(rec);
                assert(records_view(raws) =~= records_view(old_raws).push(rec@));
                assert(raws.drop_last() == old_raws);
                assert(file_prefix(bytes@, raws.len()) == Some((records_view(raws), next as int)));
            }
            let p = match Record::parse(&rec) {
                Ok(p) => p,
                Err(e) => {
                    let r = Err(ProcessError::FieldParse { record: count, err: e });
                    proof {
                        assert forall|j: int| 0 <= j < ps.len() implies record_parsed(raws[j], ps[j])
                            && (#[trigger] record_error(raws[j])) is None by {
                            assert(raws[j] == old_raws[j]);
                        }
                        assert(pipeline(bytes@, end_of_day, raws, ps, cs, outs, r));
                    }
                    return r;
                },
            };
            let ghost old_ps = ps;
            let ghost old_cs = cs;
            let ghost old_outs = outs;
            proof {
                ps = ps.push(p);
            }
            let out = converter.process(p);
            proof {
                cs = cs.push(converter);
                outs = outs.push(out);
                assert(outs.drop_last() == old_outs);
                assert forall|j: int| 0 <= j < ps.len() implies record_parsed(raws[j], ps[j])
                    && (#[trigger] record_error(raws[j])) is None by {
                    if j < old_ps.len() {
                        assert(raws[j] == old_raws[j]);
                        assert(ps[j] == old_ps[j]);
                    }
                }
                assert forall|j: int| 0 <= j < ps.len() implies #[trigger] step(
                    cs[j],
                    ps[j],
                    cs[j + 1],
                    outs[j],
                ) by {
                    if j < old_ps.len() {
                        assert(step(old_cs[j], old_ps[j], old_cs[j + 1], old_outs[j]));
                    }
                }
                assert(is_run(cs, ps, outs));
            }
            match out {
                ConverterOutput::Error(c) => {
                    let r = Err(ProcessError::Conversion(c));
                    assert(pipeline(bytes@, end_of_day, raws, ps, cs, outs, r));
                    return r;
                },
                ConverterOutput::Done => {},
                o => {
                    acc = o;
                },
            }
            proof {
                assert forall|j: int| 0 <= j < outs.len() implies !((#[trigger] outs[j]) is Error) by {
                    if j < outs.len() - 1 {
                        assert(outs[j] == outs.drop_last()[j]);
                    }
                }
            }
            pos = next;
            count = count + 1;
        }
        let r = match acc {
            ConverterOutput::Complete(f) => Ok(f),
            ConverterOutput::Error(e) => Err(ProcessError::Conversion(e)),
            _ => Err(ProcessError::UnfinishedConversion),
        };
        assert(pipeline(bytes@, end_of_day, raws, ps, cs, outs, r));
        r
    }
}

} // verus!
