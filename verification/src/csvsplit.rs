//! Splitting CSV text into records and fields: a single left-to-right scan
//! with standard double-quote handling, lenient towards the noise that the
//! exchange exports interleave with data rows.
//!
//! Records end at `\r` or `\n`; blank lines are skipped; a field that opens
//! with a double quote runs to the closing quote, with `""` standing for one
//! literal quote; a quote inside an unquoted field is literal.

use vstd::prelude::*;
use crate::chars::string_from_chars;

verus! {

/// Where the scanner stands inside the current field.
#[derive(Debug, Clone, Copy, PartialEq, Eq, Structural)]
pub enum CsvMode {
    /// At the start of a field, nothing consumed yet.
    FieldStart,
    /// Inside an unquoted field.
    Unquoted,
    /// Inside a quoted field.
    InQuotes,
    /// Just after a quote inside a quoted field.
    QuoteInQuotes,
}

/// The whole scanner state: mode, current field, fields of the current
/// record, and the finished records.
pub struct CsvState {
    pub mode: CsvMode,
    pub field: Seq<char>,
    pub row: Seq<Seq<char>>,
    pub rows: Seq<Seq<Seq<char>>>,
}

/// A record terminator character.
pub open spec fn is_newline(c: char) -> bool {
    c == '\n' || c == '\r'
}

/// The scanner before any input.
pub open spec fn csv_init() -> CsvState {
    CsvState { mode: CsvMode::FieldStart, field: Seq::empty(), row: Seq::empty(), rows: Seq::empty() }
}

/// Closes the current field.
pub open spec fn csv_end_field(st: CsvState) -> CsvState {
    CsvState {
        mode: CsvMode::FieldStart,
        field: Seq::empty(),
        row: st.row.push(st.field),
        rows: st.rows,
    }
}

/// Closes the current field and the current record.
pub open spec fn csv_end_row(st: CsvState) -> CsvState {
    CsvState {
        mode: CsvMode::FieldStart,
        field: Seq::empty(),
        row: Seq::empty(),
        rows: st.rows.push(st.row.push(st.field)),
    }
}

/// One scanner transition.
pub open spec fn csv_step(st: CsvState, c: char) -> CsvState {
    match st.mode {
        CsvMode::FieldStart => if c == '"' {
            CsvState { mode: CsvMode::InQuotes, ..st }
        } else if c == ',' {
            csv_end_field(st)
        } else if is_newline(c) {
            if st.row.len() == 0 {
                st
            } else {
                csv_end_row(st)
            }
        } else {
            CsvState { mode: CsvMode::Unquoted, field: st.field.push(c), ..st }
        },
        CsvMode::Unquoted => if c == ',' {
            csv_end_field(st)
        } else if is_newline(c) {
            csv_end_row(st)
        } else {
            CsvState { field: st.field.push(c), ..st }
        },
        CsvMode::InQuotes => if c == '"' {
            CsvState { mode: CsvMode::QuoteInQuotes, ..st }
        } else {
            CsvState { field: st.field.push(c), ..st }
        },
        CsvMode::QuoteInQuotes => if c == '"' {
            CsvState { mode: CsvMode::InQuotes, field: st.field.push('"'), ..st }
        } else if c == ',' {
            csv_end_field(st)
        } else if is_newline(c) {
            csv_end_row(st)
        } else {
            CsvState { mode: CsvMode::Unquoted, field: st.field.push(c), ..st }
        },
    }
}

/// The scanner state after consuming all of `s`.
pub open spec fn csv_scan(s: Seq<char>) -> CsvState
    decreases s.len(),
{
    if s.len() == 0 {
        csv_init()
    } else {
        csv_step(csv_scan(s.drop_last()), s.last())
    }
}

/// Flushes whatever the scanner still holds at end of input.
pub open spec fn csv_finish(st: CsvState) -> Seq<Seq<Seq<char>>> {
    match st.mode {
        CsvMode::FieldStart => if st.row.len() == 0 {
            st.rows
        } else {
            st.rows.push(st.row.push(Seq::empty()))
        },
        _ => st.rows.push(st.row.push(st.field)),
    }
}

/// The records of CSV text `s`, each a sequence of fields.
pub open spec fn csv_rows(s: Seq<char>) -> Seq<Seq<Seq<char>>> {
    csv_finish(csv_scan(s))
}

/// Splits CSV text into its records.
pub fn split_csv(content: &Vec<char>) -> (r: Vec<Vec<String>>)
    ensures
        r.deep_view() == csv_rows(content@),
{
    let mut mode = CsvMode::FieldStart;
    let mut field: Vec<char> = Vec::new();
    let mut row: Vec<String> = Vec::new();
    let mut rows: Vec<Vec<String>> = Vec::new();
    let mut i: usize = 0;
    proof {
        assert(row.deep_view() =~= csv_init().row);
        assert(rows.deep_view() =~~= csv_init().rows);
        assert(content@.take(0) =~= Seq::<char>::empty());
    }
    while i < content.len()
        invariant
            i <= content@.len(),
            mode == csv_scan(content@.take(i as int)).mode,
            field@ == csv_scan(content@.take(i as int)).field,
            row.deep_view() == csv_scan(content@.take(i as int)).row,
            rows.deep_view() == csv_scan(content@.take(i as int)).rows,
        decreases content@.len() - i,
    {
        proof {
            assert(content@.take(i + 1 as int).drop_last() =~= content@.take(i as int));
            assert(content@.take(i + 1 as int).last() == content@[i as int]);
        }
        let ghost st = csv_scan(content@.take(i as int));
        let ghost st2 = csv_scan(content@.take(i + 1 as int));
        proof {
            assert(st2 == csv_step(st, content@[i as int]));
        }
        let c = content[i];
        match mode {
            CsvMode::FieldStart => {
                if c == '"' {
                    mode = CsvMode::InQuotes;
                } else if c == ',' {
                    row.push(string_from_chars(&field));
                    field = Vec::new();
                    proof {
                        assert(row.deep_view() =~= st.row.push(st.field));
                    }
                } else if c == '\n' || c == '\r' {
                    if row.len() > 0 {
                        row.push(string_from_chars(&field));
                        rows.push(row);
                        row = Vec::new();
                        field = Vec::new();
                        proof {
                            assert(rows.deep_view() =~~= st.rows.push(st.row.push(st.field)));
                            assert(row.deep_view() =~= Seq::<Seq<char>>::empty());
                        }
                    } else {
                        proof {
                            assert(st.row.len() == 0);
                        }
                    }
                } else {
                    field.push(c);
                    mode = CsvMode::Unquoted;
                }
            },
            CsvMode::Unquoted => {
                if c == ',' {
                    row.push(string_from_chars(&field));
                    field = Vec::new();
                    mode = CsvMode::FieldStart;
                    proof {
                        assert(row.deep_view() =~= st.row.push(st.field));
                    }
                } else if c == '\n' || c == '\r' {
                    row.push(string_from_chars(&field));
                    rows.push(row);
                    row = Vec::new();
                    field = Vec::new();
                    mode = CsvMode::FieldStart;
                    proof {
                        assert(rows.deep_view() =~~= st.rows.push(st.row.push(st.field)));
                        assert(row.deep_view() =~= Seq::<Seq<char>>::empty());
                    }
                } else {
                    field.push(c);
                }
            },
            CsvMode::InQuotes => {
                if c == '"' {
                    mode = CsvMode::QuoteInQuotes;
                } else {
                    field.push(c);
                }
            },
            CsvMode::QuoteInQuotes => {
                if c == '"' {
                    field.push('"');
                    mode = CsvMode::InQuotes;
                } else if c == ',' {
                    row.push(string_from_chars(&field));
                    field = Vec::new();
                    mode = CsvMode::FieldStart;
                    proof {
                        assert(row.deep_view() =~= st.row.push(st.field));
                    }
                } else if c == '\n' || c == '\r' {
                    row.push(string_from_chars(&field));
                    rows.push(row);
                    row = Vec::new();
                    field = Vec::new();
                    mode = CsvMode::FieldStart;
                    proof {
                        assert(rows.deep_view() =~~= st.rows.push(st.row.push(st.field)));
                        assert(row.deep_view() =~= Seq::<Seq<char>>::empty());
                    }
                } else {
                    field.push(c);
                    mode = CsvMode::Unquoted;
                }
            },
        }
        i += 1;
    }
    proof {
        assert(content@.take(content@.len() as int) =~= content@);
    }
    let ghost stf = csv_scan(content@);
    match mode {
        CsvMode::FieldStart => {
            if row.len() > 0 {
                row.push(String::new());
                rows.push(row);
                proof {
                    assert(rows.deep_view() =~~= stf.rows.push(stf.row.push(Seq::<char>::empty())));
                }
                rows
            } else {
                rows
            }
        },
        _ => {
            row.push(string_from_chars(&field));
            rows.push(row);
            proof {
                assert(rows.deep_view() =~~= stf.rows.push(stf.row.push(stf.field)));
            }
            rows
        },
    }
}

} // verus!
