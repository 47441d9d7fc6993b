use vstd::prelude::*;

use crate::error::ErrorCode;
use vstd::string::StringSliceAdditionalSpecFns;

verus! {

/// Lowest accepted day number: the date 0001-01-01.
pub const DATE_MIN_DAYS: i64 = -719162;

/// Highest accepted day number: the date 9999-12-31.
pub const DATE_MAX_DAYS: i64 = 2932896;

/// The calendar date, written `YYYY-MM-DD`, lying `days` days from the
/// epoch 1970-01-01 of the proleptic Gregorian calendar.
pub uninterp spec fn date_str_of(days: int) -> Seq<char>;

/// Relies on chrono's `NaiveDate`: day arithmetic from the epoch and
/// the `%Y-%m-%d` format, a function of the day number alone. Within
/// the accepted range the year has exactly four digits, so the text is
/// ten ASCII characters with dashes after the year and the month.
#[verifier::external_body]
fn format_days(days: i64) -> (r: String)
    requires
        DATE_MIN_DAYS <= days <= DATE_MAX_DAYS,
    ensures
        r@ == date_str_of(days as int),
        r@.len() == 10,
        r@[4] == '-',
        r@[7] == '-',
        vstd::string::string_is_ascii(&r),
{
    let date = chrono::NaiveDate::from_ymd_opt(1970, 1, 1)
        .and_then(|d| d.checked_add_signed(chrono::Duration::days(days)))
        .expect("day number within the accepted range");
    date.format("%Y-%m-%d").to_string()
}

/// Format one day-number value as its calendar date.
pub fn v_to_string(v: &i64) -> (r: String)
    requires
        DATE_MIN_DAYS <= *v <= DATE_MAX_DAYS,
    ensures
        r@ == date_str_of(*v as int),
        r@.len() == 10,
        vstd::string::string_is_ascii(&r),
{
    format_days(*v)
}

/// The bytes of an all-ASCII text, one byte per character.
pub open spec fn ascii_bytes(s: Seq<char>) -> Seq<u8> {
    Seq::new(s.len(), |i: int| s[i] as u8)
}

/// View an ASCII string as its bytes.
fn str_ascii_bytes(s: &str) -> (r: &[u8])
    requires
        vstd::string::is_ascii(s),
    ensures
        r@ == ascii_bytes(s@),
{
    proof {
        vstd::string::is_ascii_spec_bytes(s);
        assert(s.spec_bytes() =~= ascii_bytes(s@));
    }
    s.as_bytes()
}

/// The output-format settings the field writers consult: the quote
/// characters for plain and for nested contexts.
#[derive(Debug, Clone, Copy, PartialEq, Eq, Structural)]
pub struct FormatSettings {
    pub quote_char: u8,
    pub nested_quote_char: u8,
}

/// How one byte is escaped in quoted text output: the backslash, the
/// active quote character, newline, carriage return and tab become
/// two-character escapes; every other byte stands for itself.
pub open spec fn escape_byte(b: u8, q: u8) -> Seq<u8> {
    if b == 0x5c {
        seq![0x5cu8, 0x5cu8]
    } else if b == q {
        seq![0x5cu8, q]
    } else if b == 0x0a {
        seq![0x5cu8, 0x6eu8]
    } else if b == 0x0d {
        seq![0x5cu8, 0x72u8]
    } else if b == 0x09 {
        seq![0x5cu8, 0x74u8]
    } else {
        seq![b]
    }
}

/// A whole text escaped byte for byte.
pub open spec fn escaped_text(s: Seq<u8>, q: u8) -> Seq<u8>
    decreases s.len(),
{
    if s.len() == 0 {
        Seq::empty()
    } else {
        escaped_text(s.drop_last(), q) + escape_byte(s.last(), q)
    }
}

/// Append `data`, escaped against `quote`, to `buf`.
pub fn write_escaped_string(data: &[u8], buf: &mut Vec<u8>, quote: u8)
    ensures
        final(buf)@ == old(buf)@ + escaped_text(data@, quote),
{
    let ghost init = buf@;
    proof {
        assert(init + escaped_text(data@.take(0), quote) =~= init);
    }
    let mut i: usize = 0;
    while i < data.len()
        invariant
            i <= data@.len(),
            buf@ == init + escaped_text(data@.take(i as int), quote),
        decreases data@.len() - i,
    {
        let b = data[i];
        if b == 0x5c {
            buf.push(0x5c);
            buf.push(0x5c);
        } else if b == quote {
            buf.push(0x5c);
            buf.push(quote);
        } else if b == 0x0a {
            buf.push(0x5c);
            buf.push(0x6e);
        } else if b == 0x0d {
            buf.push(0x5c);
            buf.push(0x72);
        } else if b == 0x09 {
            buf.push(0x5c);
            buf.push(0x74);
        } else {
            buf.push(b);
        }
        proof {
            assert(data@.take(i as int + 1).drop_last() =~= data@.take(i as int));
            assert(data@.take(i as int + 1).last() == data@[i as int]);
            assert(buf@ =~= init + escaped_text(data@.take(i as int + 1), quote));
        }
        i = i + 1;
    }
    proof {
        assert(data@.take(data@.len() as int) =~= data@);
    }
}

/// A text quoted for CSV output: wrapped in the quote character, every
/// embedded quote doubled.
pub open spec fn csv_escaped(s: Seq<u8>, q: u8) -> Seq<u8>
    decreases s.len(),
{
    if s.len() == 0 {
        Seq::empty()
    } else {
        csv_escaped(s.drop_last(), q) + (if s.last() == q {
            seq![q, q]
        } else {
            seq![s.last()]
        })
    }
}

pub open spec fn csv_quoted(s: Seq<u8>, q: u8) -> Seq<u8> {
    seq![q] + csv_escaped(s, q) + seq![q]
}

/// Append `data` as one CSV field to `buf`.
pub fn write_csv_string(data: &[u8], buf: &mut Vec<u8>, quote: u8)
    ensures
        final(buf)@ == old(buf)@ + csv_quoted(data@, quote),
{
    let ghost init = buf@;
    buf.push(quote);
    proof {
        assert(buf@ + csv_escaped(data@.take(0), quote) =~= init + seq![quote]);
    }
    let ghost opened = buf@;
    let mut i: usize = 0;
    while i < data.len()
        invariant
            i <= data@.len(),
            opened == init + seq![quote],
            buf@ == opened + csv_escaped(data@.take(i as int), quote),
        decreases data@.len() - i,
    {
        let b = data[i];
        if b == quote {
            buf.push(quote);
            buf.push(quote);
        } else {
            buf.push(b);
        }
        proof {
            assert(data@.take(i as int + 1).drop_last() =~= data@.take(i as int));
            assert(buf@ =~= opened + csv_escaped(data@.take(i as int + 1), quote));
        }
        i = i + 1;
    }
    buf.push(quote);
    proof {
        assert(data@.take(data@.len() as int) =~= data@);
        assert(buf@ =~= init + csv_quoted(data@, quote));
    }
}

/// How one byte is escaped inside a JSON string: the double quote, the
/// backslash and the common control characters become two-character
/// escapes; every other byte stands for itself.
pub open spec fn json_escape_byte(b: u8) -> Seq<u8> {
    if b == 0x22 {
        seq![0x5cu8, 0x22u8]
    } else if b == 0x5c {
        seq![0x5cu8, 0x5cu8]
    } else if b == 0x0a {
        seq![0x5cu8, 0x6eu8]
    } else if b == 0x0d {
        seq![0x5cu8, 0x72u8]
    } else if b == 0x09 {
        seq![0x5cu8, 0x74u8]
    } else if b == 0x08 {
        seq![0x5cu8, 0x62u8]
    } else if b == 0x0c {
        seq![0x5cu8, 0x66u8]
    } else {
        seq![b]
    }
}

pub open spec fn json_escaped(s: Seq<u8>) -> Seq<u8>
    decreases s.len(),
{
    if s.len() == 0 {
        Seq::empty()
    } else {
        json_escaped(s.drop_last()) + json_escape_byte(s.last())
    }
}

/// Append `data`, escaped for the inside of a JSON string, to `buf`.
pub fn write_json_string(data: &[u8], buf: &mut Vec<u8>)
    ensures
        final(buf)@ == old(buf)@ + json_escaped(data@),
{
    let ghost init = buf@;
    proof {
        assert(init + json_escaped(data@.take(0)) =~= init);
    }
    let mut i: usize = 0;
    while i < data.len()
        invariant
            i <= data@.len(),
            buf@ == init + json_escaped(data@.take(i as int)),
        decreases data@.len() - i,
    {
        let b = data[i];
        if b == 0x22 {
            buf.push(0x5c);
            buf.push(0x22);
        } else if b == 0x5c {
            buf.push(0x5c);
            buf.push(0x5c);
        } else if b == 0x0a {
            buf.push(0x5c);
            buf.push(0x6e);
        } else if b == 0x0d {
            buf.push(0x5c);
            buf.push(0x72);
        } else if b == 0x09 {
            buf.push(0x5c);
            buf.push(0x74);
        } else if b == 0x08 {
            buf.push(0x5c);
            buf.push(0x62);
        } else if b == 0x0c {
            buf.push(0x5c);
            buf.push(0x66);
        } else {
            buf.push(b);
        }
        proof {
            assert(data@.take(i as int + 1).drop_last() =~= data@.take(i as int));
            assert(buf@ =~= init + json_escaped(data@.take(i as int + 1)));
        }
        i = i + 1;
    }
    proof {
        assert(data@.take(data@.len() as int) =~= data@);
    }
}

/// Serializer for a column of dates, each held as its day number from
/// the epoch.
#[derive(Debug, PartialEq, Eq)]
pub struct DateSerializer {
    pub values: Vec<i64>,
}

impl DateSerializer {
    /// Every held day number lies in the range the formatter accepts.
    pub open spec fn wf(self) -> bool {
        forall|j: int|
            0 <= j < self.values@.len() ==> DATE_MIN_DAYS <= #[trigger] self.values@[j]
                <= DATE_MAX_DAYS
    }

    /// The date text of the value in one row.
    pub open spec fn row_text(self, row_index: int) -> Seq<char> {
        date_str_of(self.values@[row_index] as int)
    }

    /// Build from an already-typed column of day numbers; with the
    /// values in hand, nothing can fail.
    pub fn try_create(values: Vec<i64>) -> (r: Result<DateSerializer, ErrorCode>)
        requires
            forall|j: int|
                0 <= j < values@.len() ==> DATE_MIN_DAYS <= #[trigger] values@[j]
                    <= DATE_MAX_DAYS,
        ensures
            r matches Ok(s) && s.values == values && s.wf(),
    {
        Ok(DateSerializer { values })
    }

    /// The date text of one row.
    pub fn fmt(&self, row_index: usize) -> (r: String)
        requires
            self.wf(),
            row_index < self.values@.len(),
        ensures
            r@ == self.row_text(row_index as int),
            vstd::string::string_is_ascii(&r),
    {
        let v = self.values[row_index];
        v_to_string(&v)
    }

    /// Append one row to `buf` for quoted-values output: escaped with
    /// the nested quote character and wrapped in it when nested.
    pub fn write_field_values(
        &self,
        row_index: usize,
        buf: &mut Vec<u8>,
        format: &FormatSettings,
        in_nested: bool,
    )
        requires
            self.wf(),
            row_index < self.values@.len(),
        ensures
            final(buf)@ == old(buf)@ + (if in_nested {
                seq![format.nested_quote_char] + escaped_text(
                    ascii_bytes(self.row_text(row_index as int)),
                    format.nested_quote_char,
                ) + seq![format.nested_quote_char]
            } else {
                escaped_text(
                    ascii_bytes(self.row_text(row_index as int)),
                    format.nested_quote_char,
                )
            }),
    {
        let s = self.fmt(row_index);
        if in_nested {
            buf.push(format.nested_quote_char);
        }
        write_escaped_string(str_ascii_bytes(s.as_str()), buf, format.nested_quote_char);
        if in_nested {
            buf.push(format.nested_quote_char);
        }
    }

    /// Append one row to `buf` for TSV output: escaped with the plain
    /// quote character and wrapped in it when nested.
    pub fn write_field_tsv(
        &self,
        row_index: usize,
        buf: &mut Vec<u8>,
        format: &FormatSettings,
        in_nested: bool,
    )
        requires
            self.wf(),
            row_index < self.values@.len(),
        ensures
            final(buf)@ == old(buf)@ + (if in_nested {
                seq![format.quote_char] + escaped_text(
                    ascii_bytes(self.row_text(row_index as int)),
                    format.quote_char,
                ) + seq![format.quote_char]
            } else {
                escaped_text(ascii_bytes(self.row_text(row_index as int)), format.quote_char)
            }),
    {
        if in_nested {
            buf.push(format.quote_char);
        }
        let s = self.fmt(row_index);
        write_escaped_string(str_ascii_bytes(s.as_str()), buf, format.quote_char);
        if in_nested {
            buf.push(format.quote_char);
        }
    }

    /// Append one row to `buf` as a CSV field.
    pub fn write_field_csv(&self, row_index: usize, buf: &mut Vec<u8>, format: &FormatSettings)
        requires
            self.wf(),
            row_index < self.values@.len(),
        ensures
            final(buf)@ == old(buf)@ + csv_quoted(
                ascii_bytes(self.row_text(row_index as int)),
                format.quote_char,
            ),
    {
        let s = self.fmt(row_index);
        write_csv_string(str_ascii_bytes(s.as_str()), buf, format.quote_char);
    }

    /// Append one row to `buf` for JSON output, wrapped in double
    /// quotes when asked.
    pub fn write_field_json(
        &self,
        row_index: usize,
        buf: &mut Vec<u8>,
        format: &FormatSettings,
        quote: bool,
    )
        requires
            self.wf(),
            row_index < self.values@.len(),
        ensures
            final(buf)@ == old(buf)@ + (if quote {
                seq![0x22u8] + json_escaped(ascii_bytes(self.row_text(row_index as int)))
                    + seq![0x22u8]
            } else {
                json_escaped(ascii_bytes(self.row_text(row_index as int)))
            }),
    {
        let s = self.fmt(row_index);
        if quote {
            buf.push(0x22);
        }
        write_json_string(str_ascii_bytes(s.as_str()), buf);
        if quote {
            buf.push(0x22);
        }
    }

    /// The date text of every row, in order; the JSON value of a date
    /// is its text, so the surrounding program only wraps each string.
    pub fn serialize_json_values(&self, _format: &FormatSettings) -> (r: Result<
        Vec<String>,
        ErrorCode,
    >)
        requires
            self.wf(),
        ensures
            r matches Ok(texts) && texts@.len() == self.values@.len() && forall|j: int|
                0 <= j < texts@.len() ==> #[trigger] texts@[j]@ == self.row_text(j),
    {
        let mut result: Vec<String> = Vec::new();
        let mut i: usize = 0;
        while i < self.values.len()
            invariant
                self.wf(),
                i <= self.values@.len(),
                result@.len() == i,
                forall|j: int| 0 <= j < i ==> #[trigger] result@[j]@ == self.row_text(j),
            decreases self.values@.len() - i,
        {
            let s = self.fmt(i);
            result.push(s);
            i = i + 1;
        }
        Ok(result)
    }
}

} // verus!
