//! Calendar timestamps as plain values, and their two textual forms.
use vstd::prelude::*;
use crate::text::{digit_char, lemma_zero_padded_len, push_char, push_zero_padded, zero_padded};

verus! {

/// A local date and time with its offset from UTC.
#[derive(Debug, Clone, Copy, PartialEq, Eq, Structural)]
pub struct Timestamp {
    pub year: u16,
    pub month: u8,
    pub day: u8,
    pub hour: u8,
    pub minute: u8,
    pub second: u8,
    pub microsecond: u32,
    /// Minutes east of UTC.
    pub offset_minutes: i16,
}

impl Timestamp {
    /// Every field lies in the range its textual form can show.
    pub open spec fn wf(&self) -> bool {
        &&& self.year <= 9999
        &&& 1 <= self.month <= 12
        &&& 1 <= self.day <= 31
        &&& self.hour <= 23
        &&& self.minute <= 59
        &&& self.second <= 60
        &&& self.microsecond <= 999_999
        &&& -1439 <= self.offset_minutes <= 1439
    }
}

impl Timestamp {
    /// The timestamp of the given fields, if each lies in its range.
    pub fn new(
        year: u16,
        month: u8,
        day: u8,
        hour: u8,
        minute: u8,
        second: u8,
        microsecond: u32,
        offset_minutes: i16,
    ) -> (r: Option<Timestamp>)
        ensures
            r matches Some(t) ==> t.wf() && t == (Timestamp {
                year,
                month,
                day,
                hour,
                minute,
                second,
                microsecond,
                offset_minutes,
            }),
            r is None <==> !(Timestamp {
                year,
                month,
                day,
                hour,
                minute,
                second,
                microsecond,
                offset_minutes,
            }).wf(),
    {
        let t = Timestamp { year, month, day, hour, minute, second, microsecond, offset_minutes };
        if year <= 9999 && 1 <= month && month <= 12 && 1 <= day && day <= 31 && hour <= 23
            && minute <= 59 && second <= 60 && microsecond <= 999_999 && -1439 <= offset_minutes
            && offset_minutes <= 1439 {
            Some(t)
        } else {
            None
        }
    }
}

/// The three-letter English name of a month (1 is January).
pub open spec fn month_abbrev(month: nat) -> Seq<char> {
    if month == 1 {
        seq!['J', 'a', 'n']
    } else if month == 2 {
        seq!['F', 'e', 'b']
    } else if month == 3 {
        seq!['M', 'a', 'r']
    } else if month == 4 {
        seq!['A', 'p', 'r']
    } else if month == 5 {
        seq!['M', 'a', 'y']
    } else if month == 6 {
        seq!['J', 'u', 'n']
    } else if month == 7 {
        seq!['J', 'u', 'l']
    } else if month == 8 {
        seq!['A', 'u', 'g']
    } else if month == 9 {
        seq!['S', 'e', 'p']
    } else if month == 10 {
        seq!['O', 'c', 't']
    } else if month == 11 {
        seq!['N', 'o', 'v']
    } else {
        seq!['D', 'e', 'c']
    }
}

/// The day of the month in two columns, padded with a space.
pub open spec fn space_padded_day(day: nat) -> Seq<char> {
    if day < 10 {
        seq![' ', digit_char(day)]
    } else {
        zero_padded(day, 2)
    }
}

/// `Mmm dd hh:mm:ss`, the timestamp of the legacy format.
pub open spec fn legacy_text(t: Timestamp) -> Seq<char> {
    month_abbrev(t.month as nat) + seq![' '] + space_padded_day(t.day as nat) + seq![' ']
        + zero_padded(t.hour as nat, 2) + seq![':'] + zero_padded(t.minute as nat, 2) + seq![':']
        + zero_padded(t.second as nat, 2)
}

/// The magnitude of an offset in minutes.
pub open spec fn offset_magnitude(offset: int) -> nat {
    if offset < 0 {
        (-offset) as nat
    } else {
        offset as nat
    }
}

/// `+hh:mm` or `-hh:mm`.
pub open spec fn offset_text(offset: int) -> Seq<char> {
    seq![if offset < 0 { '-' } else { '+' }] + zero_padded(offset_magnitude(offset) / 60, 2)
        + seq![':'] + zero_padded(offset_magnitude(offset) % 60, 2)
}

/// `YYYY-MM-DD`.
pub open spec fn date_text(t: Timestamp) -> Seq<char> {
    zero_padded(t.year as nat, 4) + seq!['-'] + zero_padded(t.month as nat, 2) + seq!['-']
        + zero_padded(t.day as nat, 2)
}

/// `hh:mm:ss.ffffff`.
pub open spec fn time_text(t: Timestamp) -> Seq<char> {
    zero_padded(t.hour as nat, 2) + seq![':'] + zero_padded(t.minute as nat, 2) + seq![':']
        + zero_padded(t.second as nat, 2) + seq!['.'] + zero_padded(t.microsecond as nat, 6)
}

/// `YYYY-MM-DDThh:mm:ss.ffffff+hh:mm`, the timestamp of the modern format.
#[verifier::opaque]
pub open spec fn rfc3339_text(t: Timestamp) -> Seq<char> {
    date_text(t) + seq!['T'] + time_text(t) + offset_text(t.offset_minutes as int)
}

fn month_letters(month: u8) -> (r: (char, char, char))
    ensures
        seq![r.0, r.1, r.2] == month_abbrev(month as nat),
{
    if month == 1 {
        ('J', 'a', 'n')
    } else if month == 2 {
        ('F', 'e', 'b')
    } else if month == 3 {
        ('M', 'a', 'r')
    } else if month == 4 {
        ('A', 'p', 'r')
    } else if month == 5 {
        ('M', 'a', 'y')
    } else if month == 6 {
        ('J', 'u', 'n')
    } else if month == 7 {
        ('J', 'u', 'l')
    } else if month == 8 {
        ('A', 'u', 'g')
    } else if month == 9 {
        ('S', 'e', 'p')
    } else if month == 10 {
        ('O', 'c', 't')
    } else if month == 11 {
        ('N', 'o', 'v')
    } else {
        ('D', 'e', 'c')
    }
}

/// Appends the legacy timestamp `Mmm dd hh:mm:ss`.
pub fn push_legacy_timestamp(out: &mut String, t: &Timestamp)
    ensures
        final(out)@ == old(out)@ + legacy_text(*t),
{
    let (a, b, c) = month_letters(t.month);
    push_char(out, a);
    push_char(out, b);
    push_char(out, c);
    push_char(out, ' ');
    if t.day < 10 {
        push_char(out, ' ');
        push_zero_padded(out, t.day as u32, 1);
        assert(zero_padded((t.day / 10) as nat, 0) =~= Seq::<char>::empty());
        assert(zero_padded(t.day as nat, 1) =~= seq![digit_char(t.day as nat)]);
    } else {
        push_zero_padded(out, t.day as u32, 2);
    }
    push_char(out, ' ');
    push_zero_padded(out, t.hour as u32, 2);
    push_char(out, ':');
    push_zero_padded(out, t.minute as u32, 2);
    push_char(out, ':');
    push_zero_padded(out, t.second as u32, 2);
    assert(out@ =~= old(out)@ + legacy_text(*t));
}

fn push_date(out: &mut String, t: &Timestamp)
    ensures
        final(out)@ == old(out)@ + date_text(*t),
{
    push_zero_padded(out, t.year as u32, 4);
    push_char(out, '-');
    push_zero_padded(out, t.month as u32, 2);
    push_char(out, '-');
    push_zero_padded(out, t.day as u32, 2);
    assert(out@ =~= old(out)@ + date_text(*t));
}

fn push_time(out: &mut String, t: &Timestamp)
    ensures
        final(out)@ == old(out)@ + time_text(*t),
{
    push_zero_padded(out, t.hour as u32, 2);
    push_char(out, ':');
    push_zero_padded(out, t.minute as u32, 2);
    push_char(out, ':');
    push_zero_padded(out, t.second as u32, 2);
    push_char(out, '.');
    push_zero_padded(out, t.microsecond, 6);
    assert(out@ =~= old(out)@ + time_text(*t));
}

fn push_offset(out: &mut String, offset: i16)
    ensures
        final(out)@ == old(out)@ + offset_text(offset as int),
{
    let magnitude: u32 = if offset < 0 {
        push_char(out, '-');
        (-(offset as i32)) as u32
    } else {
        push_char(out, '+');
        offset as u32
    };
    assert(magnitude as nat == offset_magnitude(offset as int));
    push_zero_padded(out, magnitude / 60, 2);
    push_char(out, ':');
    push_zero_padded(out, magnitude % 60, 2);
    assert(out@ =~= old(out)@ + offset_text(offset as int));
}

/// Appends the modern timestamp `YYYY-MM-DDThh:mm:ss.ffffff+hh:mm`.
pub fn push_rfc3339_timestamp(out: &mut String, t: &Timestamp)
    ensures
        final(out)@ == old(out)@ + rfc3339_text(*t),
{
    push_date(out, t);
    push_char(out, 'T');
    push_time(out, t);
    push_offset(out, t.offset_minutes);
    reveal(rfc3339_text);
    assert(out@ =~= old(out)@ + rfc3339_text(*t));
}

/// Both timestamp forms have a fixed width: 15 characters for the legacy
/// form, 32 for the modern one.
pub proof fn lemma_timestamp_widths(t: Timestamp)
    ensures
        legacy_text(t).len() == 15,
        rfc3339_text(t).len() == 32,
{
    reveal(rfc3339_text);
    lemma_zero_padded_len(t.year as nat, 4);
    lemma_zero_padded_len(t.month as nat, 2);
    lemma_zero_padded_len(t.day as nat, 2);
    lemma_zero_padded_len(t.hour as nat, 2);
    lemma_zero_padded_len(t.minute as nat, 2);
    lemma_zero_padded_len(t.second as nat, 2);
    lemma_zero_padded_len(t.microsecond as nat, 6);
    let m = offset_magnitude(t.offset_minutes as int);
    lemma_zero_padded_len(m / 60, 2);
    lemma_zero_padded_len(m % 60, 2);
}

} // verus!
