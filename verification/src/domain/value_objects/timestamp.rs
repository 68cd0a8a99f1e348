//! Timestamps in ISO 8601 UTC, in the form SQLite's `strftime` writes:
//! `YYYY-MM-DDTHH:MM:SS.ffffffZ`.

use vstd::prelude::*;
use crate::text::{
    fixed_digits, lemma_decimal_len_at_least, lemma_decimal_len_bound, lemma_fixed_digits_order,
    lemma_text_less_concat, lemma_zero_padded_fixed, lemma_zero_padded_len, pow10, push_char,
    push_sign_padded, push_zero_padded, sign_padded, text_less, zero_padded,
};

verus! {

/// The calendar and clock fields of an instant in UTC.
#[derive(Debug, Clone, Copy, PartialEq, Eq)]
pub struct UtcParts {
    pub year: i32,
    pub month: u8,
    pub day: u8,
    pub hour: u8,
    pub minute: u8,
    pub second: u8,
    pub microsecond: u32,
}

impl UtcParts {
    /// The ranges of the fields of a `time::OffsetDateTime`: the years that
    /// the crate's `Date` holds without its `large-dates` feature (which
    /// this build does not enable), and the documented clock ranges.
    pub open spec fn well_formed(self) -> bool {
        &&& -9999 <= self.year <= 9999
        &&& 1 <= self.month <= 12
        &&& 1 <= self.day <= 31
        &&& self.hour < 24
        &&& self.minute < 60
        &&& self.second < 60
        &&& self.microsecond < 1_000_000
    }
}

/// The text of an instant: `{:04}-{:02}-{:02}T{:02}:{:02}:{:02}.{:06}Z`
/// over year, month, day, hour, minute, second and microsecond.
pub open spec fn timestamp_text(p: UtcParts) -> Seq<char> {
    sign_padded(p.year as int, 4) + (seq!['-'] + text_from_month(p))
}

/// The text of an instant from its month on: `MM-DDTHH:MM:SS.ffffffZ`.
pub open spec fn text_from_month(p: UtcParts) -> Seq<char> {
    zero_padded(p.month as nat, 2) + (seq!['-'] + text_from_day(p))
}

/// The text of an instant from its day on: `DDTHH:MM:SS.ffffffZ`.
pub open spec fn text_from_day(p: UtcParts) -> Seq<char> {
    zero_padded(p.day as nat, 2) + (seq!['T'] + text_from_hour(p))
}

/// The text of an instant from its hour on: `HH:MM:SS.ffffffZ`.
pub open spec fn text_from_hour(p: UtcParts) -> Seq<char> {
    zero_padded(p.hour as nat, 2) + (seq![':'] + text_from_minute(p))
}

/// The text of an instant from its minute on: `MM:SS.ffffffZ`.
pub open spec fn text_from_minute(p: UtcParts) -> Seq<char> {
    zero_padded(p.minute as nat, 2) + (seq![':'] + text_from_second(p))
}

/// The text of an instant from its second on: `SS.ffffffZ`.
pub open spec fn text_from_second(p: UtcParts) -> Seq<char> {
    zero_padded(p.second as nat, 2) + (seq!['.'] + text_from_microsecond(p))
}

/// The text of an instant from its microsecond on: `ffffffZ`.
pub open spec fn text_from_microsecond(p: UtcParts) -> Seq<char> {
    zero_padded(p.microsecond as nat, 6) + seq!['Z']
}

/// `time::OffsetDateTime::now_utc()`, read field by field. The instant
/// depends on the clock: only the field ranges are stated (the years are
/// those of `Date` without `large-dates`: `MIN_YEAR` and `MAX_YEAR` in the
/// crate's `date.rs`).
#[verifier::external_body]
fn utc_now() -> (p: UtcParts)
    ensures
        p.well_formed(),
{
    let ts = time::OffsetDateTime::now_utc();
    UtcParts {
        year: ts.year(),
        month: ts.month() as u8,
        day: ts.day(),
        hour: ts.hour(),
        minute: ts.minute(),
        second: ts.second(),
        microsecond: ts.microsecond(),
    }
}

/// A zero-padded field, a separator, then the text that follows them.
fn field_then(n: u64, width: usize, sep: char, rest: String) -> (t: String)
    ensures
        t@ == zero_padded(n as nat, width as nat) + (seq![sep] + rest@),
{
    let mut t = String::new();
    push_zero_padded(&mut t, n, width);
    push_char(&mut t, sep);
    t.append(rest.as_str());
    proof {
        assert(t@ =~= zero_padded(n as nat, width as nat) + (seq![sep] + rest@));
    }
    t
}

/// Renders an instant as `YYYY-MM-DDTHH:MM:SS.ffffffZ`.
pub fn format_utc(p: &UtcParts) -> (s: String)
    ensures
        s@ == timestamp_text(*p),
{
    let mut micro = String::new();
    push_zero_padded(&mut micro, p.microsecond as u64, 6);
    push_char(&mut micro, 'Z');
    let second = field_then(p.second as u64, 2, '.', micro);
    let minute = field_then(p.minute as u64, 2, ':', second);
    let hour = field_then(p.hour as u64, 2, ':', minute);
    let day = field_then(p.day as u64, 2, 'T', hour);
    let month = field_then(p.month as u64, 2, '-', day);
    let mut s = String::new();
    push_sign_padded(&mut s, p.year as i64, 4);
    push_char(&mut s, '-');
    s.append(month.as_str());
    proof {
        assert(s@ =~= timestamp_text(*p));
    }
    s
}

/// The current instant in UTC, in the format SQLite's `strftime` uses
/// (`%Y-%m-%dT%H:%M:%fZ` with microseconds).
pub fn now() -> (s: String)
    ensures
        exists|p: UtcParts| p.well_formed() && s@ == timestamp_text(p),
        s@.last() == 'Z',
        s@.len() == 27 || s@.len() == 28,
{
    let p = utc_now();
    let s = format_utc(&p);
    proof {
        lemma_timestamp_len(p);
    }
    s
}

/// The length of a timestamp: 27 characters for the years -999 to 9999,
/// 28 for the years -9999 to -1000.
pub proof fn lemma_timestamp_len(p: UtcParts)
    requires
        p.well_formed(),
    ensures
        timestamp_text(p).len() == 27 || timestamp_text(p).len() == 28,
        -999 <= p.year <= 9999 <==> timestamp_text(p).len() == 27,
        timestamp_text(p).last() == 'Z',
{
    reveal_with_fuel(pow10, 7);
    lemma_zero_padded_len(p.month as nat, 2);
    lemma_zero_padded_len(p.day as nat, 2);
    lemma_zero_padded_len(p.hour as nat, 2);
    lemma_zero_padded_len(p.minute as nat, 2);
    lemma_zero_padded_len(p.second as nat, 2);
    lemma_zero_padded_len(p.microsecond as nat, 6);
    if 0 <= p.year <= 9999 {
        lemma_zero_padded_len(p.year as nat, 4);
    } else if -999 <= p.year < 0 {
        lemma_zero_padded_len((-p.year) as nat, 3);
    } else {
        assert(1000 <= -p.year <= 9999);
        lemma_zero_padded_len((-p.year) as nat, 4);
        lemma_decimal_len_bound((-p.year) as nat, 4);
        lemma_decimal_len_at_least((-p.year) as nat, 3);
    }
}

/// Chronological order of two instants, by their UTC fields from the year
/// down to the microsecond.
pub open spec fn chrono_less(p: UtcParts, q: UtcParts) -> bool {
    if p.year != q.year {
        p.year < q.year
    } else if p.month != q.month {
        p.month < q.month
    } else if p.day != q.day {
        p.day < q.day
    } else if p.hour != q.hour {
        p.hour < q.hour
    } else if p.minute != q.minute {
        p.minute < q.minute
    } else if p.second != q.second {
        p.second < q.second
    } else {
        p.microsecond < q.microsecond
    }
}

/// The text of an instant with a four-digit year, field after field: from
/// the microseconds on.
spec fn from_microsecond(p: UtcParts) -> Seq<char> {
    fixed_digits(p.microsecond as nat, 6) + seq!['Z']
}

spec fn from_second(p: UtcParts) -> Seq<char> {
    fixed_digits(p.second as nat, 2) + (seq!['.'] + from_microsecond(p))
}

spec fn from_minute(p: UtcParts) -> Seq<char> {
    fixed_digits(p.minute as nat, 2) + (seq![':'] + from_second(p))
}

spec fn from_hour(p: UtcParts) -> Seq<char> {
    fixed_digits(p.hour as nat, 2) + (seq![':'] + from_minute(p))
}

spec fn from_day(p: UtcParts) -> Seq<char> {
    fixed_digits(p.day as nat, 2) + (seq!['T'] + from_hour(p))
}

spec fn from_month(p: UtcParts) -> Seq<char> {
    fixed_digits(p.month as nat, 2) + (seq!['-'] + from_day(p))
}

spec fn fixed_text(p: UtcParts) -> Seq<char> {
    fixed_digits(p.year as nat, 4) + (seq!['-'] + from_month(p))
}

proof fn lemma_fixed_text(p: UtcParts)
    requires
        p.well_formed(),
        0 <= p.year <= 9999,
    ensures
        timestamp_text(p) == fixed_text(p),
{
    reveal_with_fuel(pow10, 7);
    lemma_zero_padded_fixed(p.year as nat, 4);
    lemma_zero_padded_fixed(p.month as nat, 2);
    lemma_zero_padded_fixed(p.day as nat, 2);
    lemma_zero_padded_fixed(p.hour as nat, 2);
    lemma_zero_padded_fixed(p.minute as nat, 2);
    lemma_zero_padded_fixed(p.second as nat, 2);
    lemma_zero_padded_fixed(p.microsecond as nat, 6);
    assert(text_from_microsecond(p) == from_microsecond(p));
    assert(text_from_second(p) == from_second(p));
    assert(text_from_minute(p) == from_minute(p));
    assert(text_from_hour(p) == from_hour(p));
    assert(text_from_day(p) == from_day(p));
    assert(text_from_month(p) == from_month(p));
    assert(sign_padded(p.year as int, 4) == fixed_digits(p.year as nat, 4));
}

/// Texts that start with the same character compare as their rests.
proof fn lemma_same_separator(c: char, r1: Seq<char>, r2: Seq<char>)
    ensures
        text_less(seq![c] + r1, seq![c] + r2) <==> text_less(r1, r2),
        (seq![c] + r1 == seq![c] + r2) <==> r1 == r2,
{
    lemma_text_less_concat(seq![c], r1, seq![c], r2);
    reveal_with_fuel(text_less, 2);
    assert(seq![c].drop_first() =~= Seq::<char>::empty());
}

/// A field of `w` digits followed by the rest: the field decides, and on a
/// tie the rest does.
proof fn lemma_field(a: nat, b: nat, w: nat, r1: Seq<char>, r2: Seq<char>)
    requires
        a < pow10(w),
        b < pow10(w),
    ensures
        text_less(fixed_digits(a, w) + r1, fixed_digits(b, w) + r2) <==> (a < b || (a == b
            && text_less(r1, r2))),
        (fixed_digits(a, w) + r1 == fixed_digits(b, w) + r2) <==> (a == b && r1 == r2),
{
    lemma_fixed_digits_order(a, b, w);
    lemma_text_less_concat(fixed_digits(a, w), r1, fixed_digits(b, w), r2);
}

/// Timestamps with four-digit years sort as text (as SQLite orders the
/// `last_copied_at` column) exactly as the instants they denote sort in
/// time, and two such timestamps are the same text only for the same
/// instant. (A negative or five-digit year breaks both.)
pub proof fn law_timestamps_sort_chronologically(p: UtcParts, q: UtcParts)
    requires
        p.well_formed(),
        q.well_formed(),
        0 <= p.year <= 9999,
        0 <= q.year <= 9999,
    ensures
        text_less(timestamp_text(p), timestamp_text(q)) <==> chrono_less(p, q),
        timestamp_text(p) == timestamp_text(q) <==> p == q,
{
    reveal_with_fuel(pow10, 7);
    lemma_fixed_text(p);
    lemma_fixed_text(q);
    let zp = seq!['Z'];
    lemma_field(p.microsecond as nat, q.microsecond as nat, 6, zp, zp);
    assert(!text_less(zp, zp)) by {
        reveal_with_fuel(text_less, 2);
        assert(zp.drop_first() =~= Seq::<char>::empty());
    }
    lemma_same_separator('.', from_microsecond(p), from_microsecond(q));
    lemma_field(
        p.second as nat,
        q.second as nat,
        2,
        seq!['.'] + from_microsecond(p),
        seq!['.'] + from_microsecond(q),
    );
    lemma_same_separator(':', from_second(p), from_second(q));
    lemma_field(p.minute as nat, q.minute as nat, 2, seq![':'] + from_second(p), seq![':'] + from_second(q));
    lemma_same_separator(':', from_minute(p), from_minute(q));
    lemma_field(p.hour as nat, q.hour as nat, 2, seq![':'] + from_minute(p), seq![':'] + from_minute(q));
    lemma_same_separator('T', from_hour(p), from_hour(q));
    lemma_field(p.day as nat, q.day as nat, 2, seq!['T'] + from_hour(p), seq!['T'] + from_hour(q));
    lemma_same_separator('-', from_day(p), from_day(q));
    lemma_field(p.month as nat, q.month as nat, 2, seq!['-'] + from_day(p), seq!['-'] + from_day(q));
    lemma_same_separator('-', from_month(p), from_month(q));
    lemma_field(p.year as nat, q.year as nat, 4, seq!['-'] + from_month(p), seq!['-'] + from_month(q));
}

} // verus!
