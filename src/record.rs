use vstd::prelude::*;
use vstd::string::*;

use crate::detail::{copy_text_or, email_of, AdvertDetail, text_or};

verus! {

pub open spec fn is_digit(c: char) -> bool {
    '0' <= c && c <= '9'
}

pub open spec fn all_digits(s: Seq<char>) -> bool {
    forall|i: int| 0 <= i < s.len() ==> is_digit(#[trigger] s[i])
}

/// The number that a string of decimal digits denotes.
pub open spec fn digits_value(s: Seq<char>) -> nat
    decreases s.len(),
{
    if s.len() == 0 {
        0
    } else {
        digits_value(s.drop_last()) * 10 + (s.last() as nat - '0' as nat) as nat
    }
}

/// The digits of a decimal text, after an optional leading `+`.
pub open spec fn unsigned_digits(s: Seq<char>) -> Seq<char> {
    if s.len() > 0 && s[0] == '+' {
        s.subrange(1, s.len() as int)
    } else {
        s
    }
}

/// A `u32` written in decimal: an optional `+`, then at least one digit, and
/// a value that fits.
pub open spec fn decimal_u32(s: Seq<char>) -> Option<u32> {
    let d = unsigned_digits(s);
    if d.len() > 0 && all_digits(d) && digits_value(d) <= u32::MAX {
        Some(digits_value(d) as u32)
    } else {
        None
    }
}

proof fn lemma_prefix_value_le(s: Seq<char>, k: int)
    requires
        all_digits(s),
        0 <= k <= s.len(),
    ensures
        digits_value(s.subrange(0, k)) <= digits_value(s),
    decreases s.len(),
{
    if k < s.len() {
        let t = s.drop_last();
        assert(t.subrange(0, k) =~= s.subrange(0, k));
        lemma_prefix_value_le(t, k);
    } else {
        assert(s.subrange(0, k) =~= s);
    }
}

/// Reads a decimal `u32` the way `str::parse::<u32>` does.
pub fn parse_u32(s: &str) -> (r: Option<u32>)
    ensures
        r == decimal_u32(s@),
{
    let n = s.unicode_len();
    let mut i: usize = 0;
    if n > 0 && s.get_char(0) == '+' {
        i = 1;
    }
    let start = i;
    let ghost d = unsigned_digits(s@);
    assert(d =~= s@.subrange(start as int, n as int));
    if i == n {
        return None;
    }
    let mut acc: u64 = 0;
    while i < n
        invariant
            n == s@.len(),
            start <= i <= n,
            start < n,
            d =~= s@.subrange(start as int, n as int),
            d == unsigned_digits(s@),
            all_digits(d.subrange(0, i - start)),
            acc == digits_value(d.subrange(0, i - start)),
            acc <= u32::MAX,
        decreases n - i,
    {
        let c = s.get_char(i);
        if c < '0' || c > '9' {
            assert(d[i - start] == c);
            assert(!all_digits(d));
            return None;
        }
        let v = acc * 10 + (c as u64 - '0' as u64);
        let ghost p = d.subrange(0, i + 1 - start);
        assert(p.drop_last() =~= d.subrange(0, i - start));
        assert(p.last() == c);
        assert(all_digits(p));
        assert(digits_value(p) == v);
        if v > u32::MAX as u64 {
            proof {
                if all_digits(d) {
                    lemma_prefix_value_le(d, i + 1 - start);
                }
            }
            return None;
        }
        acc = v;
        i = i + 1;
    }
    assert(d.subrange(0, n - start) =~= d);
    Some(acc as u32)
}

/// One row of the outcome log.
pub struct LogRecord {
    pub id: u32,
    pub title: String,
    pub occupation: String,
    pub work_time_extent: String,
    pub company: String,
    pub city: String,
    pub email: String,
}

/// A log row as values.
pub struct RecordView {
    pub id: u32,
    pub title: Seq<char>,
    pub occupation: Seq<char>,
    pub work_time_extent: Seq<char>,
    pub company: Seq<char>,
    pub city: Seq<char>,
    pub email: Seq<char>,
}

impl View for LogRecord {
    type V = RecordView;

    open spec fn view(&self) -> RecordView {
        RecordView {
            id: self.id,
            title: self.title@,
            occupation: self.occupation@,
            work_time_extent: self.work_time_extent@,
            company: self.company@,
            city: self.city@,
            email: self.email@,
        }
    }
}

/// What stands in a text column whose field the document lacks.
pub open spec fn missing_text() -> Seq<char> {
    "empty"@
}

/// What stands in the email column where the advert gives no address.
pub open spec fn missing_email() -> Seq<char> {
    "none"@
}

/// The log key of an advert: its decimal identifier, or 0 where that is
/// absent or not a `u32`.
pub open spec fn log_id(d: AdvertDetail) -> u32 {
    match d.id {
        Some(s) => match decimal_u32(s@) {
            Some(v) => v,
            None => 0,
        },
        None => 0,
    }
}

/// The row that records an advert.
pub open spec fn record_of(d: AdvertDetail) -> RecordView {
    RecordView {
        id: log_id(d),
        title: text_or(d.title, missing_text()),
        occupation: text_or(d.occupation, missing_text()),
        work_time_extent: text_or(d.work_time_extent, missing_text()),
        company: text_or(d.company, missing_text()),
        city: text_or(d.region, missing_text()),
        email: match email_of(d) {
            Some(e) => e,
            None => missing_email(),
        },
    }
}

impl LogRecord {
    /// The log row of an advert, with a placeholder for each missing field.
    pub fn from_detail(d: &AdvertDetail) -> (r: LogRecord)
        ensures
            r@ == record_of(*d),
    {
        let id: u32 = match &d.id {
            Some(s) => match parse_u32(s.as_str()) {
                Some(v) => v,
                None => 0,
            },
            None => 0,
        };
        let email = match crate::detail::find_email(d) {
            Some(e) => e,
            None => "none".to_owned(),
        };
        LogRecord {
            id,
            title: copy_text_or(&d.title, "empty"),
            occupation: copy_text_or(&d.occupation, "empty"),
            work_time_extent: copy_text_or(&d.work_time_extent, "empty"),
            company: copy_text_or(&d.company, "empty"),
            city: copy_text_or(&d.region, "empty"),
            email,
        }
    }
}

} // verus!
