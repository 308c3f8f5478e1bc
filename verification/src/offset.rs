//! Fixed offsets from UTC, and their text form.

use vstd::prelude::*;
use vstd::string::*;
use vstd::slice::slice_subrange;
use crate::calendar::{east_opt, offset_suffix, two_digits, valid_offset};
use crate::text::{
    all_digits, concat, digit_char, digits_stand_for_their_place, digits_value, i32_of, parse_i32,
    to_chars,
};

verus! {

/// A clock at a fixed distance from UTC, of less than a day.
#[derive(Clone, Copy, Debug)]
pub struct FixedOffset {
    local_minus_utc: i32,
}

impl View for FixedOffset {
    type V = int;

    closed spec fn view(&self) -> int {
        self.local_minus_utc as int
    }
}

impl FixedOffset {
    #[verifier::type_invariant]
    spec fn in_range(&self) -> bool {
        valid_offset(self.local_minus_utc as int)
    }

    /// The clock that is `seconds` ahead of UTC, or behind it where that is negative; none from
    /// a whole day on.
    pub fn east_opt(seconds: i32) -> (r: Option<FixedOffset>)
        ensures
            r is Some <==> valid_offset(seconds as int),
            r matches Some(offset) ==> offset@ == seconds,
    {
        match east_opt(seconds) {
            Some(local_minus_utc) => Some(FixedOffset { local_minus_utc }),
            None => None,
        }
    }

    /// The seconds to add to UTC to get the local time.
    pub fn local_minus_utc(&self) -> (r: i32)
        ensures
            r == self@,
            valid_offset(r as int),
    {
        proof {
            use_type_invariant(self);
        }
        self.local_minus_utc
    }
}

/// Whether the text holds one colon, at `k`.
pub open spec fn only_colon(s: Seq<char>, k: int) -> bool {
    &&& 0 <= k < s.len()
    &&& s[k] == ':'
    &&& forall|j: int| 0 <= j < s.len() && j != k ==> s[j] != ':'
}

/// The offset, in seconds, that an hour and a minute field stand for after a sign.
pub open spec fn offset_seconds(sign: char, hours: int, minutes: int) -> int {
    let magnitude = hours * 3600 + minutes * 60;
    if sign == '-' {
        -magnitude
    } else {
        magnitude
    }
}

/// What an offset text stands for: a sign, hours, a colon and minutes, or what is wrong with it.
pub open spec fn offset_of(s: Seq<char>) -> Result<int, Seq<char>> {
    if s.len() == 0 || (s[0] != '+' && s[0] != '-') {
        Err("Offset must start with + or -"@)
    } else if !(exists|k: int| only_colon(s.skip(1), k)) {
        Err("Offset must be in format +HH:MM or -HH:MM"@)
    } else {
        let fields = s.skip(1);
        let k = choose|k: int| only_colon(fields, k);
        match (i32_of(fields.take(k)), i32_of(fields.skip(k + 1))) {
            (None, _) => Err("Invalid hours in offset"@),
            (Some(_), None) => Err("Invalid minutes in offset"@),
            (Some(hours), Some(minutes)) => {
                let seconds = offset_seconds(s[0], hours, minutes);
                if valid_offset(seconds) {
                    Ok(seconds)
                } else {
                    Err("Offset out of range: "@ + s)
                }
            },
        }
    }
}

/// Where the only colon of `s` is, if it holds exactly one.
fn find_only_colon(s: &[char]) -> (r: Option<usize>)
    ensures
        r is Some <==> exists|k: int| only_colon(s@, k),
        r matches Some(k) ==> only_colon(s@, k as int),
{
    let mut found: Option<usize> = None;
    let mut i: usize = 0;
    while i < s.len()
        invariant
            i <= s@.len(),
            found matches Some(k) ==> k < i && s@[k as int] == ':' && forall|j: int|
                0 <= j < i && j != k ==> s@[j] != ':',
            found is None ==> forall|j: int| 0 <= j < i ==> s@[j] != ':',
        decreases s@.len() - i,
    {
        if s[i] == ':' {
            if let Some(k) = found {
                proof {
                    assert forall|m: int| !only_colon(s@, m) by {
                        if m == k {
                            assert(s@[i as int] == ':');
                        } else {
                            assert(s@[k as int] == ':');
                        }
                    }
                }
                return None;
            }
            found = Some(i);
        }
        i = i + 1;
    }
    if let Some(k) = found {
        assert(only_colon(s@, k as int));
    }
    found
}

/// Reads an offset like `+05:30` or `-08:00`. The fields are added up without a limit, so that
/// an offset of a day or more is out of range however large they are.
pub fn parse_offset(s: &str) -> (r: Result<FixedOffset, String>)
    ensures
        match r {
            Ok(offset) => offset_of(s@) == Ok::<int, Seq<char>>(offset@),
            Err(message) => offset_of(s@) == Err::<int, Seq<char>>(message@),
        },
{
    let chars: Vec<char> = to_chars(s);
    if chars.len() == 0 || (chars[0] != '+' && chars[0] != '-') {
        return Err("Offset must start with + or -".to_string());
    }
    let all: &[char] = chars.as_slice();
    let fields: &[char] = slice_subrange(all, 1, all.len());
    assert(fields@ =~= s@.skip(1));
    let k: usize = match find_only_colon(fields) {
        Some(k) => k,
        None => {
            return Err("Offset must be in format +HH:MM or -HH:MM".to_string());
        },
    };
    let ghost at = choose|k: int| only_colon(fields@, k);
    assert(at == k) by {
        assert(only_colon(fields@, at));
        assert(fields@[at] == ':');
        assert(fields@[k as int] == ':');
    }
    let hours_text: &[char] = slice_subrange(fields, 0, k);
    let minutes_text: &[char] = slice_subrange(fields, k + 1, fields.len());
    assert(hours_text@ =~= fields@.take(k as int));
    assert(minutes_text@ =~= fields@.skip(k + 1));
    let hours: i32 = match parse_i32(hours_text) {
        Some(hours) => hours,
        None => {
            return Err("Invalid hours in offset".to_string());
        },
    };
    let minutes: i32 = match parse_i32(minutes_text) {
        Some(minutes) => minutes,
        None => {
            return Err("Invalid minutes in offset".to_string());
        },
    };
    let magnitude: i64 = hours as i64 * 3600 + minutes as i64 * 60;
    let seconds: i64 = if chars[0] == '-' { -magnitude } else { magnitude };
    if seconds < i32::MIN as i64 || seconds > i32::MAX as i64 {
        return Err(concat("Offset out of range: ", s));
    }
    match FixedOffset::east_opt(seconds as i32) {
        Some(offset) => Ok(offset),
        None => Err(concat("Offset out of range: ", s)),
    }
}

/// The usual text of an offset: a sign, two digits of hours, a colon, two digits of minutes.
pub open spec fn offset_text(sign: char, hours: int, minutes: int) -> Seq<char> {
    seq![sign] + two_digits(hours) + seq![':'] + two_digits(minutes)
}

/// Two digits are read as the number they were written for.
proof fn lemma_two_digits(n: int)
    requires
        0 <= n < 100,
    ensures
        i32_of(two_digits(n)) == Some(n),
        forall|i: int| 0 <= i < 2 ==> two_digits(n)[i] != ':',
{
    let s = two_digits(n);
    assert(s[0] == digit_char(n / 10) && s[1] == digit_char(n % 10));
    assert(all_digits(s));
    assert(s.drop_last() =~= seq![s[0]]);
    assert(s.drop_last().drop_last() =~= Seq::<char>::empty());
    reveal_with_fuel(digits_value, 3);
    assert(digits_value(s) == n);
}

/// Every offset in the usual text form is read as its hours and minutes on its side of UTC.
pub proof fn offset_text_is_read(sign: char, hours: int, minutes: int)
    requires
        sign == '+' || sign == '-',
        0 <= hours < 24,
        0 <= minutes < 60,
    ensures
        offset_of(offset_text(sign, hours, minutes)) == Ok::<int, Seq<char>>(
            offset_seconds(sign, hours, minutes),
        ),
{
    let s = offset_text(sign, hours, minutes);
    let fields = s.skip(1);
    lemma_two_digits(hours);
    lemma_two_digits(minutes);
    assert(fields =~= two_digits(hours) + seq![':'] + two_digits(minutes));
    assert(fields.take(2) =~= two_digits(hours));
    assert(fields.skip(3) =~= two_digits(minutes));
    assert(only_colon(fields, 2)) by {
        assert forall|j: int| 0 <= j < fields.len() && j != 2 implies fields[j] != ':' by {
            if j < 2 {
                assert(fields[j] == two_digits(hours)[j]);
            } else {
                assert(fields[j] == two_digits(minutes)[j - 3]);
            }
        }
    }
    let k = choose|k: int| only_colon(fields, k);
    assert(fields[k] == ':');
    assert(k == 2);
}

/// Changing the sign in front moves a readable offset to the other side of UTC.
pub proof fn offset_sign_flips(fields: Seq<char>)
    ensures
        match (offset_of(seq!['+'] + fields), offset_of(seq!['-'] + fields)) {
            (Ok(east), Ok(west)) => west == -east,
            (Err(_), Err(_)) => true,
            _ => false,
        },
{
    let east = seq!['+'] + fields;
    let west = seq!['-'] + fields;
    assert(east.skip(1) =~= fields);
    assert(west.skip(1) =~= fields);
}

/// The offset at the end of a written time is read as the offset that it was written for,
/// where that is in whole minutes.
pub proof fn shown_offset_is_read(seconds: int)
    requires
        valid_offset(seconds),
        seconds % 60 == 0,
    ensures
        offset_of(offset_suffix(seconds)) == Ok::<int, Seq<char>>(seconds),
{
    let magnitude = if seconds < 0 {
        -seconds
    } else {
        seconds
    };
    let minutes = magnitude / 60;
    assert(magnitude % 60 == 0);
    assert((30 + magnitude) / 60 == minutes);
    let sign = if seconds < 0 {
        '-'
    } else {
        '+'
    };
    offset_text_is_read(sign, minutes / 60, minutes % 60);
}

/// An offset text is a sign and two fields with a colon between them. The fields are read as
/// numbers, and the offset is 3600 times the first and 60 times the second, on the side of UTC
/// that the sign tells. It is refused where a field is no number, the hours first, and where it
/// would be a day or more.
pub proof fn offset_fields_are_added_up(sign: char, hours: Seq<char>, minutes: Seq<char>)
    requires
        sign == '+' || sign == '-',
        !hours.contains(':'),
        !minutes.contains(':'),
    ensures
        ({
            let text = seq![sign] + hours + seq![':'] + minutes;
            match (i32_of(hours), i32_of(minutes)) {
                (Some(h), Some(m)) => {
                    let east = h * 3600 + m * 60;
                    let seconds = if sign == '+' {
                        east
                    } else {
                        -east
                    };
                    if -86_400 < seconds < 86_400 {
                        offset_of(text) == Ok::<int, Seq<char>>(seconds)
                    } else {
                        offset_of(text) == Err::<int, Seq<char>>("Offset out of range: "@ + text)
                    }
                },
                (None, _) => offset_of(text) == Err::<int, Seq<char>>("Invalid hours in offset"@),
                (Some(_), None) => offset_of(text) == Err::<int, Seq<char>>(
                    "Invalid minutes in offset"@,
                ),
            }
        }),
{
    let text = seq![sign] + hours + seq![':'] + minutes;
    let fields = text.skip(1);
    let at = hours.len() as int;
    assert(text[0] == sign);
    assert(fields =~= hours + seq![':'] + minutes);
    assert(fields.take(at) =~= hours);
    assert(fields.skip(at + 1) =~= minutes);
    assert(only_colon(fields, at)) by {
        assert(fields[at] == ':');
        assert forall|j: int| 0 <= j < fields.len() && j != at implies fields[j] != ':' by {
            if j < at {
                assert(fields[j] == hours[j]);
                assert(hours.contains(hours[j]));
            } else {
                assert(fields[j] == minutes[j - at - 1]);
                assert(minutes.contains(minutes[j - at - 1]));
            }
        }
    }
    let k = choose|k: int| only_colon(fields, k);
    assert(fields[k] == ':');
    assert(k == at);
}

/// A text without a sign in front is no offset, and neither is one with no colon or with two.
pub proof fn other_texts_are_no_offsets(text: Seq<char>)
    ensures
        text.len() == 0 || (text[0] != '+' && text[0] != '-') ==> offset_of(text) == Err::<
            int,
            Seq<char>,
        >("Offset must start with + or -"@),
        text.len() > 0 && (text[0] == '+' || text[0] == '-') && !text.contains(':') ==> offset_of(
            text,
        ) == Err::<int, Seq<char>>("Offset must be in format +HH:MM or -HH:MM"@),
        text.len() > 0 && (text[0] == '+' || text[0] == '-') && (exists|i: int, j: int|
            0 <= i < j < text.len() && #[trigger] text[i] == ':' && #[trigger] text[j] == ':')
            ==> offset_of(text) == Err::<int, Seq<char>>(
            "Offset must be in format +HH:MM or -HH:MM"@,
        ),
{
    if text.len() > 0 && (text[0] == '+' || text[0] == '-') {
        let fields = text.skip(1);
        if !text.contains(':') {
            assert forall|k: int| !only_colon(fields, k) by {
                if 0 <= k < fields.len() {
                    assert(fields[k] == text[k + 1]);
                }
            }
        }
        if exists|i: int, j: int|
            0 <= i < j < text.len() && #[trigger] text[i] == ':' && #[trigger] text[j] == ':' {
            let (i, j) = choose|i: int, j: int|
                0 <= i < j < text.len() && #[trigger] text[i] == ':' && #[trigger] text[j] == ':';
            assert(fields[i - 1] == ':' && fields[j - 1] == ':');
            assert forall|k: int| !only_colon(fields, k) by {
                if k == i - 1 {
                    assert(fields[j - 1] == ':');
                } else {
                    assert(fields[i - 1] == ':');
                }
            }
        }
    }
}

/// A sign, two digits of hours below 24, a colon and two digits of minutes below 60 stand for
/// that many hours and minutes ahead of UTC or behind it.
pub proof fn hours_and_minutes_are_read(sign: char, hours: int, minutes: int)
    requires
        sign == '+' || sign == '-',
        0 <= hours < 24,
        0 <= minutes < 60,
    ensures
        ({
            let digits = "0123456789"@;
            let text = seq![
                sign,
                digits[hours / 10],
                digits[hours % 10],
                ':',
                digits[minutes / 10],
                digits[minutes % 10],
            ];
            &&& offset_text(sign, hours, minutes) == text
            &&& sign == '+' ==> offset_of(text) == Ok::<int, Seq<char>>(
                hours * 3600 + minutes * 60,
            )
            &&& sign == '-' ==> offset_of(text) == Ok::<int, Seq<char>>(
                -(hours * 3600 + minutes * 60),
            )
        }),
{
    digits_stand_for_their_place(hours / 10);
    digits_stand_for_their_place(hours % 10);
    digits_stand_for_their_place(minutes / 10);
    digits_stand_for_their_place(minutes % 10);
    offset_text_is_read(sign, hours, minutes);
    let digits = "0123456789"@;
    let text = seq![
        sign,
        digits[hours / 10],
        digits[hours % 10],
        ':',
        digits[minutes / 10],
        digits[minutes % 10],
    ];
    assert(offset_text(sign, hours, minutes) =~= text);
}

} // verus!
