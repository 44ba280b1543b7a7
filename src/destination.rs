use vstd::prelude::*;

verus! {

/// Largest magnitude a signed 64-bit value can have (that of `i64::MIN`).
pub const I64_MAGNITUDE: u64 = 9223372036854775808;

pub open spec fn is_digit(c: char) -> bool {
    '0' <= c && c <= '9'
}

pub open spec fn digit_value(c: char) -> int {
    c as int - '0' as int
}

pub open spec fn all_digits(s: Seq<char>) -> bool {
    forall|i: int| 0 <= i < s.len() ==> is_digit(#[trigger] s[i])
}

/// The number that a string of decimal digits denotes.
pub open spec fn digits_value(s: Seq<char>) -> int
    decreases s.len(),
{
    if s.len() == 0 {
        0
    } else {
        digits_value(s.drop_last()) * 10 + digit_value(s.last())
    }
}

pub open spec fn has_sign(s: Seq<char>) -> bool {
    s.len() > 0 && (s[0] == '+' || s[0] == '-')
}

/// The text after an optional leading sign.
pub open spec fn magnitude_text(s: Seq<char>) -> Seq<char> {
    if has_sign(s) {
        s.drop_first()
    } else {
        s
    }
}

pub open spec fn signed_value(s: Seq<char>) -> int {
    if s.len() > 0 && s[0] == '-' {
        -digits_value(magnitude_text(s))
    } else {
        digits_value(magnitude_text(s))
    }
}

/// A base-10 signed 64-bit integer, written entirely as an optional sign
/// followed by at least one digit, whose value fits in `i64`.
pub open spec fn is_i64_text(s: Seq<char>) -> bool {
    &&& magnitude_text(s).len() > 0
    &&& all_digits(magnitude_text(s))
    &&& i64::MIN <= signed_value(s) <= i64::MAX
}

pub open spec fn is_handle_text(s: Seq<char>) -> bool {
    s.len() > 0 && s[0] == '@'
}

pub open spec fn is_destination_text(s: Seq<char>) -> bool {
    is_handle_text(s) || is_i64_text(s)
}

/// `d` is what the destination text `raw` names.
pub open spec fn denotes(d: Destination, raw: Seq<char>) -> bool {
    match d {
        Destination::SymbolicHandle(h) => is_handle_text(raw) && h@ == raw,
        Destination::NumericId(v) => !is_handle_text(raw) && is_i64_text(raw) && v
            == signed_value(raw),
    }
}

/// Where a message is delivered: a public channel by its `@` username, or a
/// chat by its numeric id.
pub enum Destination {
    SymbolicHandle(String),
    NumericId(i64),
}

/// A destination string that is neither an `@` handle nor a 64-bit integer.
pub struct InvalidDestination {
    pub raw: String,
}

pub open spec fn invalid_destination_text(raw: Seq<char>) -> Seq<char> {
    "Invalid channel ID format: '"@ + raw + "'. Use numeric ID (e.g., -1001234567890) or @username"@
}

impl InvalidDestination {
    /// The error's text, quoting the destination as given.
    pub fn message(&self) -> (r: String)
        ensures
            r@ == invalid_destination_text(self.raw@),
    {
        let mut r = String::from_str("Invalid channel ID format: '");
        r.append(self.raw.as_str());
        r.append("'. Use numeric ID (e.g., -1001234567890) or @username");
        r
    }
}

proof fn lemma_digits_value_nonneg(s: Seq<char>)
    requires
        all_digits(s),
    ensures
        digits_value(s) >= 0,
    decreases s.len(),
{
    if s.len() > 0 {
        assert(all_digits(s.drop_last()));
        lemma_digits_value_nonneg(s.drop_last());
    }
}

/// Reads the digits of `s` from `start` on. Returns the value when every
/// character is a digit, there is at least one, and the value is at most
/// `I64_MAGNITUDE`; otherwise `None`.
fn read_magnitude(s: &str, start: usize) -> (r: Option<u64>)
    requires
        start <= s@.len(),
    ensures
        ({
            let t = s@.subrange(start as int, s@.len() as int);
            match r {
                Some(v) => t.len() > 0 && all_digits(t) && v as int == digits_value(t) && v
                    <= I64_MAGNITUDE,
                None => !(t.len() > 0 && all_digits(t) && digits_value(t) <= I64_MAGNITUDE),
            }
        }),
{
    let n = s.unicode_len();
    if start >= n {
        return None;
    }
    let mut acc: u64 = 0;
    let mut big: bool = false;
    let mut i: usize = start;
    while i < n
        invariant
            start <= i <= n,
            n == s@.len(),
            all_digits(s@.subrange(start as int, i as int)),
            !big ==> acc as int == digits_value(s@.subrange(start as int, i as int)),
            !big ==> acc <= I64_MAGNITUDE,
            big ==> digits_value(s@.subrange(start as int, i as int)) > I64_MAGNITUDE,
        decreases n - i,
    {
        let c = s.get_char(i);
        let ghost prev = s@.subrange(start as int, i as int);
        let ghost next = s@.subrange(start as int, i + 1);
        if c < '0' || c > '9' {
            assert(s@.subrange(start as int, s@.len() as int)[i - start] == c);
            return None;
        }
        assert(next.drop_last() =~= prev);
        assert(next.last() == c);
        assert(all_digits(next)) by {
            assert forall|k: int| 0 <= k < next.len() implies is_digit(#[trigger] next[k]) by {
                if k < prev.len() {
                    assert(next[k] == prev[k]);
                }
            }
        }
        proof {
            lemma_digits_value_nonneg(prev);
        }
        let d: u64 = (c as u32 - '0' as u32) as u64;
        if !big {
            if acc > (I64_MAGNITUDE - d) / 10 {
                big = true;
            } else {
                acc = acc * 10 + d;
            }
        }
        i = i + 1;
    }
    assert(s@.subrange(start as int, s@.len() as int) =~= s@.subrange(start as int, i as int));
    if big {
        None
    } else {
        Some(acc)
    }
}

/// Reads a destination: an `@` handle as it stands, else a base-10 signed
/// 64-bit integer written entirely as such, else an error carrying the text.
pub fn parse_recipient(raw: &str) -> (r: Result<Destination, InvalidDestination>)
    ensures
        match r {
            Ok(d) => denotes(d, raw@),
            Err(e) => !is_destination_text(raw@) && e.raw@ == raw@,
        },
{
    let n = raw.unicode_len();
    if n > 0 && raw.get_char(0) == '@' {
        return Ok(Destination::SymbolicHandle(String::from_str(raw)));
    }
    let first_is_sign = n > 0 && (raw.get_char(0) == '+' || raw.get_char(0) == '-');
    let negative = n > 0 && raw.get_char(0) == '-';
    let start: usize = if first_is_sign { 1 } else { 0 };
    proof {
        assert(magnitude_text(raw@) =~= raw@.subrange(start as int, raw@.len() as int));
    }
    match read_magnitude(raw, start) {
        Some(m) => {
            if negative {
                if m == I64_MAGNITUDE {
                    Ok(Destination::NumericId(i64::MIN))
                } else {
                    Ok(Destination::NumericId(-(m as i64)))
                }
            } else if m < I64_MAGNITUDE {
                Ok(Destination::NumericId(m as i64))
            } else {
                Err(InvalidDestination { raw: String::from_str(raw) })
            }
        },
        None => Err(InvalidDestination { raw: String::from_str(raw) }),
    }
}

} // verus!
