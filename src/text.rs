//! Text helpers: joining, case-insensitive comparison, truncation and
//! decimal parsing, each stated over the character sequence of the text.

use vstd::prelude::*;
use vstd::string::StrSliceExecFns;
use vstd::string::StringExecFns;

verus! {

/// The pieces joined with `sep` between each neighbouring pair.
pub open spec fn joined(parts: Seq<Seq<char>>, sep: Seq<char>) -> Seq<char>
    decreases parts.len(),
{
    if parts.len() == 0 {
        Seq::empty()
    } else if parts.len() == 1 {
        parts[0]
    } else {
        joined(parts.drop_last(), sep) + sep + parts.last()
    }
}

/// The character views of a list of strings.
pub open spec fn views(v: Seq<String>) -> Seq<Seq<char>> {
    v.map_values(|s: String| s@)
}

/// The code of a character once an ASCII letter is folded to lower case;
/// every other character keeps its own code.
pub open spec fn ascii_lower(c: char) -> int {
    if 'A' <= c && c <= 'Z' {
        (c as int) + 32
    } else {
        c as int
    }
}

/// Equality of two texts once ASCII letters are folded to one case.
pub open spec fn eq_ascii_folded(a: Seq<char>, b: Seq<char>) -> bool {
    &&& a.len() == b.len()
    &&& forall|i: int| 0 <= i < a.len() ==> ascii_lower(#[trigger] a[i]) == ascii_lower(b[i])
}

/// Joins the first `count` strings of `parts`, putting `sep` between each two.
pub fn join_first(parts: &Vec<String>, count: usize, sep: &str) -> (r: String)
    requires
        count <= parts.len(),
    ensures
        r@ == joined(views(parts@).take(count as int), sep@),
{
    let mut r = String::new();
    let mut i: usize = 0;
    while i < count
        invariant
            i <= count <= parts.len(),
            r@ == joined(views(parts@).take(i as int), sep@),
        decreases count - i,
    {
        proof {
            assert(views(parts@).take(i + 1).drop_last() =~= views(parts@).take(i as int));
        }
        if i > 0 {
            r.append(sep);
        }
        r.append(parts[i].as_str());
        i = i + 1;
        proof {
            if i == 1 {
                assert(r@ =~= views(parts@).take(1)[0]);
            }
        }
    }
    r
}

/// Joins the strings of `parts`, putting `sep` between each two.
pub fn join(parts: &Vec<String>, sep: &str) -> (r: String)
    ensures
        r@ == joined(views(parts@), sep@),
{
    let r = join_first(parts, parts.len(), sep);
    assert(views(parts@).take(parts.len() as int) =~= views(parts@));
    r
}

/// The code of a character with an ASCII letter folded to lower case.
pub fn to_ascii_lower(c: char) -> (r: u32)
    ensures
        r as int == ascii_lower(c),
{
    if 'A' <= c && c <= 'Z' {
        (c as u32) + 32
    } else {
        c as u32
    }
}

/// Compares two texts, ignoring the case of ASCII letters.
pub fn eq_ignore_ascii_case(a: &str, b: &str) -> (r: bool)
    ensures
        r == eq_ascii_folded(a@, b@),
{
    let n = a.unicode_len();
    if n != b.unicode_len() {
        return false;
    }
    let mut i: usize = 0;
    while i < n
        invariant
            n == a@.len(),
            n == b@.len(),
            i <= n,
            forall|j: int| 0 <= j < i ==> ascii_lower(#[trigger] a@[j]) == ascii_lower(b@[j]),
        decreases n - i,
    {
        if to_ascii_lower(a.get_char(i)) != to_ascii_lower(b.get_char(i)) {
            return false;
        }
        i = i + 1;
    }
    true
}

/// The text cut to at most `max_len` characters: a text that fits is kept
/// whole, a longer one keeps `max_len - 1` characters followed by an ellipsis.
pub open spec fn truncated(s: Seq<char>, max_len: nat) -> Seq<char> {
    if s.len() <= max_len {
        s
    } else {
        s.take(if max_len == 0 { 0 } else { max_len - 1 }) + "…"@
    }
}

/// Shortens `s` to at most `max_len` characters, marking a cut with "…".
pub fn truncate(s: &str, max_len: usize) -> (r: String)
    ensures
        r@ == truncated(s@, max_len as nat),
{
    let n = s.unicode_len();
    if n <= max_len {
        String::from_str(s)
    } else {
        let keep: usize = if max_len == 0 { 0 } else { max_len - 1 };
        let head = String::from_str(s.substring_char(0, keep));
        head.concat("…")
    }
}

/// The position of the first newline, or the length when there is none.
pub open spec fn first_newline(s: Seq<char>) -> nat
    decreases s.len(),
{
    if s.len() == 0 || s[0] == '\n' {
        0
    } else {
        1 + first_newline(s.skip(1))
    }
}

/// A line taken from before a newline, without the carriage return that
/// may stand right before that newline.
pub open spec fn without_cr(l: Seq<char>) -> Seq<char> {
    if l.len() > 0 && l.last() == '\r' {
        l.drop_last()
    } else {
        l
    }
}

/// The lines of a text: split at each newline, a carriage return right
/// before a newline dropped with it; an empty text has no lines, and a final
/// newline starts no further line.
pub open spec fn lines_of(s: Seq<char>) -> Seq<Seq<char>>
    decreases s.len(),
{
    if s.len() == 0 {
        Seq::empty()
    } else if first_newline(s) >= s.len() {
        seq![s]
    } else {
        seq![without_cr(s.take(first_newline(s) as int))] + lines_of(s.skip(first_newline(s) as int + 1))
    }
}

/// Relies on `str::lines`, which splits at `\n` and at `\r\n`, keeps no line
/// ending, and treats a final line ending as optional; a lone `\r` elsewhere
/// stays in its line.
#[verifier::external_body]
fn split_lines(s: &str) -> (r: Vec<String>)
    ensures
        views(r@) == lines_of(s@),
{
    s.lines().map(|l| l.to_string()).collect()
}

/// The note appended where lines were cut off.
pub open spec fn truncation_note() -> Seq<char> {
    "\n  [... truncated, use --full to see all]"@
}

/// The text limited to `max_lines` of the given lines: unchanged when it has
/// no more, else the first `max_lines` lines joined by newlines and a note.
pub open spec fn lines_truncated(s: Seq<char>, lines: Seq<Seq<char>>, max_lines: nat) -> Seq<char> {
    if lines.len() <= max_lines {
        s
    } else {
        joined(lines.take(max_lines as int), "\n"@) + truncation_note()
    }
}

/// Limits `s`, already split into `lines`, to `max_lines` lines.
pub fn truncate_split_lines(s: &str, lines: &Vec<String>, max_lines: usize) -> (r: String)
    ensures
        r@ == lines_truncated(s@, views(lines@), max_lines as nat),
{
    if lines.len() <= max_lines {
        String::from_str(s)
    } else {
        let body = join_first(lines, max_lines, "\n");
        body.concat("\n  [... truncated, use --full to see all]")
    }
}

/// Limits a text to `max_lines` lines, noting where it was cut.
pub fn truncate_lines(s: &str, max_lines: usize) -> (r: String)
    ensures
        r@ == lines_truncated(s@, lines_of(s@), max_lines as nat),
{
    let lines = split_lines(s);
    truncate_split_lines(s, &lines, max_lines)
}

/// Whether every character is an ASCII digit.
pub open spec fn all_digits(s: Seq<char>) -> bool {
    forall|i: int| 0 <= i < s.len() ==> '0' <= #[trigger] s[i] && s[i] <= '9'
}

/// The value of a run of decimal digits.
pub open spec fn digits_value(s: Seq<char>) -> nat
    decreases s.len(),
{
    if s.len() == 0 {
        0
    } else {
        digits_value(s.drop_last()) * 10 + ((s.last() as u32) - ('0' as u32)) as nat
    }
}

/// The integer that a decimal text with an optional leading sign denotes,
/// or `None` when it is not one (empty, a bare sign, a non-digit).
pub open spec fn decimal_value(s: Seq<char>) -> Option<int> {
    if s.len() > 0 && (s[0] == '+' || s[0] == '-') {
        let digits = s.skip(1);
        if digits.len() > 0 && all_digits(digits) {
            Some(if s[0] == '-' { -(digits_value(digits) as int) } else { digits_value(digits) as int })
        } else {
            None
        }
    } else if s.len() > 0 && all_digits(s) {
        Some(digits_value(s) as int)
    } else {
        None
    }
}

proof fn lemma_digits_prefix_le(s: Seq<char>, i: int)
    requires
        all_digits(s),
        0 <= i <= s.len(),
    ensures
        digits_value(s.take(i)) <= digits_value(s),
    decreases s.len() - i,
{
    if i < s.len() {
        lemma_digits_prefix_le(s, i + 1);
        assert(s.take(i + 1).drop_last() =~= s.take(i));
        assert('0' <= s[i] && s[i] <= '9');
    } else {
        assert(s.take(i) =~= s);
    }
}

/// Reads the digits of `s` from character `start` on, as a value not above
/// `bound`; `None` when a character is no digit, there are none, or the value
/// exceeds `bound`.
fn digits_up_to(s: &str, start: usize, bound: u64) -> (r: Option<u64>)
    requires
        start <= s@.len(),
        bound >= 9,
    ensures
        match r {
            Some(v) => s@.len() > start && all_digits(s@.skip(start as int))
                && v as nat == digits_value(s@.skip(start as int)) && v <= bound,
            None => !(s@.len() > start && all_digits(s@.skip(start as int))
                && digits_value(s@.skip(start as int)) <= bound),
        },
{
    let n = s.unicode_len();
    if n == start {
        return None;
    }
    let ghost d = s@.skip(start as int);
    let mut v: u64 = 0;
    let mut i: usize = start;
    while i < n
        invariant
            n == s@.len(),
            start <= i <= n,
            d == s@.skip(start as int),
            all_digits(d.take(i - start)),
            v as nat == digits_value(d.take(i - start)),
            v <= bound,
            bound >= 9,
        decreases n - i,
    {
        let c = s.get_char(i);
        assert(d[i - start] == c);
        if c < '0' || c > '9' {
            assert(!all_digits(d));
            return None;
        }
        let digit: u64 = ((c as u32) - ('0' as u32)) as u64;
        assert(d.take(i - start + 1).drop_last() =~= d.take(i - start));
        assert(all_digits(d.take(i - start + 1)));
        if v > (bound - digit) / 10 {
            proof {
                assert(v * 10 + digit > bound) by (nonlinear_arith)
                    requires v > (bound - digit) / 10, digit <= 9, bound >= 9;
                if all_digits(d) {
                    lemma_digits_prefix_le(d, i - start + 1);
                }
            }
            return None;
        }
        assert(v * 10 + digit <= bound) by (nonlinear_arith)
            requires v <= (bound - digit) / 10, digit <= 9, bound >= 9;
        v = v * 10 + digit;
        i = i + 1;
    }
    assert(d.take(n - start) =~= d);
    Some(v)
}

/// The value of a decimal text read as unsigned: as `decimal_value`, except
/// that a leading minus sign is no part of such a number.
pub open spec fn unsigned_decimal_value(s: Seq<char>) -> Option<int> {
    if s.len() > 0 && s[0] == '-' {
        None
    } else {
        decimal_value(s)
    }
}

/// Parses an unsigned 64-bit decimal with an optional `+`, as `u64::from_str` does.
pub fn parse_u64(s: &str) -> (r: Option<u64>)
    ensures
        match r {
            Some(v) => unsigned_decimal_value(s@) == Some(v as int),
            None => !(unsigned_decimal_value(s@) is Some && unsigned_decimal_value(s@)->0 <= u64::MAX),
        },
{
    let n = s.unicode_len();
    if n > 0 && s.get_char(0) == '-' {
        return None;
    }
    let start: usize = if n > 0 && s.get_char(0) == '+' { 1 } else { 0 };
    let r = digits_up_to(s, start, u64::MAX);
    proof {
        if start == 0 && n > 0 {
            assert(s@.skip(0) =~= s@);
        }
    }
    r
}

/// Parses a signed 64-bit decimal with an optional sign, as `i64::from_str` does.
pub fn parse_i64(s: &str) -> (r: Option<i64>)
    ensures
        match r {
            Some(v) => decimal_value(s@) == Some(v as int),
            None => !(decimal_value(s@) is Some && i64::MIN <= decimal_value(s@)->0 <= i64::MAX),
        },
{
    let n = s.unicode_len();
    if n > 0 && s.get_char(0) == '-' {
        let r = digits_up_to(s, 1, 9223372036854775808u64);
        match r {
            Some(m) => {
                if m == 9223372036854775808u64 {
                    Some(i64::MIN)
                } else {
                    Some(-(m as i64))
                }
            },
            None => None,
        }
    } else {
        let start: usize = if n > 0 && s.get_char(0) == '+' { 1 } else { 0 };
        let r = digits_up_to(s, start, 9223372036854775807u64);
        proof {
            if start == 0 && n > 0 {
                assert(s@.skip(0) =~= s@);
            }
        }
        match r {
            Some(m) => Some(m as i64),
            None => None,
        }
    }
}

/// The decimal digit for a value below ten.
pub open spec fn digit_char(d: int) -> char {
    seq!['0', '1', '2', '3', '4', '5', '6', '7', '8', '9'][d]
}

/// The decimal digits of a natural number, without leading zeros.
pub open spec fn digits_of(n: nat) -> Seq<char>
    decreases n,
{
    if n < 10 {
        seq![digit_char(n as int)]
    } else {
        digits_of(n / 10) + seq![digit_char((n % 10) as int)]
    }
}

/// The decimal form of an integer: a minus sign for a negative one, then
/// its digits.
pub open spec fn decimal_text(n: int) -> Seq<char> {
    if n < 0 {
        seq!['-'] + digits_of((-n) as nat)
    } else {
        digits_of(n as nat)
    }
}

fn digit_str(d: u64) -> (r: &'static str)
    requires
        d < 10,
    ensures
        r@ == seq![digit_char(d as int)],
{
    proof {
        reveal_strlit("0");
        reveal_strlit("1");
        reveal_strlit("2");
        reveal_strlit("3");
        reveal_strlit("4");
        reveal_strlit("5");
        reveal_strlit("6");
        reveal_strlit("7");
        reveal_strlit("8");
        reveal_strlit("9");
    }
    if d == 0 {
        assert("0"@ =~= seq![digit_char(0)]);
        "0"
    } else if d == 1 {
        assert("1"@ =~= seq![digit_char(1)]);
        "1"
    } else if d == 2 {
        assert("2"@ =~= seq![digit_char(2)]);
        "2"
    } else if d == 3 {
        assert("3"@ =~= seq![digit_char(3)]);
        "3"
    } else if d == 4 {
        assert("4"@ =~= seq![digit_char(4)]);
        "4"
    } else if d == 5 {
        assert("5"@ =~= seq![digit_char(5)]);
        "5"
    } else if d == 6 {
        assert("6"@ =~= seq![digit_char(6)]);
        "6"
    } else if d == 7 {
        assert("7"@ =~= seq![digit_char(7)]);
        "7"
    } else if d == 8 {
        assert("8"@ =~= seq![digit_char(8)]);
        "8"
    } else {
        assert("9"@ =~= seq![digit_char(9)]);
        "9"
    }
}

/// The decimal digits of a natural number.
pub fn digits_text(m: u64) -> (r: String)
    ensures
        r@ == digits_of(m as nat),
{
    if m < 10 {
        return String::from_str(digit_str(m));
    }
    let mut v: u64 = m;
    let mut r = String::new();
    while v > 0
        invariant
            m >= 10,
            v > 0 ==> digits_of(m as nat) == digits_of(v as nat) + r@,
            v == 0 ==> digits_of(m as nat) == r@,
        decreases v,
    {
        let d = v % 10;
        let next = v / 10;
        let piece = String::from_str(digit_str(d));
        let ghost old_r = r@;
        r = piece.concat(r.as_str());
        proof {
            if v >= 10 {
                assert(digits_of(v as nat) == digits_of(next as nat) + seq![digit_char(d as int)]);
                assert(digits_of(next as nat) + r@ =~= digits_of(next as nat) + seq![digit_char(d as int)] + old_r);
            } else {
                assert(digits_of(v as nat) == seq![digit_char(v as int)]);
                assert(r@ =~= seq![digit_char(d as int)] + old_r);
            }
        }
        v = next;
    }
    r
}

/// Writes an integer in decimal: a minus sign when negative, then its digits.
pub fn int_text(n: i64) -> (r: String)
    ensures
        r@ == decimal_text(n as int),
{
    if n < 0 {
        let m: u64 = if n == i64::MIN { 9223372036854775808u64 } else { (-n) as u64 };
        proof {
            reveal_strlit("-");
        }
        let r = String::from_str("-").concat(digits_text(m).as_str());
        assert(r@ =~= seq!['-'] + digits_of((-(n as int)) as nat));
        r
    } else {
        digits_text(n as u64)
    }
}

/// The text that `str::trim` leaves: surrounding whitespace removed.
pub uninterp spec fn trim_of(s: Seq<char>) -> Seq<char>;

/// Relies on `str::trim`: the text without leading and trailing whitespace;
/// an empty text stays empty.
#[verifier::external_body]
pub(crate) fn trim(s: &str) -> (r: &str)
    ensures
        r@ == trim_of(s@),
        s@.len() == 0 ==> r@.len() == 0,
{
    s.trim()
}

/// The text that `str::to_uppercase` gives.
pub uninterp spec fn upper_of(s: Seq<char>) -> Seq<char>;

/// Relies on `str::to_uppercase`: the Unicode upper-case form of the text.
#[verifier::external_body]
pub(crate) fn uppercase(s: &str) -> (r: String)
    ensures
        r@ == upper_of(s@),
{
    s.to_uppercase()
}

/// The text that `str::to_lowercase` gives.
pub uninterp spec fn lower_of(s: Seq<char>) -> Seq<char>;

/// Relies on `str::to_lowercase`: the Unicode lower-case form of the text.
#[verifier::external_body]
pub(crate) fn lowercase(s: &str) -> (r: String)
    ensures
        r@ == lower_of(s@),
{
    s.to_lowercase()
}

proof fn lemma_digit_char(d: int)
    requires
        0 <= d < 10,
    ensures
        '0' <= digit_char(d) <= '9',
        (digit_char(d) as u32) - ('0' as u32) == d,
{
    if d == 0 { assert(digit_char(0) == '0'); }
    else if d == 1 { assert(digit_char(1) == '1'); }
    else if d == 2 { assert(digit_char(2) == '2'); }
    else if d == 3 { assert(digit_char(3) == '3'); }
    else if d == 4 { assert(digit_char(4) == '4'); }
    else if d == 5 { assert(digit_char(5) == '5'); }
    else if d == 6 { assert(digit_char(6) == '6'); }
    else if d == 7 { assert(digit_char(7) == '7'); }
    else if d == 8 { assert(digit_char(8) == '8'); }
    else { assert(digit_char(9) == '9'); }
}

/// The digits of a number are digits, at least one of them, and read back
/// as the number.
pub proof fn lemma_digits_read_back(m: nat)
    ensures
        digits_of(m).len() >= 1,
        all_digits(digits_of(m)),
        digits_value(digits_of(m)) == m,
    decreases m,
{
    if m < 10 {
        lemma_digit_char(m as int);
        let s = digits_of(m);
        assert(s.drop_last() =~= Seq::<char>::empty());
        assert(digits_value(s.drop_last()) == 0);
        assert(s.last() == digit_char(m as int));
        assert(digits_value(s) == digits_value(s.drop_last()) * 10 + ((s.last() as u32) - ('0' as u32)) as nat);
    } else {
        lemma_digits_read_back(m / 10);
        lemma_digit_char((m % 10) as int);
        let s = digits_of(m);
        assert(s.drop_last() =~= digits_of(m / 10));
        assert(s.last() == digit_char((m % 10) as int));
        assert(digits_value(s) == digits_value(s.drop_last()) * 10 + ((s.last() as u32) - ('0' as u32)) as nat);
        assert((m / 10) * 10 + m % 10 == m);
        assert forall|i: int| 0 <= i < s.len() implies '0' <= #[trigger] s[i] && s[i] <= '9' by {
            if i < s.len() - 1 {
                assert(s[i] == digits_of(m / 10)[i]);
            }
        }
    }
}

/// A positive number's decimal text reads back as that number.
pub proof fn lemma_decimal_text_reads_back(n: int)
    requires
        n > 0,
    ensures
        decimal_text(n).len() >= 1,
        all_digits(decimal_text(n)),
        decimal_value(decimal_text(n)) == Some(n),
{
    lemma_digits_read_back(n as nat);
    let s = decimal_text(n);
    assert('0' <= s[0] && s[0] <= '9');
}

} // verus!
