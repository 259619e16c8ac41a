//! Small verified string utilities: equality on `&str` and the parser that
//! turns a fiscal-period caption such as `"Q3 2024"` into numeric year and
//! quarter.
use vstd::prelude::*;

verus! {

/// Character-wise string equality, specified against the string views.
pub fn str_eq(a: &str, b: &str) -> (r: bool)
    ensures
        r == (a@ == b@),
{
    let alen = a.unicode_len();
    let blen = b.unicode_len();
    if alen != blen {
        return false;
    }
    let mut i: usize = 0;
    while i < alen
        invariant
            i <= alen,
            alen == a@.len(),
            alen == b@.len(),
            forall|j: int| 0 <= j < i ==> a@[j] == b@[j],
        decreases alen - i,
    {
        if a.get_char(i) != b.get_char(i) {
            return false;
        }
        i = i + 1;
    }
    proof {
        assert(a@ =~= b@);
    }
    true
}

/// Decimal digit test.
pub open spec fn is_digit(c: char) -> bool {
    '0' <= c && c <= '9'
}

/// Numeric value of a decimal digit.
pub open spec fn digit_val(c: char) -> int {
    c as int - '0' as int
}

pub open spec fn all_digits(s: Seq<char>) -> bool {
    forall|i: int| 0 <= i < s.len() ==> is_digit(#[trigger] s[i])
}

/// Value of a digit string read most-significant first.
pub open spec fn digits_val(s: Seq<char>) -> int
    decreases s.len(),
{
    if s.len() == 0 {
        0
    } else {
        digits_val(s.drop_last()) * 10 + digit_val(s.last())
    }
}

/// What Rust's `i16` parser accepts: an optional sign, one or more digits,
/// and a value within the `i16` range.
pub open spec fn parse_i16_spec(s: Seq<char>) -> Option<i16> {
    let signed = s.len() > 0 && (s[0] == '+' || s[0] == '-');
    let neg = s.len() > 0 && s[0] == '-';
    let digits = if signed {
        s.subrange(1, s.len() as int)
    } else {
        s
    };
    if digits.len() == 0 || !all_digits(digits) {
        None
    } else {
        let v = if neg {
            -digits_val(digits)
        } else {
            digits_val(digits)
        };
        if -32768 <= v <= 32767 {
            Some(v as i16)
        } else {
            None
        }
    }
}

/// A nonempty digit string has a nonnegative value that only grows as more
/// digits are appended.
proof fn lemma_digits_val_nonneg(s: Seq<char>)
    requires
        all_digits(s),
    ensures
        digits_val(s) >= 0,
    decreases s.len(),
{
    if s.len() > 0 {
        assert(all_digits(s.drop_last()));
        lemma_digits_val_nonneg(s.drop_last());
    }
}

/// Parse the characters `s@[from..to]` as Rust's `i16` parser would.
fn parse_i16_range(s: &str, from: usize, to: usize) -> (r: Option<i16>)
    requires
        from <= to <= s@.len(),
    ensures
        r == parse_i16_spec(s@.subrange(from as int, to as int)),
{
    let ghost tok = s@.subrange(from as int, to as int);
    if from == to {
        return None;
    }
    let first = s.get_char(from);
    let signed = first == '+' || first == '-';
    let neg = first == '-';
    let dstart = if signed {
        from + 1
    } else {
        from
    };
    let ghost digits = if signed {
        tok.subrange(1, tok.len() as int)
    } else {
        tok
    };
    proof {
        assert(digits =~= s@.subrange(dstart as int, to as int));
    }
    if dstart == to {
        return None;
    }
    // `acc` tracks the exact digit value until it passes the i16 range, after
    // which it sticks to the sentinel 32769.
    let mut acc: i64 = 0;
    let mut i: usize = dstart;
    while i < to
        invariant
            dstart <= i <= to <= s@.len(),
            digits == s@.subrange(dstart as int, to as int),
            all_digits(digits.subrange(0, i - dstart)),
            digits_val(digits.subrange(0, i - dstart)) <= 32768 ==> acc == digits_val(
                digits.subrange(0, i - dstart),
            ),
            digits_val(digits.subrange(0, i - dstart)) > 32768 ==> acc == 32769,
            0 <= acc <= 32769,
        decreases to - i,
    {
        let ghost prefix = digits.subrange(0, i - dstart);
        let c = s.get_char(i);
        let cv = c as u32;
        if cv < 48 || cv > 57 {
            assert(!is_digit(digits[i - dstart]));
            return None;
        }
        let d = (cv - 48) as i64;
        proof {
            lemma_digits_val_nonneg(prefix);
            assert(digits.subrange(0, i + 1 - dstart).drop_last() =~= prefix);
        }
        if acc == 32769 {
            // the exact value can only grow; stay at the sentinel
            assert(digits_val(digits.subrange(0, i + 1 - dstart)) > 32768);
        } else {
            let next = acc * 10 + d;
            if next > 32768 {
                acc = 32769;
            } else {
                acc = next;
            }
        }
        i = i + 1;
    }
    proof {
        assert(digits.subrange(0, to - dstart) =~= digits);
    }
    if neg {
        if acc <= 32768 {
            Some((-(acc as i32)) as i16)
        } else {
            None
        }
    } else {
        if acc <= 32767 {
            Some(acc as i16)
        } else {
            None
        }
    }
}

/// Index of the first space at or after `from`; the length if there is none.
pub open spec fn first_space(s: Seq<char>, from: int) -> int
    decreases s.len() - from when 0 <= from <= s.len()
{
    if from >= s.len() {
        s.len() as int
    } else if s[from] == ' ' {
        from
    } else {
        first_space(s, from + 1)
    }
}

/// `first_space` is pinned down by its characterization: no space before the
/// index, and a space (or the end of the string) at it.
proof fn lemma_first_space_at(s: Seq<char>, from: int, i: int)
    requires
        0 <= from <= i <= s.len(),
        forall|j: int| from <= j < i ==> s[j] != ' ',
        i == s.len() || s[i] == ' ',
    ensures
        first_space(s, from) == i,
    decreases s.len() - from,
{
    if from < s.len() && s[from] != ' ' {
        lemma_first_space_at(s, from + 1, i);
    }
}

/// Parsing a number, with parse failures read as zero.
pub open spec fn parse_or_zero(s: Seq<char>) -> i16 {
    match parse_i16_spec(s) {
        Some(v) => v,
        None => 0,
    }
}

/// What `process_fiscal_string` returns: `None` when the caption has no
/// space; otherwise the year parsed from the second space-separated token and
/// the quarter parsed from the first token with its leading letter removed,
/// each falling back to zero when it is not a number (annual captions have no
/// quarter digit).
pub open spec fn spec_process_fiscal_string(s: Seq<char>) -> Option<(i16, i16)> {
    let sp1 = first_space(s, 0);
    if sp1 == s.len() {
        None
    } else {
        let tok0 = s.subrange(0, sp1);
        let tok1 = s.subrange(sp1 + 1, first_space(s, sp1 + 1));
        let quarter = if tok0.len() == 0 {
            0i16
        } else {
            parse_or_zero(tok0.subrange(1, tok0.len() as int))
        };
        let year = parse_or_zero(tok1);
        Some((year, quarter))
    }
}

/// Converts a fiscal caption (`"Qn 20xx"`) into year and quarter integers.
pub fn process_fiscal_string(fiscal_str: &str) -> (r: Option<(i16, i16)>)
    ensures
        r == spec_process_fiscal_string(fiscal_str@),
{
    let len = fiscal_str.unicode_len();
    let mut i: usize = 0;
    while i < len && fiscal_str.get_char(i) != ' '
        invariant
            0 <= i <= len,
            len == fiscal_str@.len(),
            forall|j: int| 0 <= j < i ==> fiscal_str@[j] != ' ',
        decreases len - i,
    {
        i = i + 1;
    }
    proof {
        lemma_first_space_at(fiscal_str@, 0, i as int);
    }
    if i == len {
        return None;
    }
    let sp1 = i;
    let mut j: usize = sp1 + 1;
    while j < len && fiscal_str.get_char(j) != ' '
        invariant
            sp1 + 1 <= j <= len,
            len == fiscal_str@.len(),
            forall|k: int| sp1 + 1 <= k < j ==> fiscal_str@[k] != ' ',
        decreases len - j,
    {
        j = j + 1;
    }
    proof {
        lemma_first_space_at(fiscal_str@, sp1 + 1, j as int);
    }
    let quarter = if sp1 == 0 {
        0i16
    } else {
        match parse_i16_range(fiscal_str, 1, sp1) {
            Some(q) => q,
            None => 0i16,
        }
    };
    proof {
        let tok0 = fiscal_str@.subrange(0, sp1 as int);
        if sp1 > 0 {
            assert(tok0.subrange(1, tok0.len() as int) =~= fiscal_str@.subrange(1, sp1 as int));
        }
        let tok1 = fiscal_str@.subrange(sp1 + 1, first_space(fiscal_str@, sp1 + 1));
        assert(tok1 =~= fiscal_str@.subrange(sp1 + 1, j as int));
    }
    let year = match parse_i16_range(fiscal_str, sp1 + 1, j) {
        Some(y) => y,
        None => 0i16,
    };
    Some((year, quarter))
}

} // verus!
