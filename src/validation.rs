use vstd::prelude::*;

use crate::calendar::{is_digit, digit_value, read_date, Date};
use crate::error::{CosiError, DateIssue};

verus! {

/// The value of a run of decimal digits.
pub open spec fn digits_value(s: Seq<char>) -> int
    decreases s.len(),
{
    if s.len() == 0 {
        0
    } else {
        digits_value(s.drop_last()) * 10 + digit_value(s.last())
    }
}

pub open spec fn all_digits(s: Seq<char>) -> bool {
    forall|i: int| 0 <= i < s.len() ==> #[trigger] is_digit(s[i])
}

/// What an unsigned number reads as: an optional `+`, then one or more
/// decimal digits, of value at most `max`.
pub open spec fn unsigned_value(s: Seq<char>, max: int) -> Option<int> {
    let d = if s.len() > 0 && s[0] == '+' {
        s.drop_first()
    } else {
        s
    };
    if d.len() > 0 && all_digits(d) && digits_value(d) <= max {
        Some(digits_value(d))
    } else {
        None
    }
}

/// `s` holds exactly two dashes, at `i` and `j`.
pub open spec fn dashes_at(s: Seq<char>, i: int, j: int) -> bool {
    &&& 0 <= i < j < s.len()
    &&& s[i] == '-'
    &&& s[j] == '-'
    &&& forall|k: int| 0 <= k < s.len() && k != i && k != j ==> s[k] != '-'
}

/// The first rule of a date of birth that `s` breaks, if any: three parts
/// separated by dashes, a year, a month and a day that read as numbers of
/// 16, 8 and 8 bits, a year after 1800, and a day that exists.
pub open spec fn birth_date_issue(s: Seq<char>) -> Option<DateIssue> {
    if !(exists|i: int, j: int| dashes_at(s, i, j)) {
        Some(DateIssue::Shape)
    } else {
        let (i, j) = choose|i: int, j: int| dashes_at(s, i, j);
        let year = unsigned_value(s.take(i), 65535);
        let month = unsigned_value(s.subrange(i + 1, j), 255);
        let day = unsigned_value(s.skip(j + 1), 255);
        if year is None {
            Some(DateIssue::InvalidYear)
        } else if month is None {
            Some(DateIssue::InvalidMonth)
        } else if day is None {
            Some(DateIssue::InvalidDay)
        } else if year->0 <= 1800 {
            Some(DateIssue::YearTooEarly)
        } else if read_date(s) is None {
            Some(DateIssue::NoSuchDay)
        } else {
            None
        }
    }
}

/// The characters of a string, one by one.
pub fn chars_of(s: &str) -> (r: Vec<char>)
    ensures
        r@ == s@,
{
    let n = s.unicode_len();
    let mut out: Vec<char> = Vec::new();
    let mut i: usize = 0;
    while i < n
        invariant
            n == s@.len(),
            i <= n,
            out@ == s@.take(i as int),
        decreases n - i,
    {
        out.push(s.get_char(i));
        i += 1;
        assert(out@ =~= s@.take(i as int));
    }
    assert(out@ =~= s@);
    out
}

proof fn lemma_digits_prefix(d: Seq<char>, k: int)
    requires
        all_digits(d),
        0 <= k <= d.len(),
    ensures
        0 <= digits_value(d.take(k)) <= digits_value(d),
    decreases d.len(),
{
    if k == d.len() {
        assert(d.take(k) =~= d);
        if d.len() > 0 {
            lemma_digits_prefix(d.drop_last(), 0);
            assert(is_digit(d[d.len() - 1]));
        } else {
        }
    } else {
        lemma_digits_prefix(d.drop_last(), k);
        assert(d.drop_last().take(k) =~= d.take(k));
        assert(is_digit(d[d.len() - 1]));
        lemma_digits_prefix(d.drop_last(), d.len() - 1);
        assert(d.drop_last().take(d.len() - 1) =~= d.drop_last());
    }
}

/// Reads `s[from..to]` as an unsigned number of at most `max`.
pub fn parse_unsigned(s: &Vec<char>, from: usize, to: usize, max: u32) -> (r: Option<u32>)
    requires
        from <= to <= s@.len(),
        max <= 65535,
    ensures
        r matches Some(v) ==> unsigned_value(s@.subrange(from as int, to as int), max as int) == Some(
            v as int,
        ),
        r is None ==> unsigned_value(s@.subrange(from as int, to as int), max as int) is None,
{
    let ghost whole = s@.subrange(from as int, to as int);
    let mut start = from;
    if start < to && s[start] == '+' {
        start = start + 1;
    }
    let ghost d = s@.subrange(start as int, to as int);
    assert(d =~= (if whole.len() > 0 && whole[0] == '+' {
        whole.drop_first()
    } else {
        whole
    }));
    assert(unsigned_value(whole, max as int) == (if d.len() > 0 && all_digits(d) && digits_value(d)
        <= max {
        Some(digits_value(d))
    } else {
        None
    }));
    if start == to {
        return None;
    }
    let mut acc: u32 = 0;
    let mut i = start;
    while i < to
        invariant
            from <= start <= i <= to <= s@.len(),
            start < to,
            d == s@.subrange(start as int, to as int),
            whole == s@.subrange(from as int, to as int),
            unsigned_value(whole, max as int) == (if d.len() > 0 && all_digits(d) && digits_value(d)
                <= max {
                Some(digits_value(d))
            } else {
                None
            }),
            all_digits(d.take(i - start)),
            acc as int == digits_value(d.take(i - start)),
            acc <= max,
            max <= 65535,
        decreases to - i,
    {
        let c = s[i];
        if !('0' <= c && c <= '9') {
            assert(!is_digit(d[i - start]));
            return None;
        }
        let ghost before = d.take(i - start);
        let ghost after = d.take(i - start + 1);
        assert(after.drop_last() =~= before);
        assert(after.last() == c);
        let v = (c as u32) - ('0' as u32);
        acc = acc * 10 + v;
        i = i + 1;
        assert(all_digits(d.take(i - start))) by {
            assert forall|k: int| 0 <= k < d.take(i - start).len() implies is_digit(
                #[trigger] d.take(i - start)[k],
            ) by {
                if k < before.len() {
                    assert(d.take(i - start)[k] == before[k]);
                }
            }
        }
        if acc > max {
            proof {
                if all_digits(d) {
                    lemma_digits_prefix(d, i - start);
                }
            }
            return None;
        }
    }
    assert(d.take(i - start) =~= d);
    Some(acc)
}

/// Checks a submitted date of birth against every rule that
/// `birth_date_issue` lists, and reports the first one it breaks.
pub fn check_birth_date(s: &str) -> (r: Result<(), CosiError>)
    ensures
        r is Ok <==> birth_date_issue(s@) is None,
        r matches Err(e) ==> birth_date_issue(s@) matches Some(issue) && e == CosiError::Validation(
            issue,
        ),
{
    let cs = chars_of(s);
    let n = cs.len();
    let mut first: usize = 0;
    let mut second: usize = 0;
    let mut found: usize = 0;
    let mut k: usize = 0;
    while k < n
        invariant
            n == cs@.len(),
            cs@ == s@,
            k <= n,
            found <= 2,
            found >= 1 ==> first < k && cs@[first as int] == '-',
            found >= 2 ==> first < second < k && cs@[second as int] == '-',
            forall|q: int|
                0 <= q < k && cs@[q] == '-' ==> (found >= 1 && q == first) || (found >= 2 && q
                    == second),
        decreases n - k,
    {
        if cs[k] == '-' {
            if found == 0 {
                first = k;
                found = 1;
            } else if found == 1 {
                second = k;
                found = 2;
            } else {
                assert forall|i: int, j: int| !dashes_at(s@, i, j) by {
                    if dashes_at(s@, i, j) {
                        assert(s@[k as int] == '-');
                        assert(s@[first as int] == '-');
                        assert(s@[second as int] == '-');
                    }
                }
                return Err(CosiError::Validation(DateIssue::Shape));
            }
        }
        k += 1;
    }
    if found < 2 {
        assert forall|i: int, j: int| !dashes_at(s@, i, j) by {
            if dashes_at(s@, i, j) {
                assert(s@[i] == '-');
                assert(s@[j] == '-');
            }
        }
        return Err(CosiError::Validation(DateIssue::Shape));
    }
    assert(dashes_at(s@, first as int, second as int));
    proof {
        let (i, j) = choose|i: int, j: int| dashes_at(s@, i, j);
        assert(s@[i] == '-');
        assert(s@[j] == '-');
        assert(i == first && j == second);
    }
    let year = parse_unsigned(&cs, 0, first, 65535);
    assert(s@.subrange(0, first as int) =~= s@.take(first as int));
    let month = parse_unsigned(&cs, first + 1, second, 255);
    let day = parse_unsigned(&cs, second + 1, n, 255);
    assert(s@.subrange(second + 1, n as int) =~= s@.skip(second + 1));
    match year {
        None => return Err(CosiError::Validation(DateIssue::InvalidYear)),
        Some(y) => {
            if month.is_none() {
                return Err(CosiError::Validation(DateIssue::InvalidMonth));
            }
            if day.is_none() {
                return Err(CosiError::Validation(DateIssue::InvalidDay));
            }
            if y <= 1800 {
                return Err(CosiError::Validation(DateIssue::YearTooEarly));
            }
        },
    }
    match Date::parse(s) {
        Ok(_) => Ok(()),
        Err(_) => Err(CosiError::Validation(DateIssue::NoSuchDay)),
    }
}

} // verus!
