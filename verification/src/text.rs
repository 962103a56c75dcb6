//! Text building blocks: decimal numerals, joined lists and comparisons.

use vstd::prelude::*;
use vstd::string::StringExecFns;

verus! {

/// The character of one decimal digit.
pub open spec fn digit_char(d: int) -> char {
    if d == 0 {
        '0'
    } else if d == 1 {
        '1'
    } else if d == 2 {
        '2'
    } else if d == 3 {
        '3'
    } else if d == 4 {
        '4'
    } else if d == 5 {
        '5'
    } else if d == 6 {
        '6'
    } else if d == 7 {
        '7'
    } else if d == 8 {
        '8'
    } else {
        '9'
    }
}

/// The decimal numeral of a natural number, without leading zeros.
pub open spec fn numeral(n: nat) -> Seq<char>
    decreases n,
{
    if n < 10 {
        seq![digit_char(n as int)]
    } else {
        numeral(n / 10).push(digit_char((n % 10) as int))
    }
}

/// The decimal numeral of an integer: a minus sign before the numeral of
/// the magnitude of a negative number.
pub open spec fn decimal(n: int) -> Seq<char> {
    if n < 0 {
        seq!['-'] + numeral((-n) as nat)
    } else {
        numeral(n as nat)
    }
}

/// The items, each but the last followed by `sep`.
pub open spec fn joined(items: Seq<Seq<char>>, sep: Seq<char>) -> Seq<char>
    decreases items.len(),
{
    if items.len() == 0 {
        Seq::empty()
    } else if items.len() == 1 {
        items[0]
    } else {
        joined(items.drop_last(), sep) + sep + items.last()
    }
}

/// The views of the strings of a vector, in order.
pub open spec fn texts(items: Seq<String>) -> Seq<Seq<char>> {
    items.map_values(|s: String| s@)
}

/// Compares two string slices with `str::eq`: equal exactly when they hold
/// the same characters.
#[verifier::external_body]
pub(crate) fn same_text(a: &str, b: &str) -> (same: bool)
    ensures
        same == (a@ == b@),
{
    a == b
}

/// The text of one decimal digit.
pub fn digit_text(d: u64) -> (t: &'static str)
    requires
        d < 10,
    ensures
        t@ == seq![digit_char(d as int)],
{
    proof {
        reveal_strlit("0");
        reveal_strlit("1");
        reveal_strlit("2");
        reveal_strlit("3");
        reveal_strlit("4");
        reveal_strlit("5");
        reveal_strlit("6");
        reveal_strlit("7");
        reveal_strlit("8");
        reveal_strlit("9");
    }
    let t: &'static str = if d == 0 {
        "0"
    } else if d == 1 {
        "1"
    } else if d == 2 {
        "2"
    } else if d == 3 {
        "3"
    } else if d == 4 {
        "4"
    } else if d == 5 {
        "5"
    } else if d == 6 {
        "6"
    } else if d == 7 {
        "7"
    } else if d == 8 {
        "8"
    } else {
        "9"
    };
    assert(t@ =~= seq![digit_char(d as int)]);
    t
}

/// The decimal numeral of `n`.
pub fn numeral_text(n: u64) -> (t: String)
    ensures
        t@ == numeral(n as nat),
    decreases n,
{
    if n < 10 {
        String::from_str(digit_text(n))
    } else {
        let mut t: String = numeral_text(n / 10);
        t.append(digit_text(n % 10));
        assert(t@ =~= numeral(n as nat));
        t
    }
}

/// The decimal numeral of `n`, with a minus sign if it is negative.
pub fn decimal_text(n: i64) -> (t: String)
    ensures
        t@ == decimal(n as int),
{
    if n < 0 {
        let magnitude: u64 = ((-(n + 1)) as u64) + 1;
        let digits: String = numeral_text(magnitude);
        proof {
            reveal_strlit("-");
        }
        let t: String = String::from_str("-").concat(digits.as_str());
        assert(t@ =~= decimal(n as int));
        t
    } else {
        numeral_text(n as u64)
    }
}

/// A number of hundredths as a decimal fraction with two places.
pub open spec fn two_places(hundredths: nat) -> Seq<char> {
    numeral(hundredths / 100) + seq![
        '.',
        digit_char(((hundredths / 10) % 10) as int),
        digit_char((hundredths % 10) as int),
    ]
}

/// A number of bytes in megabytes of a million bytes, rounded to the
/// nearest hundredth, halves away from zero, with a minus sign before a
/// negative number.
pub open spec fn megabytes(bytes: int) -> Seq<char> {
    if bytes < 0 {
        seq!['-'] + two_places(((-bytes + 5000) / 10000) as nat)
    } else {
        two_places(((bytes + 5000) / 10000) as nat)
    }
}

/// A number of hundredths as a decimal fraction with two places.
pub fn two_places_text(hundredths: u64) -> (t: String)
    ensures
        t@ == two_places(hundredths as nat),
{
    let mut t: String = numeral_text(hundredths / 100);
    proof {
        reveal_strlit(".");
    }
    t.append(".");
    t.append(digit_text((hundredths / 10) % 10));
    t.append(digit_text(hundredths % 10));
    assert(t@ =~= two_places(hundredths as nat));
    t
}

/// A number of bytes in megabytes, with two decimal places.
pub fn megabytes_text(size: i32) -> (t: String)
    ensures
        t@ == megabytes(size as int),
{
    let bytes: i64 = size as i64;
    if bytes < 0 {
        let hundredths: u64 = ((-bytes + 5000) / 10000) as u64;
        let digits: String = two_places_text(hundredths);
        proof {
            reveal_strlit("-");
        }
        let t: String = String::from_str("-").concat(digits.as_str());
        assert(t@ =~= megabytes(size as int));
        t
    } else {
        two_places_text(((bytes + 5000) / 10000) as u64)
    }
}

/// Whether one of `items` holds the characters of `needle`.
pub fn contains_text(items: &Vec<String>, needle: &str) -> (found: bool)
    ensures
        found == texts(items@).contains(needle@),
{
    let mut i: usize = 0;
    while i < items.len()
        invariant
            i <= items.len(),
            forall|k: int| 0 <= k < i ==> texts(items@)[k] != needle@,
        decreases items.len() - i,
    {
        if same_text(items[i].as_str(), needle) {
            assert(texts(items@)[i as int] == needle@);
            return true;
        }
        i = i + 1;
    }
    false
}

/// The strings of `items`, each but the last followed by `sep`.
pub fn join(items: &Vec<String>, sep: &str) -> (t: String)
    ensures
        t@ == joined(texts(items@), sep@),
{
    let mut t: String = String::new();
    let mut i: usize = 0;
    while i < items.len()
        invariant
            i <= items.len(),
            t@ == joined(texts(items@).take(i as int), sep@),
        decreases items.len() - i,
    {
        let ghost before = texts(items@).take(i as int);
        let ghost after = texts(items@).take(i + 1);
        proof {
            assert(after.drop_last() =~= before);
            assert(after.last() == items@[i as int]@);
        }
        if i > 0 {
            t.append(sep);
        }
        t.append(items[i].as_str());
        proof {
            if i == 0 {
                assert(t@ =~= items@[0]@);
            }
        }
        i = i + 1;
    }
    proof {
        assert(texts(items@).take(items.len() as int) =~= texts(items@));
    }
    t
}

} // verus!
