//! Text helpers shared by the codecs: string comparison, message assembly and
//! decimal rendering of integers.

use vstd::prelude::*;

verus! {

/// Compares two string slices with `<str as PartialEq>::eq`.
///
/// Trusted: std documents that string slices are equal exactly when their
/// contents are equal, which is what the `ensures` claims.
#[verifier::external_body]
pub(crate) fn str_eq(left: &str, right: &str) -> (equal: bool)
    ensures
        equal == (left@ == right@),
{
    left == right
}

/// The decimal digit character for `digit`.
pub open spec fn digit_char(digit: nat) -> char
    recommends
        digit < 10,
{
    if digit == 0 { '0' }
    else if digit == 1 { '1' }
    else if digit == 2 { '2' }
    else if digit == 3 { '3' }
    else if digit == 4 { '4' }
    else if digit == 5 { '5' }
    else if digit == 6 { '6' }
    else if digit == 7 { '7' }
    else if digit == 8 { '8' }
    else { '9' }
}

/// The decimal rendering of `n`, most significant digit first, without
/// leading zeros (zero renders as `"0"`).
pub open spec fn decimal_text(n: nat) -> Seq<char>
    decreases n,
{
    if n < 10 {
        seq![digit_char(n)]
    } else {
        decimal_text(n / 10).push(digit_char(n % 10))
    }
}

fn digit_to_str(digit: u64) -> (text: &'static str)
    requires
        digit < 10,
    ensures
        text@ == seq![digit_char(digit as nat)],
{
    proof {
        reveal_strlit("0");
        reveal_strlit("1");
        reveal_strlit("2");
        reveal_strlit("3");
        reveal_strlit("4");
        reveal_strlit("5");
        reveal_strlit("6");
        reveal_strlit("7");
        reveal_strlit("8");
        reveal_strlit("9");
    }
    if digit == 0 { "0" }
    else if digit == 1 { "1" }
    else if digit == 2 { "2" }
    else if digit == 3 { "3" }
    else if digit == 4 { "4" }
    else if digit == 5 { "5" }
    else if digit == 6 { "6" }
    else if digit == 7 { "7" }
    else if digit == 8 { "8" }
    else { "9" }
}

/// Renders `n` in decimal.
pub fn u64_to_decimal(n: u64) -> (text: String)
    ensures
        text@ == decimal_text(n as nat),
    decreases n,
{
    let digit = digit_to_str(n % 10);
    if n < 10 {
        digit.to_owned()
    } else {
        let mut text = u64_to_decimal(n / 10);
        text.append(digit);
        text
    }
}

/// Renders `n` in decimal, with a leading `-` when it is negative.
pub open spec fn signed_decimal_text(n: int) -> Seq<char> {
    if n < 0 {
        seq!['-'] + decimal_text((-n) as nat)
    } else {
        decimal_text(n as nat)
    }
}

/// Renders `n` in decimal, with a leading `-` when it is negative.
pub fn i64_to_decimal(n: i64) -> (text: String)
    ensures
        text@ == signed_decimal_text(n as int),
{
    if n < 0 {
        let magnitude: u64 = if n == i64::MIN {
            9223372036854775808u64
        } else {
            (-n) as u64
        };
        let digits = u64_to_decimal(magnitude);
        let mut text = "-".to_owned();
        text.append(digits.as_str());
        proof {
            reveal_strlit("-");
        }
        text
    } else {
        u64_to_decimal(n as u64)
    }
}

/// No two entries of `pairs` share a key, as in a map.
pub open spec fn keys_distinct(pairs: Seq<(String, String)>) -> bool {
    forall|i: int, j: int| 0 <= i < j < pairs.len() ==> pairs[i].0@ != pairs[j].0@
}

/// The value `pairs` (key, value entries) gives `key`: that of the first
/// entry with it.
pub open spec fn pair_lookup(pairs: Seq<(String, String)>, key: Seq<char>) -> Option<String>
    decreases pairs.len(),
{
    if pairs.len() == 0 {
        None
    } else {
        match pair_lookup(pairs.drop_last(), key) {
            Some(value) => Some(value),
            None => if pairs.last().0@ == key {
                Some(pairs.last().1)
            } else {
                None
            },
        }
    }
}

/// In entries whose keys are distinct, every entry's key looks up that
/// entry's value.
pub proof fn lemma_pair_lookup_distinct(pairs: Seq<(String, String)>, i: int)
    requires
        keys_distinct(pairs),
        0 <= i < pairs.len(),
    ensures
        pair_lookup(pairs, pairs[i].0@) == Some(pairs[i].1),
    decreases pairs.len(),
{
    let key = pairs[i].0@;
    if i < pairs.len() - 1 {
        let shorter = pairs.drop_last();
        assert forall|a: int, b: int| 0 <= a < b < shorter.len() implies shorter[a].0@ != shorter[b].0@ by {
            assert(shorter[a] == pairs[a] && shorter[b] == pairs[b]);
        }
        assert(shorter[i] == pairs[i]);
        lemma_pair_lookup_distinct(shorter, i);
    } else {
        lemma_pair_lookup_absent(pairs.drop_last(), key);
    }
}

proof fn lemma_pair_lookup_absent(pairs: Seq<(String, String)>, key: Seq<char>)
    requires
        forall|j: int| 0 <= j < pairs.len() ==> #[trigger] pairs[j].0@ != key,
    ensures
        pair_lookup(pairs, key) is None,
    decreases pairs.len(),
{
    if pairs.len() > 0 {
        let shorter = pairs.drop_last();
        assert forall|j: int| 0 <= j < shorter.len() implies #[trigger] shorter[j].0@ != key by {
            assert(shorter[j] == pairs[j]);
        }
        lemma_pair_lookup_absent(shorter, key);
        assert(pairs[pairs.len() - 1].0@ != key);
    }
}

proof fn lemma_pair_lookup_extends(pairs: Seq<(String, String)>, key: Seq<char>, count: int, value: String)
    requires
        0 <= count <= pairs.len(),
        pair_lookup(pairs.take(count), key) == Some(value),
    ensures
        pair_lookup(pairs, key) == Some(value),
    decreases pairs.len() - count,
{
    if count < pairs.len() {
        assert(pairs.take(count + 1).drop_last() =~= pairs.take(count));
        lemma_pair_lookup_extends(pairs, key, count + 1, value);
    } else {
        assert(pairs.take(count) =~= pairs);
    }
}

/// The value of the first entry of `pairs` with `key`, copied.
pub fn find_pair(pairs: &Vec<(String, String)>, key: &str) -> (found: Option<String>)
    ensures
        found == pair_lookup(pairs@, key@),
{
    let mut index: usize = 0;
    while index < pairs.len()
        invariant
            index <= pairs@.len(),
            pair_lookup(pairs@.take(index as int), key@) is None,
        decreases pairs.len() - index,
    {
        assert(pairs@.take(index + 1).drop_last() =~= pairs@.take(index as int));
        if str_eq(pairs[index].0.as_str(), key) {
            proof {
                lemma_pair_lookup_extends(pairs@, key@, index + 1, pairs@[index as int].1);
            }
            return Some(pairs[index].1.clone());
        }
        index = index + 1;
    }
    assert(pairs@.take(pairs@.len() as int) =~= pairs@);
    None
}

/// A character with the Unicode `White_Space` property.
pub open spec fn is_white_space(c: char) -> bool {
    let n = c as u32;
    ||| 0x9 <= n <= 0xD
    ||| n == 0x20
    ||| n == 0x85
    ||| n == 0xA0
    ||| n == 0x1680
    ||| 0x2000 <= n <= 0x200A
    ||| n == 0x2028
    ||| n == 0x2029
    ||| n == 0x202F
    ||| n == 0x205F
    ||| n == 0x3000
}

/// `text` without its leading white space.
pub open spec fn trim_start_text(text: Seq<char>) -> Seq<char>
    decreases text.len(),
{
    if text.len() > 0 && is_white_space(text[0]) {
        trim_start_text(text.drop_first())
    } else {
        text
    }
}

/// `text` without its trailing white space.
pub open spec fn trim_end_text(text: Seq<char>) -> Seq<char>
    decreases text.len(),
{
    if text.len() > 0 && is_white_space(text.last()) {
        trim_end_text(text.drop_last())
    } else {
        text
    }
}

/// `text` without its leading and trailing white space.
pub open spec fn trimmed_text(text: Seq<char>) -> Seq<char> {
    trim_end_text(trim_start_text(text))
}

/// Trims white space from both ends with `str::trim`.
///
/// Trusted: std documents `trim` as returning `text` with its leading and
/// trailing white space removed, white space being the characters with the
/// Unicode `White_Space` property; the `ensures` states exactly that.
#[verifier::external_body]
pub(crate) fn str_trim(text: &str) -> (trimmed: &str)
    ensures
        trimmed@ == trimmed_text(text@),
{
    text.trim()
}

/// Digits name distinct characters.
pub proof fn lemma_digit_char_injective(a: nat, b: nat)
    requires
        a < 10,
        b < 10,
        digit_char(a) == digit_char(b),
    ensures
        a == b,
{
}

/// A decimal rendering has at least one digit, and at least two from ten on.
pub proof fn lemma_decimal_text_len(n: nat)
    ensures
        decimal_text(n).len() >= 1,
        n >= 10 ==> decimal_text(n).len() >= 2,
    decreases n,
{
    if n >= 10 {
        lemma_decimal_text_len(n / 10);
    }
}

/// Distinct numbers render as distinct decimal texts.
pub proof fn lemma_decimal_text_injective(a: nat, b: nat)
    requires
        decimal_text(a) == decimal_text(b),
    ensures
        a == b,
    decreases a,
{
    lemma_decimal_text_len(a);
    lemma_decimal_text_len(b);
    if a < 10 && b < 10 {
        assert(decimal_text(a) == seq![digit_char(a)]);
        assert(decimal_text(b) == seq![digit_char(b)]);
        assert(seq![digit_char(a)][0] == digit_char(a));
        assert(seq![digit_char(b)][0] == digit_char(b));
        assert(digit_char(a) == digit_char(b));
        lemma_digit_char_injective(a, b);
    } else if a >= 10 && b >= 10 {
        let da = decimal_text(a);
        let db = decimal_text(b);
        assert(da.last() == db.last());
        assert(digit_char(a % 10) == digit_char(b % 10));
        lemma_digit_char_injective(a % 10, b % 10);
        assert(da.drop_last() == decimal_text(a / 10));
        assert(db.drop_last() == decimal_text(b / 10));
        lemma_decimal_text_injective(a / 10, b / 10);
    } else if a < 10 {
        assert(decimal_text(a).len() == 1);
    } else {
        assert(decimal_text(b).len() == 1);
    }
}

} // verus!
