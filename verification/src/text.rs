//! Small text utilities with exact specifications over `Seq<char>`.

use vstd::prelude::*;
use vstd::string::*;

verus! {

/// The decimal digit character for `d` (`d < 10`).
pub open spec fn digit_char(d: nat) -> char {
    if d == 0 { '0' }
    else if d == 1 { '1' }
    else if d == 2 { '2' }
    else if d == 3 { '3' }
    else if d == 4 { '4' }
    else if d == 5 { '5' }
    else if d == 6 { '6' }
    else if d == 7 { '7' }
    else if d == 8 { '8' }
    else { '9' }
}

/// The canonical decimal rendering of `n`, without leading zeros.
pub open spec fn decimal(n: nat) -> Seq<char>
    decreases n,
{
    if n < 10 {
        seq![digit_char(n)]
    } else {
        decimal(n / 10).push(digit_char(n % 10))
    }
}

fn digit_str(d: u8) -> (s: &'static str)
    requires
        d < 10,
    ensures
        s@ == seq![digit_char(d as nat)],
{
    proof {
        reveal_strlit("0");
        reveal_strlit("1");
        reveal_strlit("2");
        reveal_strlit("3");
        reveal_strlit("4");
        reveal_strlit("5");
        reveal_strlit("6");
        reveal_strlit("7");
        reveal_strlit("8");
        reveal_strlit("9");
    }
    if d == 0 { "0" }
    else if d == 1 { "1" }
    else if d == 2 { "2" }
    else if d == 3 { "3" }
    else if d == 4 { "4" }
    else if d == 5 { "5" }
    else if d == 6 { "6" }
    else if d == 7 { "7" }
    else if d == 8 { "8" }
    else { "9" }
}

/// Renders a number in decimal, as `ToString` does for unsigned integers.
pub fn u64_to_decimal(n: u64) -> (s: String)
    ensures
        s@ == decimal(n as nat),
{
    let mut rest = n;
    let mut tail = String::new();
    while rest >= 10
        invariant
            decimal(n as nat) == decimal(rest as nat) + tail@,
        decreases rest,
    {
        let digit = (rest % 10) as u8;
        tail = String::from_str(digit_str(digit)).concat(tail.as_str());
        proof {
            assert(decimal(rest as nat) == decimal((rest / 10) as nat).push(digit_char((rest % 10) as nat)));
            assert(decimal((rest / 10) as nat) + seq![digit_char((rest % 10) as nat)] + (tail@.skip(1))
                =~= decimal((rest / 10) as nat) + tail@);
        }
        rest = rest / 10;
    }
    String::from_str(digit_str(rest as u8)).concat(tail.as_str())
}

/// Renders a byte as a decimal number, as `u8::to_string` does.
pub fn u8_to_decimal(n: u8) -> (s: String)
    ensures
        s@ == decimal(n as nat),
{
    u64_to_decimal(n as u64)
}

} // verus!

verus! {

/// `a: b`, the way the backend's error code and message are shown together.
pub open spec fn colon_joined(a: Seq<char>, b: Seq<char>) -> Seq<char> {
    a + ": "@ + b
}

/// Joins an error code and its message as `code: message`.
pub fn colon_join(a: &str, b: &str) -> (s: String)
    ensures
        s@ == colon_joined(a@, b@),
{
    let s = String::from_str(a);
    let s = s.concat(": ");
    s.concat(b)
}

/// Whether some element of `items` reads exactly `name`.
pub open spec fn contains_text(items: Seq<String>, name: Seq<char>) -> bool {
    exists|i: int| 0 <= i < items.len() && #[trigger] items[i]@ == name
}

/// Exact membership test of a string in a list of strings.
pub fn contains_str(items: &Vec<String>, name: &str) -> (r: bool)
    ensures
        r == contains_text(items@, name@),
{
    let target = String::from_str(name);
    let mut i: usize = 0;
    while i < items.len()
        invariant
            i <= items@.len(),
            target@ == name@,
            forall|j: int| 0 <= j < i ==> #[trigger] items@[j]@ != name@,
        decreases items@.len() - i,
    {
        if items[i] == target {
            return true;
        }
        i = i + 1;
    }
    false
}

} // verus!
