//! The lines that a build prints: one for every file that was loaded, one
//! when the image was read back and found valid.

use vstd::prelude::*;
use vstd::string::StringExecFns;

verus! {

/// The character of a decimal digit.
pub open spec fn spec_digit(d: nat) -> char {
    if d == 0 {
        '0'
    } else if d == 1 {
        '1'
    } else if d == 2 {
        '2'
    } else if d == 3 {
        '3'
    } else if d == 4 {
        '4'
    } else if d == 5 {
        '5'
    } else if d == 6 {
        '6'
    } else if d == 7 {
        '7'
    } else if d == 8 {
        '8'
    } else {
        '9'
    }
}

/// A number in decimal notation, without sign, separators or leading zeros.
pub open spec fn spec_decimal(n: nat) -> Seq<char>
    decreases n,
{
    if n < 10 {
        seq![spec_digit(n)]
    } else {
        spec_decimal(n / 10).push(spec_digit(n % 10))
    }
}

/// The progress line of a file that was loaded.
pub open spec fn spec_loaded_line(name: Seq<char>, path: Seq<char>, bytes: nat) -> Seq<char> {
    "loaded "@ + name + " file from "@ + path + "("@ + spec_decimal(bytes) + " bytes)"@
}

/// The line that confirms an image.
pub open spec fn spec_valid_line(target: Seq<char>) -> Seq<char> {
    "block file "@ + target + " is valid!"@
}

/// The text of one decimal digit.
fn digit_text(d: u64) -> (text: &'static str)
    requires
        d < 10,
    ensures
        text@ == seq![spec_digit(d as nat)],
{
    proof {
        reveal_strlit("0");
        reveal_strlit("1");
        reveal_strlit("2");
        reveal_strlit("3");
        reveal_strlit("4");
        reveal_strlit("5");
        reveal_strlit("6");
        reveal_strlit("7");
        reveal_strlit("8");
        reveal_strlit("9");
    }
    let text = if d == 0 {
        "0"
    } else if d == 1 {
        "1"
    } else if d == 2 {
        "2"
    } else if d == 3 {
        "3"
    } else if d == 4 {
        "4"
    } else if d == 5 {
        "5"
    } else if d == 6 {
        "6"
    } else if d == 7 {
        "7"
    } else if d == 8 {
        "8"
    } else {
        "9"
    };
    assert(text@ =~= seq![spec_digit(d as nat)]);
    text
}

/// Writes a number in decimal notation.
pub fn decimal(n: u64) -> (text: String)
    ensures
        text@ == spec_decimal(n as nat),
    decreases n,
{
    if n < 10 {
        String::from_str(digit_text(n))
    } else {
        let mut text = decimal(n / 10);
        text.append(digit_text(n % 10));
        assert(text@ =~= spec_decimal(n as nat));
        text
    }
}

/// The progress line of a file that was loaded: its name, the path it was
/// read from and the number of bytes copied.
pub fn loaded_line(name: &str, path: &str, bytes: u64) -> (line: String)
    ensures
        line@ == spec_loaded_line(name@, path@, bytes as nat),
{
    let mut line = String::from_str("loaded ");
    line.append(name);
    line.append(" file from ");
    line.append(path);
    line.append("(");
    let count = decimal(bytes);
    line.append(count.as_str());
    line.append(" bytes)");
    line
}

/// The line that confirms the image at `target`.
pub fn valid_line(target: &str) -> (line: String)
    ensures
        line@ == spec_valid_line(target@),
{
    let mut line = String::from_str("block file ");
    line.append(target);
    line.append(" is valid!");
    line
}

} // verus!
