//! The command line of a fleet query.

use vstd::prelude::*;
use vstd::string::StringExecFns;

verus! {

/// The character of one decimal digit.
pub open spec fn digit(d: nat) -> char {
    if d == 0 {
        '0'
    } else if d == 1 {
        '1'
    } else if d == 2 {
        '2'
    } else if d == 3 {
        '3'
    } else if d == 4 {
        '4'
    } else if d == 5 {
        '5'
    } else if d == 6 {
        '6'
    } else if d == 7 {
        '7'
    } else if d == 8 {
        '8'
    } else {
        '9'
    }
}

/// A number in decimal, without sign or leading zeros.
pub open spec fn decimal(n: nat) -> Seq<char>
    decreases n,
{
    if n < 10 {
        seq![digit(n)]
    } else {
        decimal(n / 10).push(digit(n % 10))
    }
}

fn digit_text(d: usize) -> (t: &'static str)
    requires
        d < 10,
    ensures
        t@ =~= seq![digit(d as nat)],
{
    proof {
        reveal_strlit("0");
        reveal_strlit("1");
        reveal_strlit("2");
        reveal_strlit("3");
        reveal_strlit("4");
        reveal_strlit("5");
        reveal_strlit("6");
        reveal_strlit("7");
        reveal_strlit("8");
        reveal_strlit("9");
    }
    if d == 0 {
        "0"
    } else if d == 1 {
        "1"
    } else if d == 2 {
        "2"
    } else if d == 3 {
        "3"
    } else if d == 4 {
        "4"
    } else if d == 5 {
        "5"
    } else if d == 6 {
        "6"
    } else if d == 7 {
        "7"
    } else if d == 8 {
        "8"
    } else {
        "9"
    }
}

/// Writes a number in decimal.
pub fn decimal_text(n: usize) -> (s: String)
    ensures
        s@ == decimal(n as nat),
    decreases n,
{
    if n < 10 {
        String::from_str(digit_text(n))
    } else {
        let mut s = decimal_text(n / 10);
        let last = digit_text(n % 10);
        assert(s@ + last@ =~= s@.push(digit((n % 10) as nat)));
        s.append(last);
        s
    }
}

/// The flag that marks a compound target, or nothing.
pub open spec fn target_flag(compound_target: bool) -> Seq<char> {
    if compound_target {
        "-C"@
    } else {
        ""@
    }
}

/// The shell command that asks the minions matched by `minions` for their
/// grains, as JSON.
pub open spec fn query_command(
    minions: Seq<char>,
    compound_target: bool,
    timeout: nat,
    batchsize: nat,
) -> Seq<char> {
    "salt "@ + target_flag(compound_target) + " '"@ + minions + "' -t "@ + decimal(timeout)
        + " -b "@ + decimal(batchsize)
        + " --out json --static --state-verbose=false grains.items"@
}

/// Writes the shell command of one query.
pub fn salt_command(minions: &str, compound_target: bool, timeout: usize, batchsize: usize) -> (command:
    String)
    ensures
        command@ == query_command(minions@, compound_target, timeout as nat, batchsize as nat),
{
    let mut command = String::from_str("salt ");
    command.append(if compound_target { "-C" } else { "" });
    command.append(" '");
    command.append(minions);
    command.append("' -t ");
    command.append(decimal_text(timeout).as_str());
    command.append(" -b ");
    command.append(decimal_text(batchsize).as_str());
    command.append(" --out json --static --state-verbose=false grains.items");
    command
}

} // verus!
