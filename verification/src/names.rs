//! The names of the files that the store keeps in its directory.
//!
//! The workspace lives in one file. A save first writes a temporary file
//! beside it, and a file that cannot be read is moved aside under a backup
//! name. Both names end in a time stamp, written in decimal.

use vstd::prelude::*;
use vstd::string::*;

verus! {

/// The character of a decimal digit.
pub open spec fn digit_char(d: nat) -> char
    recommends
        d < 10,
{
    if d == 0 {
        '0'
    } else if d == 1 {
        '1'
    } else if d == 2 {
        '2'
    } else if d == 3 {
        '3'
    } else if d == 4 {
        '4'
    } else if d == 5 {
        '5'
    } else if d == 6 {
        '6'
    } else if d == 7 {
        '7'
    } else if d == 8 {
        '8'
    } else {
        '9'
    }
}

/// A number in decimal, without sign or leading zeros.
pub open spec fn decimal(n: nat) -> Seq<char>
    decreases n,
{
    if n < 10 {
        seq![digit_char(n)]
    } else {
        decimal(n / 10).push(digit_char(n % 10))
    }
}

/// The name of the workspace file.
pub open spec fn main_name() -> Seq<char> {
    "workspace.json"@
}

/// The name of the temporary file of a save that began at `millis`.
pub open spec fn temp_name(millis: u128) -> Seq<char> {
    "workspace.json.tmp-"@ + decimal(millis as nat)
}

/// The name under which a corrupt workspace file found at `millis` is kept.
pub open spec fn backup_name(millis: u128) -> Seq<char> {
    "workspace.json.broken-"@ + decimal(millis as nat)
}

/// A decimal has at least one character.
pub proof fn lemma_decimal_nonempty(n: nat)
    ensures
        decimal(n).len() >= 1,
    decreases n,
{
    if n >= 10 {
        lemma_decimal_nonempty(n / 10);
    }
}

/// Neither a temporary file nor a backup ever has the name of the workspace
/// file, and no temporary file has the name of a backup.
pub proof fn lemma_names_differ(a: u128, b: u128)
    ensures
        temp_name(a) != main_name(),
        backup_name(a) != main_name(),
        temp_name(a) != backup_name(b),
{
    reveal_strlit("workspace.json");
    reveal_strlit("workspace.json.tmp-");
    reveal_strlit("workspace.json.broken-");
    lemma_decimal_nonempty(a as nat);
    lemma_decimal_nonempty(b as nat);
    assert(temp_name(a).len() > 14);
    assert(backup_name(a).len() > 14);
    assert(temp_name(a)[15] == 't');
    assert(backup_name(b)[15] == 'b');
}

fn digit_text(d: u8) -> (s: &'static str)
    requires
        d < 10,
    ensures
        s@ == seq![digit_char(d as nat)],
{
    proof {
        reveal_strlit("0");
        reveal_strlit("1");
        reveal_strlit("2");
        reveal_strlit("3");
        reveal_strlit("4");
        reveal_strlit("5");
        reveal_strlit("6");
        reveal_strlit("7");
        reveal_strlit("8");
        reveal_strlit("9");
    }
    let s = if d == 0 {
        "0"
    } else if d == 1 {
        "1"
    } else if d == 2 {
        "2"
    } else if d == 3 {
        "3"
    } else if d == 4 {
        "4"
    } else if d == 5 {
        "5"
    } else if d == 6 {
        "6"
    } else if d == 7 {
        "7"
    } else if d == 8 {
        "8"
    } else {
        "9"
    };
    assert(s@ =~= seq![digit_char(d as nat)]);
    s
}

/// Writes `n` in decimal.
pub fn decimal_text(n: u128) -> (s: String)
    ensures
        s@ == decimal(n as nat),
{
    let mut s: String = digit_text((n % 10) as u8).to_owned();
    let mut rest: u128 = n / 10;
    while rest > 0
        invariant
            decimal(n as nat) == if rest == 0 {
                s@
            } else {
                decimal(rest as nat) + s@
            },
        decreases rest,
    {
        let d = digit_text((rest % 10) as u8);
        let ghost before = s@;
        s = d.to_owned().concat(s.as_str());
        proof {
            let r = rest as nat;
            if r < 10 {
                assert(decimal(r) + before =~= s@);
            } else {
                assert(decimal(r) + before =~= decimal(r / 10) + s@);
            }
        }
        rest = rest / 10;
    }
    s
}

/// The name of the workspace file, `workspace.json`.
pub fn workspace_file_name() -> (name: String)
    ensures
        name@ == main_name(),
{
    "workspace.json".to_owned()
}

/// The name of the temporary file for a save at `millis` milliseconds since
/// the epoch: `workspace.json.tmp-` and the number.
pub fn workspace_temp_path(millis: u128) -> (name: String)
    ensures
        name@ == temp_name(millis),
{
    let digits = decimal_text(millis);
    "workspace.json.tmp-".to_owned().concat(digits.as_str())
}

/// The name that sets a corrupt workspace file aside at `millis`
/// milliseconds since the epoch: `workspace.json.broken-` and the number.
/// It lies in the directory of the workspace file.
pub fn workspace_broken_backup_path(millis: u128) -> (name: String)
    ensures
        name@ == backup_name(millis),
{
    let digits = decimal_text(millis);
    "workspace.json.broken-".to_owned().concat(digits.as_str())
}

} // verus!
