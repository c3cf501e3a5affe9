//! The platform command that force-terminates a process tree.

use vstd::prelude::*;
use crate::text::views;

verus! {

/// Which of the two platform families the host runs on.
#[derive(Clone, Copy, Debug, PartialEq, Eq, Structural)]
pub enum Platform {
    Windows,
    Unix,
}

/// The character of a decimal digit.
pub open spec fn digit_char(d: nat) -> char {
    if d == 0 {
        '0'
    } else if d == 1 {
        '1'
    } else if d == 2 {
        '2'
    } else if d == 3 {
        '3'
    } else if d == 4 {
        '4'
    } else if d == 5 {
        '5'
    } else if d == 6 {
        '6'
    } else if d == 7 {
        '7'
    } else if d == 8 {
        '8'
    } else {
        '9'
    }
}

/// The decimal notation of `n`, most significant digit first, without leading zeros.
pub open spec fn decimal(n: nat) -> Seq<char>
    decreases n,
{
    if n < 10 {
        seq![digit_char(n)]
    } else {
        decimal(n / 10).push(digit_char(n % 10))
    }
}

/// The program that kills a process tree on `platform`.
pub open spec fn kill_program(platform: Platform) -> Seq<char> {
    match platform {
        Platform::Windows => "taskkill"@,
        Platform::Unix => "kill"@,
    }
}

/// Its arguments: on Windows the pid with the tree and force flags; elsewhere
/// the kill signal sent to the negated pid, that is to the process group.
pub open spec fn kill_args(platform: Platform, pid: u32) -> Seq<Seq<char>> {
    match platform {
        Platform::Windows => seq!["/PID"@, decimal(pid as nat), "/T"@, "/F"@],
        Platform::Unix => seq!["-KILL"@, seq!['-'] + decimal(pid as nat)],
    }
}

/// A program and its arguments.
pub struct KillCommand {
    pub program: String,
    pub args: Vec<String>,
}

fn digit_str(d: u32) -> (r: &'static str)
    requires
        d < 10,
    ensures
        r@ == seq![digit_char(d as nat)],
{
    proof {
        reveal_strlit("0");
        reveal_strlit("1");
        reveal_strlit("2");
        reveal_strlit("3");
        reveal_strlit("4");
        reveal_strlit("5");
        reveal_strlit("6");
        reveal_strlit("7");
        reveal_strlit("8");
        reveal_strlit("9");
    }
    if d == 0 {
        "0"
    } else if d == 1 {
        "1"
    } else if d == 2 {
        "2"
    } else if d == 3 {
        "3"
    } else if d == 4 {
        "4"
    } else if d == 5 {
        "5"
    } else if d == 6 {
        "6"
    } else if d == 7 {
        "7"
    } else if d == 8 {
        "8"
    } else {
        "9"
    }
}

/// The decimal notation of `n`.
pub fn to_decimal(n: u32) -> (r: String)
    ensures
        r@ == decimal(n as nat),
{
    let mut acc = String::from_str(digit_str(n % 10));
    let mut rest: u32 = n / 10;
    while rest > 0
        invariant
            decimal(n as nat) == (if rest == 0 {
                Seq::<char>::empty()
            } else {
                decimal(rest as nat)
            }) + acc@,
        decreases rest,
    {
        let d = String::from_str(digit_str(rest % 10));
        let ghost old_acc = acc@;
        acc = d.concat(acc.as_str());
        proof {
            let r = rest as nat;
            assert(decimal(r) == (if r / 10 == 0 {
                Seq::<char>::empty()
            } else {
                decimal(r / 10)
            }) + seq![digit_char(r % 10)]);
            assert(decimal(n as nat) == (if r / 10 == 0 {
                Seq::<char>::empty()
            } else {
                decimal(r / 10)
            }) + (seq![digit_char(r % 10)] + old_acc));
        }
        rest = rest / 10;
    }
    proof {
        assert(Seq::<char>::empty() + acc@ =~= acc@);
    }
    acc
}

/// The command that force-terminates the process tree of `pid` on `platform`.
pub fn kill_command(platform: Platform, pid: u32) -> (r: KillCommand)
    ensures
        r.program@ == kill_program(platform),
        views(r.args@) == kill_args(platform, pid),
{
    let digits = to_decimal(pid);
    let mut args: Vec<String> = Vec::new();
    match platform {
        Platform::Windows => {
            args.push(String::from_str("/PID"));
            args.push(digits);
            args.push(String::from_str("/T"));
            args.push(String::from_str("/F"));
            proof {
                assert(views(args@) =~= kill_args(platform, pid));
            }
            KillCommand { program: String::from_str("taskkill"), args }
        },
        Platform::Unix => {
            proof {
                reveal_strlit("-");
            }
            let target = String::from_str("-").concat(digits.as_str());
            assert(target@ == seq!['-'] + decimal(pid as nat));
            args.push(String::from_str("-KILL"));
            args.push(target);
            proof {
                assert(views(args@) =~= kill_args(platform, pid));
            }
            KillCommand { program: String::from_str("kill"), args }
        },
    }
}

} // verus!
