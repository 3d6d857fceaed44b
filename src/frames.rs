//! Names of the files of a zoom series: `out.png` gives `out-000.png`, `out-001.png`, ...
use vstd::prelude::*;
use vstd::string::StrSliceExecFns;
use vstd::string::StringExecFns;
use crate::pairs::{split_at_first, split_pair};

verus! {

/// The decimal digit `d` as a character.
pub open spec fn digit_char(d: nat) -> char {
    (48 + d) as char
}

/// The decimal notation of `n`, without leading zeros.
pub open spec fn decimal(n: nat) -> Seq<char>
    decreases n,
{
    if n < 10 {
        seq![digit_char(n)]
    } else {
        decimal(n / 10).push(digit_char(n % 10))
    }
}

/// The decimal notation of `n`, padded with zeros on the left to at least three digits.
pub open spec fn padded3(n: nat) -> Seq<char> {
    if n < 10 {
        seq!['0', '0'] + decimal(n)
    } else if n < 100 {
        seq!['0'] + decimal(n)
    } else {
        decimal(n)
    }
}

/// The extension of a file-name template: the text after the first `.` up to the next
/// `.`, or to the end.
pub open spec fn extension_of(rest: Seq<char>) -> Seq<char> {
    match split_at_first(rest, '.') {
        Some(p) => p.0,
        None => rest,
    }
}

/// The file of frame `index` for `template`: stem, `-`, the index on three digits, `.`,
/// extension. `None` when the template holds no `.`.
pub open spec fn frame_name(template: Seq<char>, index: nat) -> Option<Seq<char>> {
    match split_at_first(template, '.') {
        None => None,
        Some(p) => Some(p.0 + seq!['-'] + padded3(index) + seq!['.'] + extension_of(p.1)),
    }
}

fn digit_str(d: u32) -> (r: &'static str)
    requires
        d < 10,
    ensures
        r@ == seq![digit_char(d as nat)],
{
    match d {
        0 => {
            proof {
                reveal_strlit("0");
            }
            "0"
        },
        1 => {
            proof {
                reveal_strlit("1");
            }
            "1"
        },
        2 => {
            proof {
                reveal_strlit("2");
            }
            "2"
        },
        3 => {
            proof {
                reveal_strlit("3");
            }
            "3"
        },
        4 => {
            proof {
                reveal_strlit("4");
            }
            "4"
        },
        5 => {
            proof {
                reveal_strlit("5");
            }
            "5"
        },
        6 => {
            proof {
                reveal_strlit("6");
            }
            "6"
        },
        7 => {
            proof {
                reveal_strlit("7");
            }
            "7"
        },
        8 => {
            proof {
                reveal_strlit("8");
            }
            "8"
        },
        _ => {
            proof {
                reveal_strlit("9");
            }
            "9"
        },
    }
}

fn append_decimal(out: &mut String, n: u32)
    ensures
        final(out)@ == old(out)@ + decimal(n as nat),
    decreases n,
{
    if n >= 10 {
        append_decimal(out, n / 10);
    }
    out.append(digit_str(n % 10));
    assert(out@ =~= old(out)@ + decimal(n as nat));
}

/// The file name of frame `index` of a series written after `template`, as in
/// `out.png` and 1 giving `out-001.png`; `None` when `template` has no extension.
pub fn frame_file_name(template: &str, index: u32) -> (r: Option<String>)
    ensures
        frame_name(template@, index as nat) == match r {
            None => None,
            Some(s) => Some(s@),
        },
{
    match split_pair(template, '.') {
        None => None,
        Some((stem, rest)) => {
            let extension = match split_pair(rest, '.') {
                Some((ext, _)) => ext,
                None => rest,
            };
            let mut name = String::from_str(stem);
            name.append("-");
            if index < 10 {
                name.append("00");
            } else if index < 100 {
                name.append("0");
            }
            append_decimal(&mut name, index);
            name.append(".");
            name.append(extension);
            proof {
                reveal_strlit("-");
                reveal_strlit("00");
                reveal_strlit("0");
                reveal_strlit(".");
                assert(name@ =~= stem@ + seq!['-'] + padded3(index as nat) + seq!['.'] + extension@);
            }
            Some(name)
        },
    }
}

} // verus!
