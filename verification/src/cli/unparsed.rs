//! Reading a flag's value from the raw command line, before clap parses
//! it: the help and usage paths need `--output`, `--output-file` and
//! `--color` where no parsed matches exist yet.

use vstd::prelude::*;

use crate::cli::config::starts_with;
use crate::cli::representation::{color_flag_meaning, output_flag_meaning, parse_color_flag, parse_output_mode_flag, ColorPolicy, Representation};
use crate::text::{chars_of, concat, slice_to_vec, string_of, chars_equal};

verus! {

broadcast use vstd::string::group_string_axioms;

/// The value the scan of `args` from position `i` ends with, having found
/// `found` so far: `--flag=VALUE` sets it; `--flag VALUE` sets it when the
/// next argument is a value, and clears it when there is none or the next
/// argument is a flag; `--` ends the scan (clearing a value `--flag` was
/// waiting for). An argument that is not valid UTF-8 (`None`) is skipped.
pub open spec fn scan_flag(args: Seq<Option<String>>, i: int, flag: Seq<char>, found: Option<Seq<char>>) -> Option<Seq<char>>
    decreases args.len() - i,
{
    if i < 0 || i >= args.len() {
        found
    } else {
        match args[i] {
            None => scan_flag(args, i + 1, flag, found),
            Some(a) => {
                let prefix = "--"@ + flag + "="@;
                if a@ == "--"@ {
                    found
                } else if starts_with(a@, prefix) {
                    scan_flag(args, i + 1, flag, Some(a@.skip(prefix.len() as int)))
                } else if a@ == "--"@ + flag {
                    if i + 1 >= args.len() {
                        scan_flag(args, i + 1, flag, None)
                    } else {
                        match args[i + 1] {
                            None => scan_flag(args, i + 1, flag, None),
                            Some(next) => if next@ == "--"@ {
                                None
                            } else if next@.len() > 0 && next@[0] == '-' {
                                scan_flag(args, i + 1, flag, None)
                            } else {
                                scan_flag(args, i + 2, flag, Some(next@))
                            },
                        }
                    }
                } else {
                    scan_flag(args, i + 1, flag, found)
                }
            },
        }
    }
}

/// The last value given to `--flag` on the raw command line `args` (the
/// program name first), before any `--`.
pub fn last_unparsed_flag_value(flag: &str, args: &Vec<Option<String>>) -> (v: Option<String>)
    ensures
        match v {
            Some(s) => scan_flag(args@, 1, flag@, None) == Some(s@),
            None => scan_flag(args@, 1, flag@, None) is None,
        },
{
    let long = concat("--", flag);
    let with_eq = concat(long.as_str(), "=");
    let long_chars = chars_of(long.as_str());
    let prefix = chars_of(with_eq.as_str());
    let dashes = chars_of("--");
    proof {
        reveal_strlit("--");
        reveal_strlit("=");
    }
    if args.len() == 0 {
        return None;
    }
    let mut found: Option<Vec<char>> = None;
    let mut i: usize = 1;
    while i < args.len()
        invariant
            1 <= i <= args@.len(),
            long_chars@ == "--"@ + flag@,
            prefix@ == "--"@ + flag@ + "="@,
            dashes@ == "--"@,
            scan_flag(args@, 1, flag@, None) == scan_flag(args@, i as int, flag@, match found {
                Some(f) => Some(f@),
                None => None,
            }),
        ensures
            scan_flag(args@, 1, flag@, None) == match found {
                Some(f) => Some(f@),
                None => None,
            },
        decreases args@.len() - i,
    {
        match &args[i] {
            None => {
                i = i + 1;
            },
            Some(arg) => {
                let a = chars_of(arg.as_str());
                if chars_equal(&a, &dashes) {
                    break;
                }
                if crate::cli::config::has_prefix(&a, &prefix) {
                    found = Some(slice_to_vec(&a, prefix.len(), a.len()));
                    proof {
                        assert(found->0@ =~= a@.skip(prefix@.len() as int));
                    }
                    i = i + 1;
                } else if chars_equal(&a, &long_chars) {
                    if i + 1 >= args.len() {
                        found = None;
                        i = i + 1;
                    } else {
                        match &args[i + 1] {
                            None => {
                                found = None;
                                i = i + 1;
                            },
                            Some(next) => {
                                let n = chars_of(next.as_str());
                                if chars_equal(&n, &dashes) {
                                    found = None;
                                    break;
                                } else if n.len() > 0 && n[0] == '-' {
                                    found = None;
                                    i = i + 1;
                                } else {
                                    found = Some(n);
                                    i = i + 2;
                                }
                            },
                        }
                    }
                } else {
                    i = i + 1;
                }
            },
        }
    }
    match found {
        Some(f) => Some(string_of(&f)),
        None => None,
    }
}


/// `--flag` stands among `args` from position `i` on, before any `--`
/// (arguments that are not valid UTF-8 are skipped).
pub open spec fn flag_present_from(args: Seq<Option<String>>, i: int, flag: Seq<char>) -> bool
    decreases args.len() - i,
{
    if i < 0 || i >= args.len() {
        false
    } else {
        match args[i] {
            None => flag_present_from(args, i + 1, flag),
            Some(a) => if a@ == "--"@ {
                false
            } else if a@ == "--"@ + flag {
                true
            } else {
                flag_present_from(args, i + 1, flag)
            },
        }
    }
}

/// Whether `--flag` was given on the raw command line `args` (the program
/// name first), before any `--`.
pub fn unparsed_flag_is_present(flag: &str, args: &Vec<Option<String>>) -> (b: bool)
    ensures
        b == flag_present_from(args@, 1, flag@),
{
    if args.len() == 0 {
        return false;
    }
    let long = chars_of(concat("--", flag).as_str());
    let dashes = chars_of("--");
    proof {
        reveal_strlit("--");
    }
    let mut i: usize = 1;
    while i < args.len()
        invariant
            1 <= i <= args@.len(),
            long@ == "--"@ + flag@,
            dashes@ == "--"@,
            flag_present_from(args@, 1, flag@) == flag_present_from(args@, i as int, flag@),
        decreases args@.len() - i,
    {
        match &args[i] {
            None => {},
            Some(arg) => {
                let a = chars_of(arg.as_str());
                if chars_equal(&a, &dashes) {
                    return false;
                }
                if chars_equal(&a, &long) {
                    return true;
                }
            },
        }
        i = i + 1;
    }
    false
}

/// The representation the raw command line asks for: the last `--output`
/// value (under the installed flag's name `flag`) when it names one, else
/// `fallback`; `fallback` too when no output flag is installed.
pub fn output_mode_from_unparsed(flag: Option<&str>, args: &Vec<Option<String>>, fallback: Representation) -> (r: Representation)
    ensures
        match flag {
            None => r == fallback,
            Some(f) => match scan_flag(args@, 1, f@, None) {
                Some(v) => match output_flag_meaning(v) {
                    Some(m) => r == m,
                    None => r == fallback,
                },
                None => r == fallback,
            },
        },
{
    match flag {
        None => fallback,
        Some(f) => match last_unparsed_flag_value(f, args) {
            Some(v) => match parse_output_mode_flag(v.as_str()) {
                Some(m) => m,
                None => fallback,
            },
            None => fallback,
        },
    }
}

/// The color policy the raw command line types: the last `--color` value
/// (under the installed flag's name `flag`) when it names one.
pub fn color_from_unparsed(flag: Option<&str>, args: &Vec<Option<String>>) -> (c: Option<ColorPolicy>)
    ensures
        match flag {
            None => c is None,
            Some(f) => match scan_flag(args@, 1, f@, None) {
                Some(v) => c == color_flag_meaning(v),
                None => c is None,
            },
        },
{
    match flag {
        None => None,
        Some(f) => match last_unparsed_flag_value(f, args) {
            Some(v) => parse_color_flag(v.as_str()),
            None => None,
        },
    }
}

} // verus!
