//! The flags the framework adds to the application's root command: each
//! one global, under the long name the application chose for it (or left
//! out when it dropped it), with its value placeholder, accepted values,
//! default and help text.

use vstd::prelude::*;

use crate::cli::flag_claims::{
    InstalledFlags, COLOR_ARG, CONFIG_OVERRIDE_ARG, NO_PAGER_ARG, OUTPUT_FILE_ARG, OUTPUT_MODE_ARG,
};
use crate::cli::representation::{output_flag_spelling, output_mode_flag_spelling, Representation};

verus! {

broadcast use vstd::string::group_string_axioms;

/// How a framework flag takes its value.
#[derive(Debug, Clone, Copy, PartialEq, Eq, Structural)]
pub enum ArgTaking {
    /// One value; a later occurrence replaces an earlier one.
    Value,
    /// No value; present means true.
    Presence,
    /// One value per occurrence, all kept.
    Repeated,
}

/// A flag the framework adds, as plain values.
#[derive(Debug, Clone)]
pub struct FrameworkArg {
    /// The argument's id.
    pub id: String,
    /// Its long name.
    pub long: String,
    /// Its value placeholder, when it takes a value.
    pub value_name: Option<String>,
    /// The values it accepts (any when empty).
    pub values: Vec<String>,
    /// Its default value, if any.
    pub default: Option<String>,
    /// How it takes its value.
    pub taking: ArgTaking,
    /// Its help text.
    pub help: String,
}

/// Strings as their texts.
pub open spec fn texts(v: Seq<String>) -> Seq<Seq<char>> {
    v.map_values(|s: String| s@)
}

/// The flag as plain values: id, long name, placeholder, accepted values,
/// default, how it takes its value, help text.
pub open spec fn arg_view(a: FrameworkArg) -> (Seq<char>, Seq<char>, Option<Seq<char>>, Seq<Seq<char>>, Option<Seq<char>>, ArgTaking, Seq<char>) {
    (a.id@, a.long@, match a.value_name {
        Some(v) => Some(v@),
        None => None,
    }, texts(a.values@), match a.default {
        Some(d) => Some(d@),
        None => None,
    }, a.taking, a.help@)
}

/// The `--output` flag under `long`, defaulting to the spelling of the
/// fallback representation when the flag can name it.
pub open spec fn output_arg(long: Seq<char>, fallback: Representation) -> (Seq<char>, Seq<char>, Option<Seq<char>>, Seq<Seq<char>>, Option<Seq<char>>, ArgTaking, Seq<char>) {
    (OUTPUT_MODE_ARG@, long, Some("MODE"@), seq!["json"@, "yaml"@, "csv"@, "ndjson"@, "term-debug"@],
        output_flag_spelling(fallback), ArgTaking::Value, "Structured output encoding"@)
}

/// The `--color` flag under `long`.
pub open spec fn color_arg(long: Seq<char>) -> (Seq<char>, Seq<char>, Option<Seq<char>>, Seq<Seq<char>>, Option<Seq<char>>, ArgTaking, Seq<char>) {
    (COLOR_ARG@, long, Some("WHEN"@), seq!["auto"@, "always"@, "never"@], Some("auto"@), ArgTaking::Value,
        "When to color human output"@)
}

/// The `--no-pager` flag under `long`.
pub open spec fn pager_arg(long: Seq<char>) -> (Seq<char>, Seq<char>, Option<Seq<char>>, Seq<Seq<char>>, Option<Seq<char>>, ArgTaking, Seq<char>) {
    (NO_PAGER_ARG@, long, None, seq![], None, ArgTaking::Presence, "Do not page the output"@)
}

/// The `--output-file` flag under `long`.
pub open spec fn output_file_arg(long: Seq<char>) -> (Seq<char>, Seq<char>, Option<Seq<char>>, Seq<Seq<char>>, Option<Seq<char>>, ArgTaking, Seq<char>) {
    (OUTPUT_FILE_ARG@, long, Some("PATH"@), seq![], None, ArgTaking::Value, "Write output to file instead of stdout"@)
}

/// The configuration override flag under `long`.
pub open spec fn override_arg(long: Seq<char>) -> (Seq<char>, Seq<char>, Option<Seq<char>>, Seq<Seq<char>>, Option<Seq<char>>, ArgTaking, Seq<char>) {
    (CONFIG_OVERRIDE_ARG@, long, Some("KEY=VALUE"@), seq![], None, ArgTaking::Repeated, "Override a configuration value"@)
}

/// The flag, when it is installed.
pub open spec fn when_installed(
    flag: Option<String>,
    make: spec_fn(Seq<char>) -> (Seq<char>, Seq<char>, Option<Seq<char>>, Seq<Seq<char>>, Option<Seq<char>>, ArgTaking, Seq<char>),
) -> Seq<(Seq<char>, Seq<char>, Option<Seq<char>>, Seq<Seq<char>>, Option<Seq<char>>, ArgTaking, Seq<char>)> {
    match flag {
        Some(l) => seq![make(l@)],
        None => seq![],
    }
}

/// The flags the framework adds, in order: `--output`, `--color`,
/// `--no-pager`, `--output-file`, then the configuration override flag;
/// each only when installed.
pub open spec fn framework_arg_list(installed: InstalledFlags, override_flag: Option<String>, fallback: Representation)
    -> Seq<(Seq<char>, Seq<char>, Option<Seq<char>>, Seq<Seq<char>>, Option<Seq<char>>, ArgTaking, Seq<char>)> {
    when_installed(installed.output_flag, |l: Seq<char>| output_arg(l, fallback)) + when_installed(
        installed.color_flag,
        |l: Seq<char>| color_arg(l),
    ) + when_installed(installed.pager_flag, |l: Seq<char>| pager_arg(l)) + when_installed(
        installed.output_file_flag,
        |l: Seq<char>| output_file_arg(l),
    ) + when_installed(override_flag, |l: Seq<char>| override_arg(l))
}

/// Strings of the literals.
fn strings(literals: &[&str]) -> (v: Vec<String>)
    ensures
        texts(v@) == literals@.map_values(|l: &str| l@),
{
    let mut v: Vec<String> = Vec::new();
    let mut i: usize = 0;
    while i < literals.len()
        invariant
            i <= literals@.len(),
            texts(v@) == literals@.take(i as int).map_values(|l: &str| l@),
        decreases literals@.len() - i,
    {
        let piece = literals[i].to_owned();
        let ghost before = v@;
        v.push(piece);
        proof {
            assert(piece@ == literals@[i as int]@);
            assert(texts(v@) =~= texts(before).push(literals@[i as int]@));
            assert(literals@.take(i + 1).map_values(|l: &str| l@) =~= literals@.take(i as int).map_values(
                |l: &str| l@,
            ).push(literals@[i as int]@));
        }
        i = i + 1;
    }
    proof {
        assert(literals@.take(literals@.len() as int) =~= literals@);
    }
    v
}

/// The flags the framework adds to the root command, in order: `--output`
/// (defaulting to the fallback representation's spelling, when the flag can
/// name it), `--color`, `--no-pager`, `--output-file`, then the
/// configuration override flag; each only when installed, and each global.
pub fn framework_args(installed: &InstalledFlags, override_flag: &Option<String>, fallback: Representation) -> (args: Vec<
    FrameworkArg,
>)
    ensures
        args@.map_values(|a: FrameworkArg| arg_view(a)) == framework_arg_list(*installed, *override_flag, fallback),
{
    let mut args: Vec<FrameworkArg> = Vec::new();
    let ghost mut expected: Seq<(Seq<char>, Seq<char>, Option<Seq<char>>, Seq<Seq<char>>, Option<Seq<char>>, ArgTaking, Seq<char>)> = seq![];
    if let Some(long) = &installed.output_flag {
        let values = strings(&["json", "yaml", "csv", "ndjson", "term-debug"]);
        let default = match output_mode_flag_spelling(fallback) {
            Some(s) => Some(s.to_owned()),
            None => None,
        };
        args.push(FrameworkArg {
            id: OUTPUT_MODE_ARG.to_owned(),
            long: long.clone(),
            value_name: Some("MODE".to_owned()),
            values,
            default,
            taking: ArgTaking::Value,
            help: "Structured output encoding".to_owned(),
        });
        proof {
            assert(texts(values@) =~= seq!["json"@, "yaml"@, "csv"@, "ndjson"@, "term-debug"@]);
        }
    }
    proof {
        expected = when_installed(installed.output_flag, |l: Seq<char>| output_arg(l, fallback));
        assert(args@.map_values(|a: FrameworkArg| arg_view(a)) =~= expected);
    }
    if let Some(long) = &installed.color_flag {
        let values = strings(&["auto", "always", "never"]);
        let ghost before = args@;
        args.push(FrameworkArg {
            id: COLOR_ARG.to_owned(),
            long: long.clone(),
            value_name: Some("WHEN".to_owned()),
            values,
            default: Some("auto".to_owned()),
            taking: ArgTaking::Value,
            help: "When to color human output".to_owned(),
        });
        proof {
            assert(texts(values@) =~= seq!["auto"@, "always"@, "never"@]);
            assert(args@.map_values(|a: FrameworkArg| arg_view(a)) =~= before.map_values(|a: FrameworkArg| arg_view(a)).push(
                color_arg(long@),
            ));
        }
    }
    proof {
        expected = expected + when_installed(installed.color_flag, |l: Seq<char>| color_arg(l));
        assert(args@.map_values(|a: FrameworkArg| arg_view(a)) =~= expected);
    }
    if let Some(long) = &installed.pager_flag {
        let ghost before = args@;
        args.push(FrameworkArg {
            id: NO_PAGER_ARG.to_owned(),
            long: long.clone(),
            value_name: None,
            values: Vec::new(),
            default: None,
            taking: ArgTaking::Presence,
            help: "Do not page the output".to_owned(),
        });
        proof {
            assert(texts(Seq::<String>::empty()) =~= Seq::<Seq<char>>::empty());
            assert(args@.map_values(|a: FrameworkArg| arg_view(a)) =~= before.map_values(|a: FrameworkArg| arg_view(a)).push(
                pager_arg(long@),
            ));
        }
    }
    proof {
        expected = expected + when_installed(installed.pager_flag, |l: Seq<char>| pager_arg(l));
        assert(args@.map_values(|a: FrameworkArg| arg_view(a)) =~= expected);
    }
    if let Some(long) = &installed.output_file_flag {
        let ghost before = args@;
        args.push(FrameworkArg {
            id: OUTPUT_FILE_ARG.to_owned(),
            long: long.clone(),
            value_name: Some("PATH".to_owned()),
            values: Vec::new(),
            default: None,
            taking: ArgTaking::Value,
            help: "Write output to file instead of stdout".to_owned(),
        });
        proof {
            assert(texts(Seq::<String>::empty()) =~= Seq::<Seq<char>>::empty());
            assert(args@.map_values(|a: FrameworkArg| arg_view(a)) =~= before.map_values(|a: FrameworkArg| arg_view(a)).push(
                output_file_arg(long@),
            ));
        }
    }
    proof {
        expected = expected + when_installed(installed.output_file_flag, |l: Seq<char>| output_file_arg(l));
        assert(args@.map_values(|a: FrameworkArg| arg_view(a)) =~= expected);
    }
    if let Some(long) = override_flag {
        let ghost before = args@;
        args.push(FrameworkArg {
            id: CONFIG_OVERRIDE_ARG.to_owned(),
            long: long.clone(),
            value_name: Some("KEY=VALUE".to_owned()),
            values: Vec::new(),
            default: None,
            taking: ArgTaking::Repeated,
            help: "Override a configuration value".to_owned(),
        });
        proof {
            assert(texts(Seq::<String>::empty()) =~= Seq::<Seq<char>>::empty());
            assert(args@.map_values(|a: FrameworkArg| arg_view(a)) =~= before.map_values(|a: FrameworkArg| arg_view(a)).push(
                override_arg(long@),
            ));
        }
    }
    proof {
        expected = expected + when_installed(*override_flag, |l: Seq<char>| override_arg(l));
        assert(args@.map_values(|a: FrameworkArg| arg_view(a)) =~= expected);
    }
    args
}

} // verus!
