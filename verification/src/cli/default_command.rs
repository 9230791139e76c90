//! The default command of a naked invocation (`myapp`, `myapp --verbose`:
//! no command named): a resolver's pick is checked against the commands
//! that exist; a static default is taken as it is.

use vstd::prelude::*;

use crate::text::{chars_of, concat, join, join_seq, string_of};

verus! {

broadcast use vstd::string::group_string_axioms;

/// A subcommand's name and the aliases it also answers to.
#[derive(Debug, Clone)]
pub struct CommandNames {
    /// The subcommand's name.
    pub name: String,
    /// Its aliases.
    pub aliases: Vec<String>,
}

/// A default-command resolver named a command the application does not have.
#[derive(Debug, Clone)]
pub struct UnknownDefaultCommand {
    /// The name the resolver returned.
    pub name: String,
    /// The names of the application's commands.
    pub known: Vec<String>,
    /// The application's name.
    pub app: String,
}

/// The text of an unknown-default-command error.
pub open spec fn unknown_default_text(name: Seq<char>, app: Seq<char>, known: Seq<Seq<char>>) -> Seq<char> {
    "default command resolver returned `"@ + name + "`, which is not a command of `"@ + app
        + "`. Known commands: ["@ + join_seq(known, ", "@)
        + "]. Return `None` to decline instead of naming an unknown command."@
}

/// Strings as their texts.
pub open spec fn texts_of(v: Seq<String>) -> Seq<Seq<char>> {
    v.map_values(|s: String| s@)
}

impl UnknownDefaultCommand {
    /// The error as text: the name, the application, and the known commands.
    pub fn message(&self) -> (m: String)
        ensures
            m@ == unknown_default_text(self.name@, self.app@, texts_of(self.known@)),
    {
        let mut parts: Vec<Vec<char>> = Vec::new();
        let mut i: usize = 0;
        while i < self.known.len()
            invariant
                i <= self.known@.len(),
                parts@.map_values(|p: Vec<char>| p@) == texts_of(self.known@).take(i as int),
            decreases self.known@.len() - i,
        {
            let ghost before = parts@;
            parts.push(chars_of(self.known[i].as_str()));
            proof {
                assert(parts@.map_values(|p: Vec<char>| p@) =~= before.map_values(|p: Vec<char>| p@).push(
                    self.known@[i as int]@,
                ));
                assert(texts_of(self.known@).take(i + 1) =~= texts_of(self.known@).take(i as int).push(
                    self.known@[i as int]@,
                ));
            }
            i = i + 1;
        }
        proof {
            assert(texts_of(self.known@).take(self.known@.len() as int) =~= texts_of(self.known@));
        }
        let listed = string_of(&join(&parts, &chars_of(", ")));
        let a = concat("default command resolver returned `", self.name.as_str());
        let b = concat(a.as_str(), "`, which is not a command of `");
        let c = concat(b.as_str(), self.app.as_str());
        let d = concat(c.as_str(), "`. Known commands: [");
        let e = concat(d.as_str(), listed.as_str());
        concat(e.as_str(), "]. Return `None` to decline instead of naming an unknown command.")
    }
}

/// The subcommand answers to `name`, by its name or one of its aliases.
pub open spec fn answers_to(c: CommandNames, name: Seq<char>) -> bool {
    c.name@ == name || exists|j: int| 0 <= j < c.aliases@.len() && c.aliases@[j]@ == name
}

/// Some subcommand answers to `name`.
pub open spec fn is_command(subs: Seq<CommandNames>, name: Seq<char>) -> bool {
    exists|i: int| 0 <= i < subs.len() && answers_to(subs[i], name)
}

/// Whether `c` answers to `name`.
pub(crate) fn answers(c: &CommandNames, name: &String) -> (b: bool)
    ensures
        b == answers_to(*c, name@),
{
    if c.name == *name {
        return true;
    }
    let mut j: usize = 0;
    while j < c.aliases.len()
        invariant
            j <= c.aliases@.len(),
            forall|k: int| 0 <= k < j ==> c.aliases@[k]@ != name@,
        decreases c.aliases@.len() - j,
    {
        if c.aliases[j] == *name {
            return true;
        }
        j = j + 1;
    }
    false
}

/// Accept `name` when a subcommand answers to it; otherwise the error names
/// it, the application, and the subcommands' names.
pub fn check_known_command(subs: &Vec<CommandNames>, app: &str, name: String) -> (r: Result<String, UnknownDefaultCommand>)
    ensures
        is_command(subs@, name@) ==> r == Ok::<String, UnknownDefaultCommand>(name),
        !is_command(subs@, name@) ==> (r matches Err(e) && e.name == name && e.app@ == app@
            && texts_of(e.known@) == subs@.map_values(|c: CommandNames| c.name@)),
{
    let mut i: usize = 0;
    while i < subs.len()
        invariant
            i <= subs@.len(),
            forall|k: int| 0 <= k < i ==> !answers_to(#[trigger] subs@[k], name@),
        decreases subs@.len() - i,
    {
        if answers(&subs[i], &name) {
            return Ok(name);
        }
        i = i + 1;
    }
    let mut known: Vec<String> = Vec::new();
    let mut k: usize = 0;
    while k < subs.len()
        invariant
            k <= subs@.len(),
            texts_of(known@) == subs@.take(k as int).map_values(|c: CommandNames| c.name@),
        decreases subs@.len() - k,
    {
        let ghost before = known@;
        known.push(subs[k].name.clone());
        proof {
            assert(texts_of(known@) =~= texts_of(before).push(subs@[k as int].name@));
            assert(subs@.take(k + 1).map_values(|c: CommandNames| c.name@) =~= subs@.take(k as int).map_values(
                |c: CommandNames| c.name@,
            ).push(subs@[k as int].name@));
        }
        k = k + 1;
    }
    proof {
        assert(subs@.take(subs@.len() as int) =~= subs@);
    }
    Err(UnknownDefaultCommand { name, known, app: app.to_owned() })
}

/// The command a naked invocation runs. When the line named a command,
/// none. Otherwise the resolver's pick (`resolved`, from a resolver that
/// was asked), checked against the subcommands; when it declined or there
/// is none, the static default, if any.
pub fn resolve_default_command(
    named_a_command: bool,
    resolved: Option<String>,
    static_default: Option<&str>,
    subs: &Vec<CommandNames>,
    app: &str,
) -> (r: Result<Option<String>, UnknownDefaultCommand>)
    ensures
        named_a_command ==> r == Ok::<Option<String>, UnknownDefaultCommand>(None),
        !named_a_command ==> match resolved {
            Some(name) => if is_command(subs@, name@) {
                r == Ok::<Option<String>, UnknownDefaultCommand>(Some(name))
            } else {
                r matches Err(e) && e.name == name && e.app@ == app@
                    && texts_of(e.known@) == subs@.map_values(|c: CommandNames| c.name@)
            },
            None => match static_default {
                Some(d) => r matches Ok(Some(n)) && n@ == d@,
                None => r == Ok::<Option<String>, UnknownDefaultCommand>(None),
            },
        },
{
    if named_a_command {
        return Ok(None);
    }
    match resolved {
        Some(name) => match check_known_command(subs, app, name) {
            Ok(n) => Ok(Some(n)),
            Err(e) => Err(e),
        },
        None => match static_default {
            Some(d) => Ok(Some(d.to_owned())),
            None => Ok(None),
        },
    }
}

/// How a parse of the command line went, as far as the default command
/// cares.
#[derive(Debug, Clone, Copy, PartialEq, Eq, Structural)]
pub enum ParseEvent {
    /// The line parsed; whether it named a command.
    Parsed(bool),
    /// The parser refused the line; whether its message belongs on stderr
    /// (a usage error, rather than help or version output).
    Refused(bool),
}

/// What a naked invocation's parse does next.
#[derive(Debug, Clone, Copy, PartialEq, Eq, Structural)]
pub enum ParseStep {
    /// The parse stands as it is.
    Keep,
    /// The parser's refusal is the answer.
    Refuse,
    /// Resolve the default command from the parsed root.
    Resolve,
    /// Parse the line again as a naked invocation (no subcommand required,
    /// errors ignored) and go on from that parse.
    Probe,
}

/// The step after the first parse: a line that named a command stands; a
/// line that parsed without one resolves the default command; a refusal
/// whose message belongs on stdout (help, version) stands; a usage error is
/// probed as a naked invocation when a default command is configured, and
/// stands otherwise.
pub fn step_after_parse(event: ParseEvent, has_default: bool) -> (step: ParseStep)
    ensures
        step == match event {
            ParseEvent::Parsed(named) => if named {
                ParseStep::Keep
            } else {
                ParseStep::Resolve
            },
            ParseEvent::Refused(on_stderr) => if on_stderr && has_default {
                ParseStep::Probe
            } else {
                ParseStep::Refuse
            },
        },
{
    match event {
        ParseEvent::Parsed(named) => if named {
            ParseStep::Keep
        } else {
            ParseStep::Resolve
        },
        ParseEvent::Refused(on_stderr) => if on_stderr && has_default {
            ParseStep::Probe
        } else {
            ParseStep::Refuse
        },
    }
}

/// The step after the probe: a probe that parsed without naming a command
/// resolves the default command from it; otherwise the first refusal
/// stands.
pub fn step_after_probe(probe: ParseEvent) -> (step: ParseStep)
    ensures
        step == (if probe == ParseEvent::Parsed(false) {
            ParseStep::Resolve
        } else {
            ParseStep::Refuse
        }),
{
    match probe {
        ParseEvent::Parsed(named) => if named {
            ParseStep::Refuse
        } else {
            ParseStep::Resolve
        },
        ParseEvent::Refused(_) => ParseStep::Refuse,
    }
}

/// How a naked invocation's parse ends once the default command was
/// resolved.
#[derive(Debug)]
pub enum ParseOutcome {
    /// The first parse stands.
    Keep,
    /// The first parse's refusal stands.
    Refuse,
    /// The resolver named a command the application does not have.
    UnknownDefault(UnknownDefaultCommand),
    /// Parse this line: the given one with the default command's name put
    /// after the program name.
    Reparse(Vec<String>),
}

/// The line with `name` put after the program name (first, for an empty
/// line).
pub open spec fn with_command(args: Seq<String>, name: String) -> Seq<String> {
    args.insert(if args.len() < 1 { args.len() as int } else { 1 }, name)
}

/// `line` is `args` with `name` put right after the program name: the
/// program name stays first, the name comes second, and every other
/// argument follows in its order; for an empty line, the name alone.
pub open spec fn follows_program_name(args: Seq<String>, name: String, line: Seq<String>) -> bool {
    &&& line.len() == args.len() + 1
    &&& args.len() == 0 ==> line == seq![name]
    &&& args.len() > 0 ==> {
        &&& line[0] == args[0]
        &&& line[1] == name
        &&& line.skip(2) == args.skip(1)
    }
}

/// The default command's name goes right after the program name: the
/// program name stays first, the command's name is second, and the rest of
/// the line follows unchanged.
pub proof fn law_default_command_follows_program_name(args: Seq<String>, name: String)
    ensures
        follows_program_name(args, name, with_command(args, name)),
{
    let line = with_command(args, name);
    if args.len() == 0 {
        assert(line =~= seq![name]);
    } else {
        assert(line.skip(2) =~= args.skip(1));
    }
}

/// How the parse ends after resolving: an unknown command is the error; no
/// default keeps the first parse when it parsed and its refusal otherwise;
/// a default command re-parses the line with its name inserted after the
/// program name.
pub fn outcome_after_resolve(parsed: bool, resolution: Result<Option<String>, UnknownDefaultCommand>, args: Vec<String>)
    -> (outcome: ParseOutcome)
    ensures
        match resolution {
            Err(e) => outcome matches ParseOutcome::UnknownDefault(u) && u.name == e.name && u.app == e.app
                && u.known == e.known,
            Ok(None) => if parsed {
                outcome is Keep
            } else {
                outcome is Refuse
            },
            Ok(Some(name)) => outcome matches ParseOutcome::Reparse(line) && line@ == with_command(args@, name),
        },
        resolution matches Ok(Some(name)) ==> (outcome matches ParseOutcome::Reparse(line) && follows_program_name(
            args@,
            name,
            line@,
        )),
{
    match resolution {
        Err(e) => ParseOutcome::UnknownDefault(e),
        Ok(None) => if parsed {
            ParseOutcome::Keep
        } else {
            ParseOutcome::Refuse
        },
        Ok(Some(name)) => {
            proof {
                law_default_command_follows_program_name(args@, name);
            }
            let mut line = args;
            let at = if line.len() < 1 {
                line.len()
            } else {
                1
            };
            line.insert(at, name);
            ParseOutcome::Reparse(line)
        },
    }
}

} // verus!
