//! What a dispatched handler produced, and the command paths dispatch
//! walks.

use vstd::prelude::*;

use crate::cli::handler::{DispatchResult, RunError, RunErrorKind, RunOutput, SuccessKind};
use crate::text::{chars_of, join_seq, string_of};

verus! {

broadcast use vstd::string::group_string_axioms;

/// What a dispatched handler produced.
#[derive(Debug)]
pub enum DispatchOutput {
    /// Rendered text.
    Text(String),
    /// Binary bytes, and the file name they suggest.
    Binary(Vec<u8>, String),
    /// Nothing to output.
    Silent,
}

/// Strings as their texts.
pub open spec fn segment_texts(v: Seq<String>) -> Seq<Seq<char>> {
    v.map_values(|s: String| s@)
}

/// Appending a character to the last part appends it to the joined text.
proof fn lemma_join_extend_last(parts: Seq<Seq<char>>, last: Seq<char>, c: char, sep: Seq<char>)
    ensures
        join_seq(parts.push(last.push(c)), sep) == join_seq(parts.push(last), sep).push(c),
{
    assert(parts.push(last.push(c)).drop_last() =~= parts);
    assert(parts.push(last).drop_last() =~= parts);
    if parts.len() == 0 {
        assert(parts.push(last.push(c))[0] == last.push(c));
    } else {
        assert((join_seq(parts, sep) + sep + last).push(c) =~= join_seq(parts, sep) + sep + last.push(c));
    }
}

/// Closing the last part and opening an empty one appends the separator.
proof fn lemma_join_new_part(parts: Seq<Seq<char>>, last: Seq<char>, sep: Seq<char>)
    ensures
        join_seq(parts.push(last).push(seq![]), sep) == join_seq(parts.push(last), sep) + sep,
{
    assert(parts.push(last).push(seq![]).drop_last() =~= parts.push(last));
    assert(join_seq(parts.push(last), sep) + sep + Seq::<char>::empty() =~= join_seq(parts.push(last), sep) + sep);
}

/// The pieces of `s` between its dots (one empty piece for the empty text).
pub open spec fn split_dots(s: Seq<char>) -> Seq<Seq<char>>
    decreases s.len(),
{
    if s.len() == 0 {
        seq![seq![]]
    } else {
        let parts = split_dots(s.drop_last());
        if s.last() == '.' {
            parts.push(seq![])
        } else {
            parts.update(parts.len() - 1, parts.last().push(s.last()))
        }
    }
}

/// The segments of a dotted command path: none for the empty path (the
/// root command), otherwise the pieces between its dots.
pub open spec fn path_segments_of(path: Seq<char>) -> Seq<Seq<char>> {
    if path.len() == 0 {
        seq![]
    } else {
        split_dots(path)
    }
}

/// The segments of a dotted command path: none for the empty path (the
/// root command), otherwise the pieces between the dots, which joined with
/// dots give the path back.
pub fn path_segments(path: &str) -> (segments: Vec<String>)
    ensures
        segment_texts(segments@) == path_segments_of(path@),
        path@.len() == 0 ==> segments@.len() == 0,
        path@.len() > 0 ==> join_seq(segment_texts(segments@), "."@) == path@,
        forall|k: int| 0 <= k < segments@.len() ==> !(#[trigger] segments@[k]@).contains('.'),
{
    let chars = chars_of(path);
    let mut segments: Vec<String> = Vec::new();
    if chars.len() == 0 {
        return segments;
    }
    let mut current: Vec<char> = Vec::new();
    let mut i: usize = 0;
    proof {
        reveal_strlit(".");
        assert(segment_texts(segments@).push(current@) =~= seq![Seq::<char>::empty()]);
        assert(chars@.take(0) =~= Seq::<char>::empty());
    }
    while i < chars.len()
        invariant
            i <= chars@.len(),
            "."@ == seq!['.'],
            join_seq(segment_texts(segments@).push(current@), "."@) == chars@.take(i as int),
            segment_texts(segments@).push(current@) == split_dots(chars@.take(i as int)),
            !current@.contains('.'),
            forall|k: int| 0 <= k < segments@.len() ==> !(#[trigger] segments@[k]@).contains('.'),
        decreases chars@.len() - i,
    {
        let c = chars[i];
        let ghost parts = segment_texts(segments@);
        proof {
            assert(chars@.take(i + 1).drop_last() =~= chars@.take(i as int));
            assert(chars@.take(i + 1).last() == c);
        }
        if c == '.' {
            let piece = string_of(&current);
            proof {
                lemma_join_new_part(parts, current@, "."@);
                assert(chars@.take(i + 1) =~= chars@.take(i as int) + "."@);
            }
            segments.push(piece);
            current = Vec::new();
            proof {
                assert(segment_texts(segments@) =~= parts.push(piece@));
                assert(segment_texts(segments@).push(current@) =~= parts.push(piece@).push(seq![]));
            }
        } else {
            let ghost before = current@;
            current.push(c);
            proof {
                lemma_join_extend_last(parts, before, c, "."@);
                assert(chars@.take(i + 1) =~= chars@.take(i as int).push(c));
                assert(parts.push(current@) =~= parts.push(before).update(parts.len() as int, before.push(c)));
                assert forall|k: int| 0 <= k < current@.len() implies current@[k] != '.' by {
                    if k < before.len() {
                        assert(current@[k] == before[k]);
                    }
                }
            }
        }
        i = i + 1;
    }
    let last = string_of(&current);
    let ghost parts = segment_texts(segments@);
    segments.push(last);
    proof {
        assert(segment_texts(segments@) =~= parts.push(current@));
        assert(chars@.take(chars@.len() as int) =~= chars@);
        assert(chars@ == path@);
    }
    segments
}


/// How the command line failed to parse, as clap reported it.
#[derive(Debug, Clone, Copy, PartialEq, Eq, Structural)]
pub enum ParseFailureKind {
    /// A usage error: clap's message belongs on stderr.
    Usage,
    /// `--version`: clap's message is the version.
    DisplayVersion,
    /// `--help` or a missing subcommand: clap's message is its help.
    DisplayHelp,
    /// A default-command resolver named an unknown command.
    UnknownDefault,
}

/// What a run that failed to parse comes to, given the failure's message:
/// a usage error or an unknown default command is a failure of that kind;
/// clap's version or help text is handled output of that kind.
pub fn parse_failure_outcome(kind: ParseFailureKind, message: &str) -> (r: DispatchResult)
    ensures
        match kind {
            ParseFailureKind::Usage => r matches DispatchResult::Error(e) && e.kind == RunErrorKind::ClapUsage
                && e.message@ == message@ && e.source is None,
            ParseFailureKind::UnknownDefault => r matches DispatchResult::Error(e)
                && e.kind == RunErrorKind::DefaultCommand && e.message@ == message@ && e.source is None,
            ParseFailureKind::DisplayVersion => r matches DispatchResult::Handled(o)
                && o.kind == SuccessKind::ClapVersion && o.text@ == message@ && !o.warnings_included,
            ParseFailureKind::DisplayHelp => r matches DispatchResult::Handled(o)
                && o.kind == SuccessKind::ClapHelp && o.text@ == message@ && !o.warnings_included,
        },
{
    match kind {
        ParseFailureKind::Usage => DispatchResult::Error(RunError::new(message, RunErrorKind::ClapUsage)),
        ParseFailureKind::UnknownDefault => DispatchResult::Error(RunError::new(message, RunErrorKind::DefaultCommand)),
        ParseFailureKind::DisplayVersion => DispatchResult::Handled(RunOutput::clap_version(message)),
        ParseFailureKind::DisplayHelp => DispatchResult::Handled(RunOutput::clap_help(message)),
    }
}

} // verus!
