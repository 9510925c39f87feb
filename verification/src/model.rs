//! The mathematical model of the resolution pipeline: token splitting,
//! subcommand path resolution, flag scanning, param collection and the
//! summary projections. The executable builders in `utils` are specified
//! against these functions.

use vstd::prelude::*;

verus! {

use crate::command::Command;
use crate::command_summary::CommandSummaryV;
use crate::error_kind::ErrorKindV;
use crate::flag::Flag;
use crate::flag::FlagV;
use crate::flag_summary::FlagSummaryV;
use crate::param::Param;
use crate::param_summary::ParamSummaryV;
use crate::text::ci_le;
use crate::text::first_eq_from;
use crate::text::is_end_marker;
use crate::text::starts_dash;

// ---------------------------------------------------------------------------
// Token splitting
// ---------------------------------------------------------------------------
/// Splitting of one raw token on its first `=`: at most two parts, and the
/// part after the first `=` is preserved verbatim.
pub open spec fn split_tok(s: Seq<char>) -> Seq<Seq<char>> {
    let p = first_eq_from(s, 0);
    if p == s.len() {
        seq![s]
    } else {
        seq![s.subrange(0, p), s.subrange(p + 1, s.len() as int)]
    }
}

/// Splitting of a whole token list, preserving relative order.
pub open spec fn split_all(toks: Seq<Seq<char>>) -> Seq<Seq<char>> {
    toks.map_values(|t: Seq<char>| split_tok(t)).flatten()
}

// ---------------------------------------------------------------------------
// Subcommand path resolution
// ---------------------------------------------------------------------------
/// Index of the first child with the given name, searching from `i`.
pub open spec fn first_child_named<C>(cmds: Seq<Command<C>>, name: Seq<char>, i: int) -> Option<int>
    decreases cmds.len() - i,
{
    if i < 0 || i >= cmds.len() {
        None
    } else if cmds[i].name@ == name {
        Some(i)
    } else {
        first_child_named(cmds, name, i + 1)
    }
}

/// The subcommand path: leading non-flag tokens are matched against child
/// names and the matched indices are collected; the first unmatched leading
/// token is the error. Walking stops at the first flag-shaped token.
pub open spec fn spec_positions<C>(cmd: Command<C>, toks: Seq<Seq<char>>, i: int) -> Result<
    Seq<int>,
    Seq<char>,
>
    decreases toks.len() - i,
{
    if i < 0 || i >= toks.len() || starts_dash(toks[i]) {
        Ok(Seq::empty())
    } else {
        match first_child_named(cmd.commands@, toks[i], 0) {
            Some(j) => match spec_positions(cmd.commands@[j], toks, i + 1) {
                Ok(rest) => Ok(seq![j] + rest),
                Err(t) => Err(t),
            },
            None => Err(toks[i]),
        }
    }
}

/// An executable index path, as mathematical integers.
pub open spec fn path_view(p: Seq<usize>) -> Seq<int> {
    p.map_values(|u: usize| u as int)
}

/// Whether the index path denotes a node of the tree, starting at `i`.
pub open spec fn path_ok<C>(cmd: Command<C>, path: Seq<int>, i: int) -> bool
    decreases path.len() - i,
{
    i >= path.len() || (0 <= i && 0 <= path[i] < cmd.commands@.len() && path_ok(
        cmd.commands@[path[i]],
        path,
        i + 1,
    ))
}

/// The node that the index path denotes, starting at `i`.
pub open spec fn cmd_at<C>(cmd: Command<C>, path: Seq<int>, i: int) -> Command<C>
    decreases path.len() - i,
{
    if i < 0 || i >= path.len() {
        cmd
    } else {
        cmd_at(cmd.commands@[path[i]], path, i + 1)
    }
}

/// Starting `path_ok` at `i` is the same as starting it at the front of the
/// path's suffix from `i`.
pub proof fn lemma_path_ok_shift<C>(cmd: Command<C>, path: Seq<int>, i: int)
    requires
        0 <= i <= path.len(),
    ensures
        path_ok(cmd, path, i) == path_ok(cmd, path.subrange(i, path.len() as int), 0),
    decreases path.len() - i,
{
    if i < path.len() {
        let tail = path.subrange(i, path.len() as int);
        assert(tail[0] == path[i]);
        if 0 <= path[i] < cmd.commands@.len() {
            let child = cmd.commands@[path[i]];
            lemma_path_ok_shift(child, path, i + 1);
            lemma_path_ok_shift(child, tail, 1);
            assert(tail.subrange(1, tail.len() as int) =~= path.subrange(
                i + 1,
                path.len() as int,
            ));
        }
    }
}

/// Starting `cmd_at` at `i` is the same as starting it at the front of the
/// path's suffix from `i`.
pub proof fn lemma_cmd_at_shift<C>(cmd: Command<C>, path: Seq<int>, i: int)
    requires
        0 <= i <= path.len(),
    ensures
        cmd_at(cmd, path, i) == cmd_at(cmd, path.subrange(i, path.len() as int), 0),
    decreases path.len() - i,
{
    if i < path.len() {
        let tail = path.subrange(i, path.len() as int);
        assert(tail[0] == path[i]);
        let child = cmd.commands@[path[i]];
        lemma_cmd_at_shift(child, path, i + 1);
        lemma_cmd_at_shift(child, tail, 1);
        assert(tail.subrange(1, tail.len() as int) =~= path.subrange(i + 1, path.len() as int));
    }
}

/// A resolved path is a valid path.
pub proof fn lemma_positions_ok<C>(cmd: Command<C>, toks: Seq<Seq<char>>, i: int)
    requires
        spec_positions(cmd, toks, i) is Ok,
    ensures
        path_ok(cmd, spec_positions(cmd, toks, i)->Ok_0, 0),
    decreases toks.len() - i,
{
    if i < 0 || i >= toks.len() || starts_dash(toks[i]) {
    } else {
        match first_child_named(cmd.commands@, toks[i], 0) {
            Some(j) => {
                lemma_first_child_named(cmd.commands@, toks[i], 0);
                lemma_positions_ok(cmd.commands@[j], toks, i + 1);
                let rest = spec_positions(cmd.commands@[j], toks, i + 1)->Ok_0;
                let whole = seq![j] + rest;
                assert(spec_positions(cmd, toks, i)->Ok_0 == whole);
                assert(whole.subrange(1, whole.len() as int) =~= rest);
                assert(whole[0] == j);
                lemma_path_ok_shift(cmd.commands@[j], whole, 1);
                assert(path_ok(cmd.commands@[j], rest, 0));
                assert(whole.subrange(1, whole.len() as int) == rest);
                assert(path_ok(cmd.commands@[j], whole, 1));
                assert(path_ok(cmd, whole, 0));
            },
            None => {
                assert(false);
            },
        }
    }
}

/// What `first_child_named` returns: the first match, or nothing when no
/// child carries the name.
pub proof fn lemma_first_child_named<C>(cmds: Seq<Command<C>>, name: Seq<char>, i: int)
    requires
        0 <= i <= cmds.len(),
    ensures
        match first_child_named(cmds, name, i) {
            Some(j) => i <= j < cmds.len() && cmds[j].name@ == name && forall|k: int|
                i <= k < j ==> cmds[k].name@ != name,
            None => forall|k: int| i <= k < cmds.len() ==> cmds[k].name@ != name,
        },
    decreases cmds.len() - i,
{
    if i < cmds.len() && cmds[i].name@ != name {
        lemma_first_child_named(cmds, name, i + 1);
    }
}

// ---------------------------------------------------------------------------
// Summary projections
// ---------------------------------------------------------------------------
/// The summary content of a command node.
pub open spec fn cmd_summary_v<C>(c: Command<C>) -> CommandSummaryV {
    CommandSummaryV {
        name: c.name@,
        about: c.about.deep_view(),
        description: c.description.deep_view(),
        author: c.author.deep_view(),
        version: c.version.deep_view(),
    }
}

/// Summaries of the strict ancestors of the node that the path denotes:
/// every node strictly before it, root included.
pub open spec fn sup_summaries<C>(cmd: Command<C>, path: Seq<int>, i: int) -> Seq<CommandSummaryV>
    decreases path.len() - i,
{
    if i < 0 || i >= path.len() || !(0 <= path[i] < cmd.commands@.len()) {
        Seq::empty()
    } else {
        seq![cmd_summary_v(cmd)] + sup_summaries(cmd.commands@[path[i]], path, i + 1)
    }
}

/// Summaries of the immediate children, in declaration order.
pub open spec fn child_summaries<C>(c: Command<C>) -> Seq<CommandSummaryV> {
    c.commands@.map_values(|ch: Command<C>| cmd_summary_v(ch))
}

/// Case-insensitive sortedness of command summaries by name.
pub open spec fn sorted_ci_summaries(s: Seq<CommandSummaryV>) -> bool {
    forall|i: int, j: int| 0 <= i < j < s.len() ==> ci_le(s[i].name, s[j].name)
}

/// Case-insensitive sortedness of flag summaries by name.
pub open spec fn sorted_ci_flags(s: Seq<FlagSummaryV>) -> bool {
    forall|i: int, j: int| 0 <= i < j < s.len() ==> ci_le(s[i].name, s[j].name)
}

// ---------------------------------------------------------------------------
// Flag scanning
// ---------------------------------------------------------------------------
/// Flag names are unique within one command's flag list.
pub open spec fn flags_wf(flags: Seq<Flag>) -> bool {
    forall|j: int, k: int| 0 <= j < k < flags.len() ==> flags[j]@.name != flags[k]@.name
}

/// Every node of the tree has well-formed flags.
pub open spec fn tree_wf<C>(c: Command<C>) -> bool
    decreases c,
{
    flags_wf(c.flags@) && forall|j: int|
        0 <= j < c.commands@.len() ==> tree_wf(#[trigger] c.commands@[j])
}

/// Along a valid path, every node of a well-formed tree is well formed.
pub proof fn lemma_tree_wf_at<C>(c: Command<C>, path: Seq<int>, i: int)
    requires
        tree_wf(c),
        path_ok(c, path, i),
    ensures
        tree_wf(cmd_at(c, path, i)),
    decreases path.len() - i,
{
    if 0 <= i < path.len() {
        lemma_tree_wf_at(c.commands@[path[i]], path, i + 1);
    }
}

/// Whether a token selects this flag during flag scanning: `--name` matches
/// by exact name, `-alias` by exact alias.
pub open spec fn scan_match(f: FlagV, t: Seq<char>) -> bool {
    t == seq!['-', '-'] + f.name || (f.alias matches Some(a) && t == seq!['-'] + a)
}

/// Index of the first declared flag that the token selects, from `i`.
pub open spec fn first_scan_match(flags: Seq<Flag>, t: Seq<char>, i: int) -> Option<int>
    decreases flags.len() - i,
{
    if i < 0 || i >= flags.len() {
        None
    } else if scan_match(flags[i]@, t) {
        Some(i)
    } else {
        first_scan_match(flags, t, i + 1)
    }
}

/// The flag scan: tokens are read left to right; non-flag tokens are
/// skipped; `--` stops the scan; a flag token selects a declared flag or
/// fails; a value-accepting flag consumes the following token as its value
/// unless that token is missing or flag-shaped. A flag provided twice is
/// recorded once, the last occurrence winning. The result maps declared
/// flag indices to their provided value.
pub open spec fn spec_flag_scan(
    flags: Seq<Flag>,
    toks: Seq<Seq<char>>,
    i: int,
    m: Map<int, Option<Seq<char>>>,
) -> Result<Map<int, Option<Seq<char>>>, ErrorKindV>
    decreases toks.len() - i,
{
    if i < 0 || i >= toks.len() {
        Ok(m)
    } else if !starts_dash(toks[i]) {
        spec_flag_scan(flags, toks, i + 1, m)
    } else if is_end_marker(toks[i]) {
        Ok(m)
    } else {
        match first_scan_match(flags, toks[i], 0) {
            None => Err(ErrorKindV::UnknownFlag(toks[i])),
            Some(j) => if flags[j]@.accepts_value {
                if i + 1 < toks.len() && !starts_dash(toks[i + 1]) {
                    spec_flag_scan(flags, toks, i + 2, m.insert(j, Some(toks[i + 1])))
                } else {
                    Err(ErrorKindV::MissingFlagValue(toks[i]))
                }
            } else {
                spec_flag_scan(flags, toks, i + 1, m.insert(j, None))
            },
        }
    }
}

/// The summary of a flag that was provided on the command line.
pub open spec fn provided_flag_summary_v(f: FlagV, v: Option<Seq<char>>) -> FlagSummaryV {
    FlagSummaryV {
        name: f.name,
        alias: f.alias,
        description: f.description,
        value: v,
        default_value: f.default_value,
        accepts_value: f.accepts_value,
        provided: true,
    }
}

/// The summary of a flag absent from the command line: unprovided, with the
/// declared default as its value.
pub open spec fn default_flag_summary_v(f: FlagV) -> FlagSummaryV {
    FlagSummaryV {
        name: f.name,
        alias: f.alias,
        description: f.description,
        value: f.default_value,
        default_value: f.default_value,
        accepts_value: f.accepts_value,
        provided: false,
    }
}

/// The summary of the flag at index `j` under scan result `m`.
pub open spec fn flag_summary_at(
    flags: Seq<Flag>,
    m: Map<int, Option<Seq<char>>>,
    j: int,
) -> FlagSummaryV {
    if m.dom().contains(j) {
        provided_flag_summary_v(flags[j]@, m[j])
    } else {
        default_flag_summary_v(flags[j]@)
    }
}

/// One summary per declared flag, in declaration order, under scan result
/// `m`.
pub open spec fn flag_summaries_of(flags: Seq<Flag>, m: Map<int, Option<Seq<char>>>) -> Seq<
    FlagSummaryV,
> {
    Seq::new(flags.len(), |j: int| flag_summary_at(flags, m, j))
}

// ---------------------------------------------------------------------------
// Param collection
// ---------------------------------------------------------------------------
/// Whether a token selects this flag during param collection: `--rest`
/// matches a flag whose name is `rest`, `-rest` one whose alias is `rest`.
pub open spec fn param_match(f: FlagV, t: Seq<char>) -> bool {
    ||| (t.len() >= 2 && t[0] == '-' && t[1] == '-' && f.name == t.subrange(2, t.len() as int))
    ||| (t.len() >= 1 && t[0] == '-' && (f.alias matches Some(a) && a == t.subrange(
        1,
        t.len() as int,
    )))
}

/// Index of the first declared flag that the token selects, from `i`.
pub open spec fn first_param_match(flags: Seq<Flag>, t: Seq<char>, i: int) -> Option<int>
    decreases flags.len() - i,
{
    if i < 0 || i >= flags.len() {
        None
    } else if param_match(flags[i]@, t) {
        Some(i)
    } else {
        first_param_match(flags, t, i + 1)
    }
}

/// How many tokens a flag-shaped token consumes during param collection:
/// itself, and its value token when it selects a value-accepting flag.
pub open spec fn param_flag_consumed(flags: Seq<Flag>, t: Seq<char>) -> int {
    match first_param_match(flags, t, 0) {
        Some(j) => if flags[j]@.accepts_value {
            2
        } else {
            1
        },
        None => 1,
    }
}

/// The three-stage walk that collects free tokens: stage 0 still matches
/// subcommand names, stage 1 is entered by a flag-shaped token, and stage 2
/// collects every remaining free token. The literal `--` ends collection.
/// Returns the deepest command reached and the free tokens in order.
pub open spec fn spec_param_walk<C>(
    cmd: Command<C>,
    toks: Seq<Seq<char>>,
    i: int,
    stage: int,
) -> (Command<C>, Seq<Seq<char>>)
    decreases toks.len() - i,
{
    if i < 0 || i >= toks.len() {
        (cmd, Seq::empty())
    } else if is_end_marker(toks[i]) {
        (cmd, Seq::empty())
    } else if starts_dash(toks[i]) {
        let skip = param_flag_consumed(cmd.flags@, toks[i]);
        let ni = if i + skip > toks.len() {
            toks.len() as int
        } else {
            i + skip
        };
        spec_param_walk(cmd, toks, ni, 1)
    } else if stage == 0 {
        match first_child_named(cmd.commands@, toks[i], 0) {
            Some(j) => spec_param_walk(cmd.commands@[j], toks, i + 1, 0),
            None => {
                let r = spec_param_walk(cmd, toks, i + 1, 2);
                (r.0, seq![toks[i]] + r.1)
            },
        }
    } else {
        let r = spec_param_walk(cmd, toks, i + 1, 2);
        (r.0, seq![toks[i]] + r.1)
    }
}

/// The summary of the param at index `k` when `inputs` free tokens are
/// bound: the last `inputs.len()` declared params receive the free tokens
/// in order, the leading ones their declared default.
pub open spec fn param_summary_at(params: Seq<Param>, inputs: Seq<Seq<char>>, k: int) -> ParamSummaryV {
    let unbound = params.len() - inputs.len();
    if k < unbound {
        ParamSummaryV {
            name: params[k]@.name,
            description: params[k]@.description,
            value: params[k]@.default_value,
            default_value: params[k]@.default_value,
            provided: false,
        }
    } else {
        ParamSummaryV {
            name: params[k]@.name,
            description: params[k]@.description,
            value: Some(inputs[k - unbound]),
            default_value: params[k]@.default_value,
            provided: true,
        }
    }
}

/// One summary per declared param, in declaration order.
pub open spec fn param_summaries_of(params: Seq<Param>, inputs: Seq<Seq<char>>) -> Seq<
    ParamSummaryV,
> {
    Seq::new(params.len(), |k: int| param_summary_at(params, inputs, k))
}

// ---------------------------------------------------------------------------
// The whole pipeline
// ---------------------------------------------------------------------------
/// The first error of the builder stages on an already split token list, in
/// their order of execution: subcommand resolution, flag scanning, param
/// binding; `None` when every stage succeeds.
pub open spec fn spec_resolution_error<C>(root: Command<C>, toks: Seq<Seq<char>>) -> Option<
    ErrorKindV,
> {
    match spec_positions(root, toks, 0) {
        Err(t) => Some(ErrorKindV::UnknownCommand(t)),
        Ok(path) => {
            let cmd = cmd_at(root, path, 0);
            match spec_flag_scan(cmd.flags@, toks, 0, Map::empty()) {
                Err(k) => Some(k),
                Ok(_) => {
                    let walked = spec_param_walk(root, toks, 0, 0);
                    if walked.1.len() > walked.0.params@.len() {
                        Some(
                            ErrorKindV::ToManyParams(
                                walked.0.params@.len() as int,
                                walked.1.len() as int,
                            ),
                        )
                    } else {
                        None
                    }
                },
            }
        },
    }
}

} // verus!
