//! The executable resolution pipeline: token splitting, subcommand path
//! resolution and the summary builders, each specified against the model.

use vstd::prelude::*;

verus! {

use vstd::string::StrSliceExecFns;
use crate::command::Command;
use crate::command_summary::CommandSummary;
use crate::error::spec_error_wf;
use crate::error::Error;
use crate::error_kind::ErrorKind;
use crate::error_kind::ErrorKindV;
use crate::model::cmd_at;
use crate::model::cmd_summary_v;
use crate::model::first_child_named;
use crate::model::first_param_match;
use crate::model::first_scan_match;
use crate::model::param_match;
use crate::model::scan_match;
use crate::model::spec_flag_scan;
use crate::model::spec_param_walk;
use crate::model::param_flag_consumed;
use crate::model::param_summaries_of;
use crate::model::flag_summaries_of;
use crate::model::flags_wf;
use crate::model::path_ok;
use crate::model::path_view;
use crate::model::spec_positions;
use crate::model::split_all;
use crate::model::split_tok;
use crate::model::sup_summaries;
use crate::model::child_summaries;
use crate::model::sorted_ci_flags;
use crate::model::sorted_ci_summaries;
use crate::flag::Flag;
use crate::flag_summary::FlagSummary;
use crate::flag_summary::FlagSummaryV;
use crate::param::Param;
use crate::param_summary::ParamSummary;
use crate::param_summary::ParamSummaryV;
use crate::resource::Resource;
use crate::resource_summary::ResourceSummary;
use crate::text::ci_le;
use crate::text::ci_le_names;
use crate::text::find_first_eq;
use crate::text::is_end_marker_token;
use crate::text::lemma_ci_le_total;
use crate::text::lemma_ci_le_trans;
use crate::text::starts_with_dash;
use crate::text::str_eq;

/// Returns a copy of an optional string.
fn clone_opt(o: &Option<String>) -> (r: Option<String>)
    ensures
        r == *o,
{
    match o {
        Some(s) => Some(s.clone()),
        None => None,
    }
}

/// Splits `--key=value` style tokens into two tokens on the first `=`,
/// preserving relative order; other tokens pass through unchanged.
pub fn split_equal_args(args: &Vec<String>) -> (r: Vec<String>)
    ensures
        r.deep_view() == split_all(args.deep_view()),
{
    let mut items: Vec<String> = Vec::new();
    let mut i: usize = 0;
    while i < args.len()
        invariant
            0 <= i <= args@.len(),
            items.deep_view() == split_all(args.deep_view().take(i as int)),
        decreases args@.len() - i,
    {
        let ghost pre = items.deep_view();
        let ghost toks = args.deep_view();
        let s = args[i].as_str();
        let n = s.unicode_len();
        let p = find_first_eq(s);
        if p == n {
            items.push(args[i].clone());
            proof {
                assert(split_tok(toks[i as int]) =~= seq![toks[i as int]]);
                assert(items.deep_view() =~= pre + split_tok(toks[i as int]));
            }
        } else {
            items.push(s.substring_char(0, p).to_owned());
            items.push(s.substring_char(p + 1, n).to_owned());
            proof {
                assert(items.deep_view() =~= pre + split_tok(toks[i as int]));
            }
        }
        proof {
            let mapped = toks.take(i + 1).map_values(|t: Seq<char>| split_tok(t));
            assert(mapped =~= toks.take(i as int).map_values(|t: Seq<char>| split_tok(t)).push(
                split_tok(toks[i as int]),
            ));
            broadcast use Seq::lemma_flatten_push;

            assert(split_all(toks.take(i + 1)) =~= split_all(toks.take(i as int)) + split_tok(
                toks[i as int],
            ));
        }
        i += 1;
    }
    proof {
        assert(args.deep_view().take(args@.len() as int) =~= args.deep_view());
    }
    items
}

/// Walks leading non-flag tokens from `i`, collecting matched child indices.
fn walk_positions<C>(cmd: &Command<C>, args: &Vec<String>, i: usize) -> (r: Result<
    Vec<usize>,
    Error,
>)
    requires
        i <= args@.len(),
    ensures
        match spec_positions(*cmd, args.deep_view(), i as int) {
            Ok(p) => r matches Ok(v) && path_view(v@) == p,
            Err(t) => r matches Err(e) && e.kind@ == ErrorKindV::UnknownCommand(t)
                && spec_error_wf(e),
        },
    decreases args@.len() - i,
{
    let alen = args.len();
    if i >= alen {
        let v: Vec<usize> = Vec::new();
        proof {
            assert(path_view(v@) =~= Seq::<int>::empty());
        }
        return Ok(v);
    }
    if starts_with_dash(args[i].as_str()) {
        let v: Vec<usize> = Vec::new();
        proof {
            assert(path_view(v@) =~= Seq::<int>::empty());
        }
        return Ok(v);
    }
    let ghost toks = args.deep_view();
    let mut k: usize = 0;
    loop
        invariant
            i < alen,
            alen == args@.len(),
            toks == args.deep_view(),
            !crate::text::starts_dash(toks[i as int]),
            0 <= k <= cmd.commands@.len(),
            first_child_named(cmd.commands@, toks[i as int], 0) == first_child_named(
                cmd.commands@,
                toks[i as int],
                k as int,
            ),
        decreases cmd.commands@.len() - k,
    {
        if k >= cmd.commands.len() {
            return Err(Error::new(ErrorKind::UnknownCommand(args[i].clone())));
        }
        if str_eq(cmd.commands[k].name.as_str(), args[i].as_str()) {
            match walk_positions(&cmd.commands[k], args, i + 1) {
                Ok(mut rest) => {
                    let ghost p = spec_positions(cmd.commands@[k as int], toks, i + 1)->Ok_0;
                    rest.insert(0, k);
                    proof {
                        assert(path_view(rest@) =~= seq![k as int] + p);
                    }
                    return Ok(rest);
                },
                Err(e) => {
                    return Err(e);
                },
            }
        }
        k += 1;
    }
}

/// Parses arguments and finds command positions in a tree: the path of
/// matched child indices, or the first unmatched leading token's error.
pub fn build_subcommand_positions<C>(app: &Command<C>, args: &Vec<String>) -> (r: Result<
    Vec<usize>,
    Error,
>)
    ensures
        match spec_positions(*app, args.deep_view(), 0) {
            Ok(p) => r matches Ok(v) && path_view(v@) == p,
            Err(t) => r matches Err(e) && e.kind@ == ErrorKindV::UnknownCommand(t)
                && spec_error_wf(e),
        },
{
    walk_positions(app, args, 0)
}

/// Returns the command object at the given position path.
pub fn subcommand_at_position<'a, C>(app: &'a Command<C>, positions: &Vec<usize>) -> (r:
    &'a Command<C>)
    requires
        path_ok(*app, path_view(positions@), 0),
    ensures
        *r == cmd_at(*app, path_view(positions@), 0),
{
    let ghost path = path_view(positions@);
    let mut command = app;
    let mut i: usize = 0;
    while i < positions.len()
        invariant
            path == path_view(positions@),
            0 <= i <= path.len(),
            path_ok(*command, path, i as int),
            cmd_at(*app, path, 0) == cmd_at(*command, path, i as int),
        decreases path.len() - i,
    {
        command = &command.commands[positions[i]];
        i += 1;
    }
    command
}

/// Returns the summary of one command node.
pub fn build_command_summary<C>(command: &Command<C>) -> (r: CommandSummary)
    ensures
        r@ == cmd_summary_v(*command),
{
    CommandSummary::with_name(
        command.name.as_str(),
        clone_opt(&command.about),
        clone_opt(&command.description),
        clone_opt(&command.author),
        clone_opt(&command.version),
    )
}

/// Returns the summary of one declared resource.
pub fn build_resource_summary(resource: &Resource) -> (r: ResourceSummary)
    ensures
        r@ == resource@,
{
    ResourceSummary::with_name(resource.name.as_str(), clone_opt(&resource.description))
}

/// Returns summaries of the parent commands of the node that the path
/// denotes: every node strictly before it, root first.
pub fn build_supcommand_summaries<C>(app: &Command<C>, positions: &Vec<usize>) -> (r: Vec<
    CommandSummary,
>)
    requires
        path_ok(*app, path_view(positions@), 0),
    ensures
        r.deep_view() == sup_summaries(*app, path_view(positions@), 0),
{
    let ghost path = path_view(positions@);
    let mut items: Vec<CommandSummary> = Vec::new();
    let mut command = app;
    let mut i: usize = 0;
    while i < positions.len()
        invariant
            path == path_view(positions@),
            0 <= i <= path.len(),
            path_ok(*command, path, i as int),
            sup_summaries(*app, path, 0) == items.deep_view() + sup_summaries(
                *command,
                path,
                i as int,
            ),
        decreases path.len() - i,
    {
        let ghost pre = items.deep_view();
        items.push(build_command_summary(command));
        proof {
            assert(items.deep_view() =~= pre + seq![cmd_summary_v(*command)]);
            assert(pre + (seq![cmd_summary_v(*command)] + sup_summaries(
                command.commands@[path[i as int]],
                path,
                i + 1,
            )) =~= items.deep_view() + sup_summaries(
                command.commands@[path[i as int]],
                path,
                i + 1,
            ));
        }
        command = &command.commands[positions[i]];
        i += 1;
    }
    proof {
        assert(sup_summaries(*app, path, 0) =~= items.deep_view());
    }
    items
}

/// Returns summaries of all declared resources of one command.
pub fn build_resource_summaries<C>(command: &Command<C>) -> (r: Vec<ResourceSummary>)
    ensures
        r.deep_view() == command.resources.deep_view(),
{
    let mut items: Vec<ResourceSummary> = Vec::new();
    let mut i: usize = 0;
    while i < command.resources.len()
        invariant
            0 <= i <= command.resources@.len(),
            items.deep_view() == command.resources.deep_view().take(i as int),
        decreases command.resources@.len() - i,
    {
        let ghost pre = items.deep_view();
        let s = build_resource_summary(&command.resources[i]);
        let ghost sv = s@;
        items.push(s);
        proof {
            assert(items.deep_view() =~= pre.push(sv));
            assert(command.resources.deep_view().take(i + 1) =~= pre.push(sv));
        }
        i += 1;
    }
    proof {
        assert(command.resources.deep_view().take(command.resources@.len() as int)
            =~= command.resources.deep_view());
    }
    items
}

/// Returns the summary of one declared flag, as provided or defaulted.
pub fn build_flag_summary(flag: &Flag, provided: bool, value: &Option<String>) -> (r: FlagSummary)
    ensures
        r@ == (FlagSummaryV {
            name: flag@.name,
            alias: flag@.alias,
            description: flag@.description,
            value: value.deep_view(),
            default_value: flag@.default_value,
            accepts_value: flag@.accepts_value,
            provided: provided,
        }),
{
    FlagSummary::with_name(
        flag.name.as_str(),
        clone_opt(&flag.alias),
        clone_opt(&flag.description),
        clone_opt(value),
        clone_opt(&flag.default_value),
        flag.accepts_value,
        provided,
    )
}

/// Returns the summary of one declared param, as bound or defaulted.
pub fn build_param_summary(param: &Param, provided: bool, value: &Option<String>) -> (r:
    ParamSummary)
    ensures
        r@ == (ParamSummaryV {
            name: param@.name,
            description: param@.description,
            value: value.deep_view(),
            default_value: param@.default_value,
            provided: provided,
        }),
{
    ParamSummary::with_name(
        param.name.as_str(),
        clone_opt(&param.description),
        clone_opt(value),
        clone_opt(&param.default_value),
        provided,
    )
}

/// Whether the token selects this flag during flag scanning.
fn scan_match_exec(f: &Flag, t: &str) -> (r: bool)
    ensures
        r == scan_match(f@, t@),
{
    let tlen = t.unicode_len();
    let nlen = f.name.as_str().unicode_len();
    let name_match = if tlen >= 2 && tlen - 2 == nlen {
        if t.get_char(0) == '-' && t.get_char(1) == '-' {
            str_eq(t.substring_char(2, tlen), f.name.as_str())
        } else {
            false
        }
    } else {
        false
    };
    proof {
        if name_match {
            assert(t@ =~= seq!['-', '-'] + f@.name);
        }
        if t@ == seq!['-', '-'] + f@.name {
            assert(t@.len() == f@.name.len() + 2);
            assert(t@[0] == '-');
            assert(t@[1] == '-');
            assert(t@.subrange(2, t@.len() as int) =~= f@.name);
        }
    }
    if name_match {
        return true;
    }
    match &f.alias {
        Some(a) => {
            let alen = a.as_str().unicode_len();
            let alias_match = if tlen >= 1 && tlen - 1 == alen {
                if t.get_char(0) == '-' {
                    str_eq(t.substring_char(1, tlen), a.as_str())
                } else {
                    false
                }
            } else {
                false
            };
            proof {
                if alias_match {
                    assert(t@ =~= seq!['-'] + a@);
                }
                if t@ == seq!['-'] + a@ {
                    assert(t@.len() == a@.len() + 1);
                    assert(t@[0] == '-');
                    assert(t@.subrange(1, t@.len() as int) =~= a@);
                }
            }
            alias_match
        },
        None => false,
    }
}

/// Whether the token selects this flag during param collection.
fn param_match_exec(f: &Flag, t: &str) -> (r: bool)
    ensures
        r == param_match(f@, t@),
{
    let tlen = t.unicode_len();
    let name_match = if tlen >= 2 {
        if t.get_char(0) == '-' && t.get_char(1) == '-' {
            str_eq(t.substring_char(2, tlen), f.name.as_str())
        } else {
            false
        }
    } else {
        false
    };
    if name_match {
        return true;
    }
    match &f.alias {
        Some(a) => {
            if tlen >= 1 {
                if t.get_char(0) == '-' {
                    str_eq(t.substring_char(1, tlen), a.as_str())
                } else {
                    false
                }
            } else {
                false
            }
        },
        None => false,
    }
}

/// Index of the first declared flag selected by the token, by scan matching.
fn find_scan_match(flags: &Vec<Flag>, t: &str) -> (r: Option<usize>)
    ensures
        match first_scan_match(flags@, t@, 0) {
            Some(j) => r matches Some(k) && k as int == j && k < flags@.len(),
            None => r is None,
        },
{
    let mut k: usize = 0;
    while k < flags.len()
        invariant
            0 <= k <= flags@.len(),
            first_scan_match(flags@, t@, 0) == first_scan_match(flags@, t@, k as int),
        decreases flags@.len() - k,
    {
        if scan_match_exec(&flags[k], t) {
            return Some(k);
        }
        k += 1;
    }
    None
}

/// Index of the first declared flag selected by the token, by param matching.
fn find_param_match(flags: &Vec<Flag>, t: &str) -> (r: Option<usize>)
    ensures
        match first_param_match(flags@, t@, 0) {
            Some(j) => r matches Some(k) && k as int == j && k < flags@.len(),
            None => r is None,
        },
{
    let mut k: usize = 0;
    while k < flags.len()
        invariant
            0 <= k <= flags@.len(),
            first_param_match(flags@, t@, 0) == first_param_match(flags@, t@, k as int),
        decreases flags@.len() - k,
    {
        if param_match_exec(&flags[k], t) {
            return Some(k);
        }
        k += 1;
    }
    None
}

/// Inserting into a sequence adds one occurrence to its multiset.
proof fn lemma_insert_multiset<A>(s: Seq<A>, j: int, x: A)
    requires
        0 <= j <= s.len(),
    ensures
        s.insert(j, x).to_multiset() =~= s.to_multiset().insert(x),
{
    broadcast use vstd::seq_lib::group_to_multiset_ensures;
    broadcast use vstd::multiset::group_multiset_axioms;

    let t = s.insert(j, x);
    assert(t.remove(j) =~= s);
    assert(t[j] == x);
    assert(s.to_multiset() =~= t.to_multiset().remove(x));
    assert(t.to_multiset().count(x) > 0) by {
        assert(t.contains(x));
    }
    assert forall|y: A| t.to_multiset().count(y) == s.to_multiset().insert(x).count(y) by {
        if y == x {
            assert(s.to_multiset().count(x) == t.to_multiset().count(x) - 1);
        } else {
            assert(s.to_multiset().count(y) == t.to_multiset().count(y));
        }
    }
}

/// Returns flag summary objects for a command. Tokens are scanned left to
/// right for flag-shaped entries and matched against the declared flags by
/// name or alias; a value-accepting flag takes the following token as its
/// value; `--` stops the scan; a flag provided twice keeps its last value.
/// Declared flags absent from the input are recorded unprovided with their
/// declared default. The result is sorted case-insensitively by name.
pub fn build_flag_summaries<C>(command: &Command<C>, args: &Vec<String>) -> (r: Result<
    Vec<FlagSummary>,
    Error,
>)
    requires
        flags_wf(command.flags@),
    ensures
        match spec_flag_scan(command.flags@, args.deep_view(), 0, Map::empty()) {
            Ok(m) => r matches Ok(v) && v.deep_view().to_multiset() == flag_summaries_of(
                command.flags@,
                m,
            ).to_multiset() && sorted_ci_flags(v.deep_view()),
            Err(k) => r matches Err(e) && e.kind@ == k && spec_error_wf(e),
        },
{
    let flags = &command.flags;
    let ghost toks = args.deep_view();
    let flen = flags.len();
    let mut values: Vec<Option<Option<String>>> = Vec::new();
    let mut z: usize = 0;
    while z < flen
        invariant
            0 <= z <= flen,
            values@.len() == z,
            forall|q: int| 0 <= q < z ==> values@[q] is None,
        decreases flen - z,
    {
        values.push(None);
        z += 1;
    }
    let ghost m0 = Map::<int, Option<Seq<char>>>::empty();
    let ghost mut m = m0;
    let alen = args.len();
    let mut i: usize = 0;
    while i < alen
        invariant
            alen == args@.len(),
            toks == args.deep_view(),
            flen == flags@.len(),
            *flags == command.flags,
            0 <= i <= alen,
            values@.len() == flen,
            forall|q: int|
                0 <= q < flen ==> ((#[trigger] values@[q]) is Some <==> m.dom().contains(q)),
            forall|q: int|
                0 <= q < flen ==> ((#[trigger] values@[q]) matches Some(vv) ==> m[q]
                    == vv.deep_view()),
            m0 == Map::<int, Option<Seq<char>>>::empty(),
            spec_flag_scan(flags@, toks, 0, m0) == spec_flag_scan(flags@, toks, i as int, m),
        decreases alen - i,
    {
        let arg = &args[i];
        proof {
            assert(toks[i as int] == args@[i as int]@);
        }
        if !starts_with_dash(arg.as_str()) {
            i += 1;
            continue ;
        }
        if is_end_marker_token(arg.as_str()) {
            i = alen;
            continue ;
        }
        match find_scan_match(flags, arg.as_str()) {
            None => {
                proof {
                    assert(spec_flag_scan(command.flags@, args.deep_view(), 0, Map::empty())
                        == Err::<Map<int, Option<Seq<char>>>, ErrorKindV>(
                        ErrorKindV::UnknownFlag(toks[i as int]),
                    ));
                    assert(ErrorKind::UnknownFlag(args@[i as int])@ == ErrorKindV::UnknownFlag(
                        toks[i as int],
                    ));
                }
                return Err(Error::new(ErrorKind::UnknownFlag(arg.clone())));
            },
            Some(j) => {
                if flags[j].accepts_value {
                    proof {
                        if i + 1 < alen {
                            assert(toks[i as int + 1] == args@[i as int + 1]@);
                        }
                    }
                    if i + 1 < alen && !starts_with_dash(args[i + 1].as_str()) {
                        values.set(j, Some(Some(args[i + 1].clone())));
                        proof {
                            m = m.insert(j as int, Some(toks[i + 1]));
                        }
                        i += 2;
                    } else {
                        proof {
                            assert(spec_flag_scan(command.flags@, args.deep_view(), 0, Map::empty())
                                == Err::<Map<int, Option<Seq<char>>>, ErrorKindV>(
                                ErrorKindV::MissingFlagValue(toks[i as int]),
                            ));
                            assert(ErrorKind::MissingFlagValue(args@[i as int])@
                                == ErrorKindV::MissingFlagValue(toks[i as int]));
                        }
                        return Err(Error::new(ErrorKind::MissingFlagValue(arg.clone())));
                    }
                } else {
                    values.set(j, Some(None));
                    proof {
                        m = m.insert(j as int, None);
                    }
                    i += 1;
                }
            },
        }
    }
    let ghost expected = flag_summaries_of(flags@, m);
    let mut items: Vec<FlagSummary> = Vec::new();
    let mut k: usize = 0;
    while k < flen
        invariant
            flen == flags@.len(),
            *flags == command.flags,
            values@.len() == flen,
            forall|q: int|
                0 <= q < flen ==> ((#[trigger] values@[q]) is Some <==> m.dom().contains(q)),
            forall|q: int|
                0 <= q < flen ==> ((#[trigger] values@[q]) matches Some(vv) ==> m[q]
                    == vv.deep_view()),
            expected == flag_summaries_of(flags@, m),
            spec_flag_scan(command.flags@, args.deep_view(), 0, Map::empty()) == Ok::<
                Map<int, Option<Seq<char>>>,
                ErrorKindV,
            >(m),
            0 <= k <= flen,
            items.deep_view() == expected.take(k as int),
        decreases flen - k,
    {
        let ghost pre = items.deep_view();
        let s = match &values[k] {
            Some(vv) => build_flag_summary(&flags[k], true, vv),
            None => build_flag_summary(&flags[k], false, &flags[k].default_value),
        };
        let ghost sv = s@;
        items.push(s);
        proof {
            assert(sv == expected[k as int]);
            assert(items.deep_view() =~= pre.push(sv));
            assert(expected.take(k + 1) =~= pre.push(sv));
        }
        k += 1;
    }
    proof {
        assert(expected.take(flen as int) =~= expected);
    }
    let sorted = sort_flag_summaries(items);
    Ok(sorted)
}

/// Returns a copy of a flag summary.
fn copy_flag_summary(s: &FlagSummary) -> (r: FlagSummary)
    ensures
        r == *s,
{
    FlagSummary {
        name: s.name.clone(),
        alias: clone_opt(&s.alias),
        description: clone_opt(&s.description),
        value: clone_opt(&s.value),
        default_value: clone_opt(&s.default_value),
        accepts_value: s.accepts_value,
        provided: s.provided,
    }
}

/// Returns a copy of a command summary.
fn copy_command_summary(s: &CommandSummary) -> (r: CommandSummary)
    ensures
        r == *s,
{
    CommandSummary {
        name: s.name.clone(),
        about: clone_opt(&s.about),
        description: clone_opt(&s.description),
        author: clone_opt(&s.author),
        version: clone_opt(&s.version),
    }
}

/// Position of the first already sorted flag summary that does not come
/// before `x` in the case-insensitive order.
fn flag_insert_pos(out: &Vec<FlagSummary>, x: &FlagSummary) -> (j: usize)
    ensures
        j <= out@.len(),
        forall|k: int| 0 <= k < j ==> ci_le(out.deep_view()[k].name, x@.name),
        j < out@.len() ==> ci_le(x@.name, out.deep_view()[j as int].name),
{
    let mut j: usize = 0;
    while j < out.len()
        invariant
            0 <= j <= out@.len(),
            forall|k: int| 0 <= k < j ==> ci_le(out.deep_view()[k].name, x@.name),
        decreases out@.len() - j,
    {
        if !ci_le_names(out[j].name.as_str(), x.name.as_str()) {
            proof {
                lemma_ci_le_total(out.deep_view()[j as int].name, x@.name);
            }
            return j;
        }
        j += 1;
    }
    j
}

/// Sorts flag summaries case-insensitively by name.
fn sort_flag_summaries(v: Vec<FlagSummary>) -> (r: Vec<FlagSummary>)
    ensures
        r.deep_view().to_multiset() == v.deep_view().to_multiset(),
        sorted_ci_flags(r.deep_view()),
{
    broadcast use vstd::seq_lib::group_to_multiset_ensures;

    let mut out: Vec<FlagSummary> = Vec::new();
    let mut i: usize = 0;
    while i < v.len()
        invariant
            0 <= i <= v@.len(),
            out.deep_view().to_multiset() == v.deep_view().take(i as int).to_multiset(),
            sorted_ci_flags(out.deep_view()),
        decreases v@.len() - i,
    {
        let ghost pre = out.deep_view();
        let x = copy_flag_summary(&v[i]);
        let ghost xv = x@;
        proof {
            assert(xv == v.deep_view()[i as int]);
        }
        let j = flag_insert_pos(&out, &x);
        out.insert(j, x);
        proof {
            assert(out.deep_view() =~= pre.insert(j as int, xv));
            lemma_insert_multiset(pre, j as int, xv);
            assert(v.deep_view().take(i + 1) =~= v.deep_view().take(i as int).push(
                v.deep_view()[i as int],
            ));
            v.deep_view().take(i as int).to_multiset_ensures();
            assert(v.deep_view().take(i as int).push(v.deep_view()[i as int]).to_multiset()
                =~= v.deep_view().take(i as int).to_multiset().insert(v.deep_view()[i as int]));
            assert(out.deep_view().to_multiset() =~= v.deep_view().take(i + 1).to_multiset());
            let cur = out.deep_view();
            assert forall|a: int, b: int| 0 <= a < b < cur.len() implies ci_le(
                cur[a].name,
                cur[b].name,
            ) by {
                if a == j && b > j {
                    assert(ci_le(xv.name, pre[j as int].name));
                    if j < b - 1 {
                        lemma_ci_le_trans(xv.name, pre[j as int].name, pre[b - 1].name);
                    }
                }
            }
        }
        i += 1;
    }
    proof {
        assert(v.deep_view().take(v@.len() as int) =~= v.deep_view());
    }
    out
}

/// Position of the first already sorted command summary that does not come
/// before `x` in the case-insensitive order.
fn summary_insert_pos(out: &Vec<CommandSummary>, x: &CommandSummary) -> (j: usize)
    ensures
        j <= out@.len(),
        forall|k: int| 0 <= k < j ==> ci_le(out.deep_view()[k].name, x@.name),
        j < out@.len() ==> ci_le(x@.name, out.deep_view()[j as int].name),
{
    let mut j: usize = 0;
    while j < out.len()
        invariant
            0 <= j <= out@.len(),
            forall|k: int| 0 <= k < j ==> ci_le(out.deep_view()[k].name, x@.name),
        decreases out@.len() - j,
    {
        if !ci_le_names(out[j].name.as_str(), x.name.as_str()) {
            proof {
                lemma_ci_le_total(out.deep_view()[j as int].name, x@.name);
            }
            return j;
        }
        j += 1;
    }
    j
}

/// Sorts command summaries case-insensitively by name.
fn sort_command_summaries(v: Vec<CommandSummary>) -> (r: Vec<CommandSummary>)
    ensures
        r.deep_view().to_multiset() == v.deep_view().to_multiset(),
        sorted_ci_summaries(r.deep_view()),
{
    broadcast use vstd::seq_lib::group_to_multiset_ensures;

    let mut out: Vec<CommandSummary> = Vec::new();
    let mut i: usize = 0;
    while i < v.len()
        invariant
            0 <= i <= v@.len(),
            out.deep_view().to_multiset() == v.deep_view().take(i as int).to_multiset(),
            sorted_ci_summaries(out.deep_view()),
        decreases v@.len() - i,
    {
        let ghost pre = out.deep_view();
        let x = copy_command_summary(&v[i]);
        let ghost xv = x@;
        proof {
            assert(xv == v.deep_view()[i as int]);
        }
        let j = summary_insert_pos(&out, &x);
        out.insert(j, x);
        proof {
            assert(out.deep_view() =~= pre.insert(j as int, xv));
            lemma_insert_multiset(pre, j as int, xv);
            assert(v.deep_view().take(i + 1) =~= v.deep_view().take(i as int).push(
                v.deep_view()[i as int],
            ));
            v.deep_view().take(i as int).to_multiset_ensures();
            assert(v.deep_view().take(i as int).push(v.deep_view()[i as int]).to_multiset()
                =~= v.deep_view().take(i as int).to_multiset().insert(v.deep_view()[i as int]));
            assert(out.deep_view().to_multiset() =~= v.deep_view().take(i + 1).to_multiset());
            let cur = out.deep_view();
            assert forall|a: int, b: int| 0 <= a < b < cur.len() implies ci_le(
                cur[a].name,
                cur[b].name,
            ) by {
                if a == j && b > j {
                    assert(ci_le(xv.name, pre[j as int].name));
                    if j < b - 1 {
                        lemma_ci_le_trans(xv.name, pre[j as int].name, pre[b - 1].name);
                    }
                }
            }
        }
        i += 1;
    }
    proof {
        assert(v.deep_view().take(v@.len() as int) =~= v.deep_view());
    }
    out
}

/// Index of the first child command with the given name.
fn find_child<C>(cmds: &Vec<Command<C>>, t: &str) -> (r: Option<usize>)
    ensures
        match first_child_named(cmds@, t@, 0) {
            Some(j) => r matches Some(k) && k as int == j && k < cmds@.len(),
            None => r is None,
        },
{
    let mut k: usize = 0;
    while k < cmds.len()
        invariant
            0 <= k <= cmds@.len(),
            first_child_named(cmds@, t@, 0) == first_child_named(cmds@, t@, k as int),
        decreases cmds@.len() - k,
    {
        if str_eq(cmds[k].name.as_str(), t) {
            return Some(k);
        }
        k += 1;
    }
    None
}

/// The three-stage walk that collects free tokens, from token `i` on.
fn walk_params<'a, C>(cmd: &'a Command<C>, args: &Vec<String>, i: usize, stage: u8) -> (r: (
    &'a Command<C>,
    Vec<String>,
))
    requires
        i <= args@.len(),
    ensures
        ({
            let w = spec_param_walk(*cmd, args.deep_view(), i as int, stage as int);
            *(r.0) == w.0 && r.1.deep_view() == w.1
        }),
    decreases args@.len() - i,
{
    let alen = args.len();
    let ghost toks = args.deep_view();
    if i >= alen {
        let v: Vec<String> = Vec::new();
        proof {
            assert(v.deep_view() =~= Seq::<Seq<char>>::empty());
        }
        return (cmd, v);
    }
    let arg = &args[i];
    proof {
        assert(toks[i as int] == args@[i as int]@);
    }
    if is_end_marker_token(arg.as_str()) {
        let v: Vec<String> = Vec::new();
        proof {
            assert(v.deep_view() =~= Seq::<Seq<char>>::empty());
        }
        return (cmd, v);
    }
    if starts_with_dash(arg.as_str()) {
        let skip: usize = match find_param_match(&cmd.flags, arg.as_str()) {
            Some(j) => if cmd.flags[j].accepts_value {
                2
            } else {
                1
            },
            None => 1,
        };
        proof {
            assert(skip as int == param_flag_consumed(cmd.flags@, toks[i as int]));
        }
        let ni = if skip == 1 {
            i + 1
        } else if i + 1 < alen {
            i + 2
        } else {
            alen
        };
        return walk_params(cmd, args, ni, 1);
    }
    if stage == 0 {
        match find_child(&cmd.commands, arg.as_str()) {
            Some(k) => {
                return walk_params(&cmd.commands[k], args, i + 1, 0);
            },
            None => {
                let rec = walk_params(cmd, args, i + 1, 2);
                let mut out = rec.1;
                let ghost rest = out.deep_view();
                out.insert(0, arg.clone());
                proof {
                    assert(out.deep_view() =~= seq![toks[i as int]] + rest);
                }
                return (rec.0, out);
            },
        }
    }
    let rec = walk_params(cmd, args, i + 1, 2);
    let mut out = rec.1;
    let ghost rest = out.deep_view();
    out.insert(0, arg.clone());
    proof {
        assert(out.deep_view() =~= seq![toks[i as int]] + rest);
    }
    (rec.0, out)
}

/// Returns param summary objects for a command. The token stream is
/// re-walked from the root, skipping subcommand names and flag tokens with
/// their values; the remaining free tokens are bound in order to the last
/// declared params, the leading ones receiving their declared default;
/// more free tokens than declared params is an error.
pub fn build_param_summaries<C>(command: &Command<C>, args: &Vec<String>) -> (r: Result<
    Vec<ParamSummary>,
    Error,
>)
    ensures
        ({
            let w = spec_param_walk(*command, args.deep_view(), 0, 0);
            if w.1.len() > w.0.params@.len() {
                r matches Err(e) && e.kind@ == ErrorKindV::ToManyParams(
                    w.0.params@.len() as int,
                    w.1.len() as int,
                ) && spec_error_wf(e)
            } else {
                r matches Ok(v) && v.deep_view() == param_summaries_of(w.0.params@, w.1)
            }
        }),
{
    let ghost w = spec_param_walk(*command, args.deep_view(), 0, 0);
    let walked = walk_params(command, args, 0, 0);
    let cmd = walked.0;
    let inputs = walked.1;
    let pcount = cmd.params.len();
    let icount = inputs.len();
    if pcount < icount {
        proof {
            assert(ErrorKind::ToManyParams(pcount, icount)@ == ErrorKindV::ToManyParams(
                w.0.params@.len() as int,
                w.1.len() as int,
            ));
        }
        return Err(Error::new(ErrorKind::ToManyParams(pcount, icount)));
    }
    let unbound = pcount - icount;
    let ghost expected = param_summaries_of(cmd.params@, inputs.deep_view());
    let mut items: Vec<ParamSummary> = Vec::new();
    let mut k: usize = 0;
    while k < pcount
        invariant
            pcount == cmd.params@.len(),
            icount == inputs@.len(),
            icount <= pcount,
            unbound == pcount - icount,
            expected == param_summaries_of(cmd.params@, inputs.deep_view()),
            0 <= k <= pcount,
            items.deep_view() == expected.take(k as int),
        decreases pcount - k,
    {
        let ghost pre = items.deep_view();
        let s = if k < unbound {
            build_param_summary(&cmd.params[k], false, &cmd.params[k].default_value)
        } else {
            build_param_summary(&cmd.params[k], true, &Some(inputs[k - unbound].clone()))
        };
        let ghost sv = s@;
        items.push(s);
        proof {
            assert(sv == expected[k as int]);
            assert(items.deep_view() =~= pre.push(sv));
            assert(expected.take(k + 1) =~= pre.push(sv));
        }
        k += 1;
    }
    proof {
        assert(expected.take(pcount as int) =~= expected);
        assert(inputs.deep_view() == w.1);
    }
    Ok(items)
}

/// Returns summaries of the immediate child commands, sorted
/// case-insensitively by name.
pub fn build_subcommand_summaries<C>(command: &Command<C>) -> (r: Vec<CommandSummary>)
    ensures
        r.deep_view().to_multiset() == child_summaries(*command).to_multiset(),
        sorted_ci_summaries(r.deep_view()),
{
    let mut items: Vec<CommandSummary> = Vec::new();
    let mut i: usize = 0;
    while i < command.commands.len()
        invariant
            0 <= i <= command.commands@.len(),
            items.deep_view() == child_summaries(*command).take(i as int),
        decreases command.commands@.len() - i,
    {
        let ghost pre = items.deep_view();
        let s = build_command_summary(&command.commands[i]);
        let ghost sv = s@;
        items.push(s);
        proof {
            assert(items.deep_view() =~= pre.push(sv));
            assert(child_summaries(*command).take(i + 1) =~= pre.push(sv));
        }
        i += 1;
    }
    proof {
        assert(child_summaries(*command).take(command.commands@.len() as int) =~= child_summaries(
            *command,
        ));
    }
    sort_command_summaries(items)
}

} // verus!
