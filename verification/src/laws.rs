//! Laws of the resolution model: statements that relate several runs of the
//! flag scanner or spell out one stage's outcome, each proved once and for
//! all inputs.

use vstd::prelude::*;

verus! {

use crate::command::Command;
use crate::error_kind::ErrorKindV;
use crate::flag::Flag;
use crate::model::cmd_at;
use crate::model::default_flag_summary_v;
use crate::model::first_child_named;
use crate::model::first_scan_match;
use crate::model::flag_summaries_of;
use crate::model::param_summaries_of;
use crate::model::lemma_cmd_at_shift;
use crate::model::lemma_first_child_named;
use crate::model::spec_flag_scan;
use crate::model::spec_positions;
use crate::param::Param;
use crate::text::is_end_marker;
use crate::text::starts_dash;

/// The flag scanner gives the same verdict wherever in the token list it
/// stands: scanning from position `i` is scanning the suffix from its start.
pub proof fn lemma_scan_shift(
    flags: Seq<Flag>,
    toks: Seq<Seq<char>>,
    i: int,
    m: Map<int, Option<Seq<char>>>,
)
    requires
        0 <= i <= toks.len(),
    ensures
        spec_flag_scan(flags, toks, i, m) == spec_flag_scan(flags, toks.skip(i), 0, m),
    decreases toks.len() - i,
{
    let tail = toks.skip(i);
    if i >= toks.len() {
        assert(tail.len() == 0);
    } else {
        assert(tail[0] == toks[i]);
        if !starts_dash(toks[i]) {
            lemma_scan_shift(flags, toks, i + 1, m);
            lemma_scan_shift(flags, tail, 1, m);
            assert(tail.skip(1) =~= toks.skip(i + 1));
        } else if is_end_marker(toks[i]) {
        } else {
            match first_scan_match(flags, toks[i], 0) {
                None => {},
                Some(j) => {
                    if flags[j]@.accepts_value {
                        if i + 1 < toks.len() && !starts_dash(toks[i + 1]) {
                            assert(tail[1] == toks[i + 1]);
                            let m2 = m.insert(j, Some(toks[i + 1]));
                            lemma_scan_shift(flags, toks, i + 2, m2);
                            lemma_scan_shift(flags, tail, 2, m2);
                            assert(tail.skip(2) =~= toks.skip(i + 2));
                        } else {
                            if 1 < tail.len() {
                                assert(tail[1] == toks[i + 1]);
                            }
                        }
                    } else {
                        let m2 = m.insert(j, None);
                        lemma_scan_shift(flags, toks, i + 1, m2);
                        lemma_scan_shift(flags, tail, 1, m2);
                        assert(tail.skip(1) =~= toks.skip(i + 1));
                    }
                },
            }
        }
    }
}

/// A resolved subcommand path is exactly the path of matched indices: each
/// entry is the first child of the node walked to so far whose name equals
/// the corresponding leading token, and that token is not flag-shaped.
pub proof fn lemma_positions_match_tokens<C>(cmd: Command<C>, toks: Seq<Seq<char>>, i: int)
    requires
        0 <= i <= toks.len(),
        spec_positions(cmd, toks, i) is Ok,
    ensures
        ({
            let p = spec_positions(cmd, toks, i)->Ok_0;
            &&& p.len() <= toks.len() - i
            &&& forall|x: int|
                0 <= x < p.len() ==> {
                    let c = cmd_at(cmd, #[trigger] p.subrange(0, x), 0);
                    &&& !starts_dash(toks[i + x])
                    &&& first_child_named(c.commands@, toks[i + x], 0) == Some(p[x])
                    &&& 0 <= p[x] < c.commands@.len()
                    &&& c.commands@[p[x]].name@ == toks[i + x]
                }
        }),
    decreases toks.len() - i,
{
    if i >= toks.len() || starts_dash(toks[i]) {
    } else {
        match first_child_named(cmd.commands@, toks[i], 0) {
            Some(j) => {
                lemma_first_child_named(cmd.commands@, toks[i], 0);
                let child = cmd.commands@[j];
                lemma_positions_match_tokens(child, toks, i + 1);
                let rest = spec_positions(child, toks, i + 1)->Ok_0;
                let p = spec_positions(cmd, toks, i)->Ok_0;
                assert(p == seq![j] + rest);
                assert forall|x: int| 0 <= x < p.len() implies {
                    let c = cmd_at(cmd, #[trigger] p.subrange(0, x), 0);
                    &&& !starts_dash(toks[i + x])
                    &&& first_child_named(c.commands@, toks[i + x], 0) == Some(p[x])
                    &&& 0 <= p[x] < c.commands@.len()
                    &&& c.commands@[p[x]].name@ == toks[i + x]
                } by {
                    if x == 0 {
                        assert(p.subrange(0, 0) =~= Seq::<int>::empty());
                        assert(cmd_at(cmd, p.subrange(0, 0), 0) == cmd);
                    } else {
                        let q = p.subrange(0, x);
                        assert(q[0] == j);
                        assert(q.subrange(1, q.len() as int) =~= rest.subrange(0, x - 1));
                        assert(cmd_at(cmd, q, 0) == cmd_at(child, q, 1));
                        lemma_cmd_at_shift(child, q, 1);
                        assert(rest.subrange(0, x - 1) == rest.subrange(0, x - 1));
                        assert(cmd_at(cmd, q, 0) == cmd_at(child, rest.subrange(0, x - 1), 0));
                        assert(p[x] == rest[x - 1]);
                    }
                }
            },
            None => {
                assert(false);
            },
        }
    }
}

/// A scan that succeeds never records a flag that no token selects: the
/// recorded indices all come from matched tokens.
proof fn lemma_scan_preserves_absent(
    flags: Seq<Flag>,
    toks: Seq<Seq<char>>,
    i: int,
    m: Map<int, Option<Seq<char>>>,
    j: int,
)
    requires
        spec_flag_scan(flags, toks, i, m) is Ok,
        !m.dom().contains(j),
        forall|t: int|
            i <= t < toks.len() ==> first_scan_match(flags, #[trigger] toks[t], 0) != Some(j),
    ensures
        !(spec_flag_scan(flags, toks, i, m)->Ok_0).dom().contains(j),
    decreases toks.len() - i,
{
    if i < 0 || i >= toks.len() {
    } else if !starts_dash(toks[i]) {
        lemma_scan_preserves_absent(flags, toks, i + 1, m, j);
    } else if is_end_marker(toks[i]) {
    } else {
        match first_scan_match(flags, toks[i], 0) {
            None => {},
            Some(k) => {
                if flags[k]@.accepts_value {
                    if i + 1 < toks.len() && !starts_dash(toks[i + 1]) {
                        lemma_scan_preserves_absent(
                            flags,
                            toks,
                            i + 2,
                            m.insert(k, Some(toks[i + 1])),
                            j,
                        );
                    }
                } else {
                    lemma_scan_preserves_absent(flags, toks, i + 1, m.insert(k, None), j);
                }
            },
        }
    }
}

/// For every declared flag that no token of the input selects, the scan
/// leaves its summary unprovided, with the declared default as its value.
pub proof fn lemma_absent_flag_defaulted(flags: Seq<Flag>, toks: Seq<Seq<char>>, j: int)
    requires
        0 <= j < flags.len(),
        spec_flag_scan(flags, toks, 0, Map::empty()) is Ok,
        forall|t: int|
            0 <= t < toks.len() ==> first_scan_match(flags, #[trigger] toks[t], 0) != Some(j),
    ensures
        ({
            let m = spec_flag_scan(flags, toks, 0, Map::empty())->Ok_0;
            &&& flag_summaries_of(flags, m)[j] == default_flag_summary_v(flags[j]@)
            &&& !flag_summaries_of(flags, m)[j].provided
            &&& flag_summaries_of(flags, m)[j].value == flags[j]@.default_value
        }),
{
    lemma_scan_preserves_absent(flags, toks, 0, Map::empty(), j);
}

/// A token that selects a value-accepting flag and is followed by the end
/// of the input or by another flag-shaped token makes the scan fail with
/// the missing-value error for that token, whatever was recorded before.
pub proof fn lemma_missing_flag_value(
    flags: Seq<Flag>,
    toks: Seq<Seq<char>>,
    i: int,
    m: Map<int, Option<Seq<char>>>,
)
    requires
        0 <= i < toks.len(),
        starts_dash(toks[i]),
        !is_end_marker(toks[i]),
        first_scan_match(flags, toks[i], 0) matches Some(j) && flags[j]@.accepts_value,
        i + 1 >= toks.len() || starts_dash(toks[i + 1]),
    ensures
        spec_flag_scan(flags, toks, i, m) == Err::<Map<int, Option<Seq<char>>>, ErrorKindV>(
            ErrorKindV::MissingFlagValue(toks[i]),
        ),
{
}

/// When no more free tokens are collected than params are declared, the
/// last declared params receive the free tokens in order, marked provided,
/// and every param before them keeps its declared default, unprovided.
pub proof fn lemma_param_binding(params: Seq<Param>, inputs: Seq<Seq<char>>, k: int)
    requires
        inputs.len() <= params.len(),
        0 <= k < params.len(),
    ensures
        ({
            let unbound = params.len() - inputs.len();
            let s = param_summaries_of(params, inputs)[k];
            &&& s.name == params[k]@.name
            &&& (k < unbound ==> !s.provided && s.value == params[k]@.default_value)
            &&& (k >= unbound ==> s.provided && s.value == Some(inputs[k - unbound]))
        }),
{
}

// ---------------------------------------------------------------------------
// Order independence of flag scanning
// ---------------------------------------------------------------------------
/// A well-formed flag group: one flag token that selects a declared flag,
/// together with its value token when that flag accepts a value.
pub open spec fn group_ok(flags: Seq<Flag>, g: Seq<Seq<char>>) -> bool {
    &&& g.len() >= 1
    &&& starts_dash(g[0])
    &&& !is_end_marker(g[0])
    &&& match first_scan_match(flags, g[0], 0) {
        Some(j) => if flags[j]@.accepts_value {
            g.len() == 2 && !starts_dash(g[1])
        } else {
            g.len() == 1
        },
        None => false,
    }
}

/// The declared flag that a group selects.
pub open spec fn group_idx(flags: Seq<Flag>, g: Seq<Seq<char>>) -> int {
    first_scan_match(flags, g[0], 0)->0
}

/// The value that a group provides.
pub open spec fn group_val(flags: Seq<Flag>, g: Seq<Seq<char>>) -> Option<Seq<char>> {
    if flags[group_idx(flags, g)]@.accepts_value {
        Some(g[1])
    } else {
        None
    }
}

/// The record that scanning a list of groups leaves, group by group.
pub open spec fn scan_groups_map(
    flags: Seq<Flag>,
    gs: Seq<Seq<Seq<char>>>,
    m: Map<int, Option<Seq<char>>>,
) -> Map<int, Option<Seq<char>>>
    decreases gs.len(),
{
    if gs.len() == 0 {
        m
    } else {
        scan_groups_map(
            flags,
            gs.drop_first(),
            m.insert(group_idx(flags, gs[0]), group_val(flags, gs[0])),
        )
    }
}

/// Scanning a token list that consists of well-formed flag groups succeeds
/// and records exactly the groups' flags and values.
pub proof fn lemma_scan_of_groups(
    flags: Seq<Flag>,
    gs: Seq<Seq<Seq<char>>>,
    m: Map<int, Option<Seq<char>>>,
)
    requires
        forall|x: int| 0 <= x < gs.len() ==> group_ok(flags, #[trigger] gs[x]),
    ensures
        spec_flag_scan(flags, gs.flatten(), 0, m) == Ok::<Map<int, Option<Seq<char>>>, ErrorKindV>(
            scan_groups_map(flags, gs, m),
        ),
    decreases gs.len(),
{
    if gs.len() == 0 {
        assert(gs.flatten().len() == 0);
    } else {
        let g = gs[0];
        let rest = gs.drop_first();
        let toks = gs.flatten();
        assert(toks == g + rest.flatten());
        assert(toks[0] == g[0]);
        let j = group_idx(flags, g);
        if flags[j]@.accepts_value {
            assert(toks[1] == g[1]);
            let m2 = m.insert(j, Some(g[1]));
            assert(spec_flag_scan(flags, toks, 0, m) == spec_flag_scan(flags, toks, 2, m2));
            lemma_scan_shift(flags, toks, 2, m2);
            assert(toks.skip(2) =~= rest.flatten());
            lemma_scan_of_groups(flags, rest, m2);
            assert(group_val(flags, g) == Some(g[1]));
        } else {
            let m2 = m.insert(j, None);
            assert(spec_flag_scan(flags, toks, 0, m) == spec_flag_scan(flags, toks, 1, m2));
            lemma_scan_shift(flags, toks, 1, m2);
            assert(toks.skip(1) =~= rest.flatten());
            lemma_scan_of_groups(flags, rest, m2);
            assert(group_val(flags, g) == None::<Seq<char>>);
        }
    }
}

/// What the group record holds, pointwise, when no two groups select the
/// same flag: each selected flag maps to its group's value, and nothing
/// else changes.
proof fn lemma_groups_map_pointwise(
    flags: Seq<Flag>,
    gs: Seq<Seq<Seq<char>>>,
    m: Map<int, Option<Seq<char>>>,
    j: int,
)
    requires
        forall|x: int, y: int|
            0 <= x < y < gs.len() ==> group_idx(flags, #[trigger] gs[x]) != group_idx(
                flags,
                #[trigger] gs[y],
            ),
    ensures
        forall|x: int|
            0 <= x < gs.len() && group_idx(flags, #[trigger] gs[x]) == j ==> scan_groups_map(
                flags,
                gs,
                m,
            ).dom().contains(j) && scan_groups_map(flags, gs, m)[j] == group_val(flags, gs[x]),
        (forall|x: int| 0 <= x < gs.len() ==> group_idx(flags, #[trigger] gs[x]) != j) ==> ((
        scan_groups_map(flags, gs, m).dom().contains(j) <==> m.dom().contains(j)) && (
        m.dom().contains(j) ==> scan_groups_map(flags, gs, m)[j] == m[j])),
    decreases gs.len(),
{
    if gs.len() > 0 {
        let g = gs[0];
        let rest = gs.drop_first();
        let m2 = m.insert(group_idx(flags, g), group_val(flags, g));
        let mm = scan_groups_map(flags, gs, m);
        assert(mm == scan_groups_map(flags, rest, m2));
        assert(forall|x: int| 0 <= x < rest.len() ==> #[trigger] rest[x] == gs[x + 1]);
        lemma_groups_map_pointwise(flags, rest, m2, j);
        if group_idx(flags, g) == j {
            assert forall|x: int|
                0 <= x < rest.len() implies group_idx(flags, #[trigger] rest[x]) != j by {
                assert(rest[x] == gs[x + 1]);
            }
            assert(mm.dom().contains(j) && mm[j] == m2[j]);
            assert(m2[j] == group_val(flags, g));
        } else {
            assert forall|x: int|
                0 <= x < gs.len() && group_idx(flags, #[trigger] gs[x]) == j implies
                mm.dom().contains(j) && mm[j] == group_val(flags, gs[x]) by {
                assert(x > 0);
                assert(rest[x - 1] == gs[x]);
            }
            if forall|x: int| 0 <= x < gs.len() ==> group_idx(flags, #[trigger] gs[x]) != j {
                assert forall|x: int|
                    0 <= x < rest.len() implies group_idx(flags, #[trigger] rest[x]) != j by {
                    assert(rest[x] == gs[x + 1]);
                }
                assert(m2.dom().contains(j) == m.dom().contains(j));
            }
        }
    }
}

/// Scanning flag groups is insensitive to their order: two group lists with
/// the same groups, no two of which select the same flag, leave the same
/// record and so the same flag summaries.
pub proof fn lemma_flag_order_irrelevant(
    flags: Seq<Flag>,
    gs1: Seq<Seq<Seq<char>>>,
    gs2: Seq<Seq<Seq<char>>>,
)
    requires
        forall|x: int| 0 <= x < gs1.len() ==> group_ok(flags, #[trigger] gs1[x]),
        forall|x: int| 0 <= x < gs2.len() ==> group_ok(flags, #[trigger] gs2[x]),
        forall|x: int, y: int|
            0 <= x < y < gs1.len() ==> group_idx(flags, #[trigger] gs1[x]) != group_idx(
                flags,
                #[trigger] gs1[y],
            ),
        forall|x: int, y: int|
            0 <= x < y < gs2.len() ==> group_idx(flags, #[trigger] gs2[x]) != group_idx(
                flags,
                #[trigger] gs2[y],
            ),
        gs1.to_multiset() == gs2.to_multiset(),
    ensures
        spec_flag_scan(flags, gs1.flatten(), 0, Map::empty()) == spec_flag_scan(
            flags,
            gs2.flatten(),
            0,
            Map::empty(),
        ),
        flag_summaries_of(flags, spec_flag_scan(flags, gs1.flatten(), 0, Map::empty())->Ok_0)
            == flag_summaries_of(flags, spec_flag_scan(flags, gs2.flatten(), 0, Map::empty())->Ok_0),
{
    broadcast use vstd::seq_lib::group_to_multiset_ensures;

    let m0 = Map::<int, Option<Seq<char>>>::empty();
    lemma_scan_of_groups(flags, gs1, m0);
    lemma_scan_of_groups(flags, gs2, m0);
    let m1 = scan_groups_map(flags, gs1, m0);
    let m2 = scan_groups_map(flags, gs2, m0);
    assert forall|j: int| #[trigger] m1.dom().contains(j) implies m2.dom().contains(j) && m1[j]
        == m2[j] by {
        lemma_groups_map_pointwise(flags, gs1, m0, j);
        lemma_groups_map_pointwise(flags, gs2, m0, j);
        assert(exists|x: int| 0 <= x < gs1.len() && group_idx(flags, #[trigger] gs1[x]) == j) by {
            assert(!m0.dom().contains(j));
        }
        let x = choose|x: int| 0 <= x < gs1.len() && group_idx(flags, #[trigger] gs1[x]) == j;
        assert(m1[j] == group_val(flags, gs1[x]));
        assert(gs1.contains(gs1[x]));
        assert(gs2.to_multiset().count(gs1[x]) > 0);
        assert(gs2.contains(gs1[x]));
        let y = choose|y: int| 0 <= y < gs2.len() && gs2[y] == gs1[x];
        assert(group_idx(flags, gs2[y]) == j);
        assert(m2.dom().contains(j) && m2[j] == group_val(flags, gs2[y]));
    }
    assert forall|j: int| #[trigger] m2.dom().contains(j) implies m1.dom().contains(j) by {
        lemma_groups_map_pointwise(flags, gs1, m0, j);
        lemma_groups_map_pointwise(flags, gs2, m0, j);
        assert(exists|x: int| 0 <= x < gs2.len() && group_idx(flags, #[trigger] gs2[x]) == j) by {
            assert(!m0.dom().contains(j));
        }
        let x = choose|x: int| 0 <= x < gs2.len() && group_idx(flags, #[trigger] gs2[x]) == j;
        assert(gs2.contains(gs2[x]));
        assert(gs1.to_multiset().count(gs2[x]) > 0);
        assert(gs1.contains(gs2[x]));
        let y = choose|y: int| 0 <= y < gs1.len() && gs1[y] == gs2[x];
        assert(group_idx(flags, gs1[y]) == j);
        assert(m1.dom().contains(j));
    }
    assert(m1 =~= m2);
}

} // verus!
