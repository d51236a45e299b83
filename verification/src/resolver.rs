//! The workspace/output resolver: state-free functions over a listing
//! snapshot fetched immediately before use. They compute the focused output,
//! its index, the cyclic neighbour of an output, the workspace a 1-based
//! position refers to, and the first visible workspace of an adjacent
//! output.

use vstd::prelude::*;
use vstd::arithmetic::div_mod::{lemma_mod_multiples_vanish, lemma_mod_self_0, lemma_small_mod};

use crate::errors::IpcError;
use crate::interp::{OutputInfo, WorkspaceInfo};
use crate::names::{dash_name, dec_string, fmt_output_workspace, spec_colon_name, spec_dash_name, spec_dec};

verus! {

/// The step direction when cycling through the output listing.
#[derive(Clone, Copy, Debug, PartialEq, Eq, Structural)]
pub enum Direction {
    Next,
    Prev,
}

/// How a target is named when the requested position has no workspace yet:
/// the reproducible `output-position`, or `output:position-suffix` with a
/// drawn suffix that keeps clear of previously renamed workspaces.
#[derive(Clone, Copy, Debug, PartialEq, Eq, Structural)]
pub enum NamingMode {
    Deterministic,
    CollisionAvoiding,
}

/// Whether no entry of the listing is focused.
pub open spec fn spec_no_focused(outputs: Seq<OutputInfo>) -> bool {
    forall|j: int| 0 <= j < outputs.len() ==> !outputs[j].focused
}

/// Whether `i` is the index of the first focused entry of the listing.
pub open spec fn spec_first_focused(outputs: Seq<OutputInfo>, i: int) -> bool {
    &&& 0 <= i < outputs.len()
    &&& outputs[i].focused
    &&& forall|j: int| 0 <= j < i ==> !outputs[j].focused
}

/// Whether `j` is the index of the first workspace of the listing that is
/// bound to `output` and currently visible.
pub open spec fn spec_first_visible_on(
    workspaces: Seq<WorkspaceInfo>,
    output: Seq<char>,
    j: int,
) -> bool {
    &&& 0 <= j < workspaces.len()
    &&& workspaces[j].output@ == output
    &&& workspaces[j].visible
    &&& forall|k: int|
        0 <= k < j ==> !(workspaces[k].output@ == output && workspaces[k].visible)
}

/// Whether no workspace of the listing is bound to `output` and visible.
pub open spec fn spec_no_visible_on(workspaces: Seq<WorkspaceInfo>, output: Seq<char>) -> bool {
    forall|j: int|
        0 <= j < workspaces.len() ==> !(workspaces[j].output@ == output
            && workspaces[j].visible)
}

/// The index of the first focused entry of the listing, in listing order as
/// the compositor emitted it. This index doubles as the logical output
/// identifier. Fails only when nothing is focused.
pub fn focused_output_index(outputs: &Vec<OutputInfo>) -> (r: Result<usize, IpcError>)
    ensures
        (match r {
            Ok(i) => spec_first_focused(outputs@, i as int),
            Err(e) => e == IpcError::NoFocusedEntity && spec_no_focused(outputs@),
        }),
{
    let n = outputs.len();
    let mut i: usize = 0;
    while i < n
        invariant
            i <= n,
            n == outputs@.len(),
            forall|j: int| 0 <= j < i ==> !outputs@[j].focused,
        decreases n - i,
    {
        if outputs[i].focused {
            return Ok(i);
        }
        i += 1;
    }
    Err(IpcError::NoFocusedEntity)
}

/// The first focused entry of the listing. Fails only when nothing is
/// focused; the protocol normally guarantees exactly one.
pub fn focused_output(outputs: &Vec<OutputInfo>) -> (r: Result<OutputInfo, IpcError>)
    ensures
        (match r {
            Ok(o) => exists|i: int| #[trigger]
                spec_first_focused(outputs@, i) && outputs@[i] == o,
            Err(e) => e == IpcError::NoFocusedEntity && spec_no_focused(outputs@),
        }),
{
    match focused_output_index(outputs) {
        Ok(i) => Ok(outputs[i].duplicate()),
        Err(e) => Err(e),
    }
}

/// The index one cyclic step away from `i` in a listing of `n` entries.
pub open spec fn spec_adjacent_index(i: int, n: int, direction: Direction) -> int {
    match direction {
        Direction::Next => if i + 1 < n {
            i + 1
        } else {
            0
        },
        Direction::Prev => if i == 0 {
            n - 1
        } else {
            i - 1
        },
    }
}

/// The cyclic step is exactly `(i + 1) mod n` forward and `(i + n - 1) mod n`
/// backward, for every in-range index.
pub proof fn lemma_adjacent_index_is_mod(i: int, n: int, direction: Direction)
    requires
        0 <= i < n,
    ensures
        direction is Next ==> spec_adjacent_index(i, n, direction) == (i + 1) % n,
        direction is Prev ==> spec_adjacent_index(i, n, direction) == (i + n - 1) % n,
{
    match direction {
        Direction::Next => {
            if i + 1 < n {
                lemma_small_mod((i + 1) as nat, n as nat);
            } else {
                lemma_mod_self_0(n);
            }
        },
        Direction::Prev => {
            lemma_mod_multiples_vanish(1, i - 1, n);
            if i == 0 {
                lemma_small_mod((n - 1) as nat, n as nat);
                assert(i + n - 1 == n * 1 + (i - 1));
            } else {
                lemma_small_mod((i - 1) as nat, n as nat);
                assert(i + n - 1 == n * 1 + (i - 1));
            }
        },
    }
}

/// Steps one position through the listing, cyclically: the successor of the
/// last entry is the first, the predecessor of the first is the last. A
/// single-entry listing wraps to itself.
pub fn adjacent_index(len: usize, from_index: usize, direction: Direction) -> (r: usize)
    requires
        from_index < len,
    ensures
        r as int == spec_adjacent_index(from_index as int, len as int, direction),
{
    match direction {
        Direction::Next => {
            if from_index + 1 < len {
                from_index + 1
            } else {
                0
            }
        },
        Direction::Prev => {
            if from_index == 0 {
                len - 1
            } else {
                from_index - 1
            }
        },
    }
}

/// The entry one cyclic step away from `from_index`.
pub fn adjacent_output(outputs: &Vec<OutputInfo>, from_index: usize, direction: Direction) -> (r:
    OutputInfo)
    requires
        from_index < outputs@.len(),
    ensures
        r == outputs@[spec_adjacent_index(
            from_index as int,
            outputs@.len() as int,
            direction,
        )],
{
    let i = adjacent_index(outputs.len(), from_index, direction);
    outputs[i].duplicate()
}

/// Where `k` forward steps from `i` land in a listing of `n` entries.
pub open spec fn spec_iterate_next(i: int, n: int, k: nat) -> int
    decreases k,
{
    if k == 0 {
        i
    } else {
        spec_adjacent_index(spec_iterate_next(i, n, (k - 1) as nat), n, Direction::Next)
    }
}

proof fn lemma_iterate_next_value(i: int, n: int, k: nat)
    requires
        0 <= i < n,
        k <= n,
    ensures
        spec_iterate_next(i, n, k) == if i + k < n {
            i + k
        } else {
            i + k - n
        },
    decreases k,
{
    if k > 0 {
        lemma_iterate_next_value(i, n, (k - 1) as nat);
    }
}

/// Cycling: stepping to the next output as many times as the listing has
/// entries returns to the starting index, for every in-range start.
pub proof fn lemma_next_cycle(i: int, n: int)
    requires
        0 <= i < n,
    ensures
        spec_iterate_next(i, n, n as nat) == i,
{
    lemma_iterate_next_value(i, n, n as nat);
}

/// For a listing of at least one output of which exactly one is focused,
/// the index `focused_output_index` resolves to is that entry's position,
/// in range, and stepping to the next output once per listed entry leads
/// back to it.
pub proof fn lemma_focused_cycle(outputs: Seq<OutputInfo>, i: int)
    requires
        outputs.len() >= 1,
        0 <= i < outputs.len(),
        outputs[i].focused,
        forall|j: int| 0 <= j < outputs.len() && j != i ==> !outputs[j].focused,
    ensures
        spec_first_focused(outputs, i),
        spec_iterate_next(i, outputs.len() as int, outputs.len() as nat) == i,
{
    lemma_next_cycle(i, outputs.len() as int);
}

/// The workspaces bound to one output, keeping the compositor-reported
/// relative order.
pub open spec fn spec_on_output(workspaces: Seq<WorkspaceInfo>, output: Seq<char>) -> Seq<
    WorkspaceInfo,
> {
    workspaces.filter(|w: WorkspaceInfo| w.output@ == output)
}

/// Filters the listing down to the workspaces bound to `output_name`,
/// preserving their relative order.
pub fn workspaces_on_output(workspaces: &Vec<WorkspaceInfo>, output_name: &str) -> (r: Vec<
    WorkspaceInfo,
>)
    ensures
        r@ == spec_on_output(workspaces@, output_name@),
{
    let owned = output_name.to_owned();
    let n = workspaces.len();
    let mut r: Vec<WorkspaceInfo> = Vec::new();
    proof {
        assert(workspaces@.subrange(0, 0) =~= Seq::<WorkspaceInfo>::empty());
        reveal(Seq::filter);
    }
    let mut i: usize = 0;
    while i < n
        invariant
            i <= n,
            n == workspaces@.len(),
            owned@ == output_name@,
            r@ == spec_on_output(workspaces@.subrange(0, i as int), output_name@),
        decreases n - i,
    {
        proof {
            let prefix = workspaces@.subrange(0, i as int + 1);
            assert(prefix.drop_last() =~= workspaces@.subrange(0, i as int));
            assert(prefix.last() == workspaces@[i as int]);
            reveal(Seq::filter);
        }
        if workspaces[i].output == owned {
            r.push(workspaces[i].duplicate());
        }
        i += 1;
    }
    proof {
        assert(workspaces@.subrange(0, n as int) =~= workspaces@);
    }
    r
}

/// Whether `t` is a name the resolver may return for the 1-based `position`
/// on `output`: the real name of the position-th workspace bound to the
/// output when the position is within their count, and otherwise the
/// synthetic name of the chosen shape (pinned exactly for the deterministic
/// shape, pinned up to the drawn suffix for the collision-avoiding one).
pub open spec fn spec_is_target(
    t: Seq<char>,
    workspaces: Seq<WorkspaceInfo>,
    output: Seq<char>,
    position: nat,
    mode: NamingMode,
) -> bool {
    let matching = spec_on_output(workspaces, output);
    if position <= matching.len() {
        t == matching[position - 1].name@
    } else {
        match mode {
            NamingMode::Deterministic => t == spec_dash_name(output, position),
            NamingMode::CollisionAvoiding => exists|b: u8|
                t == spec_colon_name(output, spec_dec(position), b as nat),
        }
    }
}

/// The name a 1-based position on an output refers to. A position within
/// the count of that output's workspaces names the existing workspace; a
/// larger position names a fresh target in the chosen synthetic shape, and
/// the compositor will create the workspace on first reference.
pub fn workspace_at_position(
    workspaces: &Vec<WorkspaceInfo>,
    output_name: &str,
    position: usize,
    mode: NamingMode,
) -> (r: String)
    requires
        1 <= position,
    ensures
        spec_is_target(r@, workspaces@, output_name@, position as nat, mode),
{
    let matching = workspaces_on_output(workspaces, output_name);
    if position <= matching.len() {
        matching[position - 1].name.clone()
    } else {
        match mode {
            NamingMode::Deterministic => dash_name(output_name, position as u64),
            NamingMode::CollisionAvoiding => {
                let label = dec_string(position as u64);
                fmt_output_workspace(output_name, label.as_str())
            },
        }
    }
}

/// A position within the matching count resolves to a workspace of the
/// listing itself: the name returned is some listed workspace's real name.
pub proof fn lemma_position_names_existing(
    workspaces: Seq<WorkspaceInfo>,
    output: Seq<char>,
    position: int,
)
    requires
        1 <= position <= spec_on_output(workspaces, output).len(),
    ensures
        exists|j: int|
            0 <= j < workspaces.len() && workspaces[j] == spec_on_output(workspaces, output)[
                position - 1
            ],
{
    lemma_on_output_contains(workspaces, output, position - 1);
    let w = spec_on_output(workspaces, output)[position - 1];
    let j = choose|j: int| 0 <= j < workspaces.len() && workspaces[j] == w;
    assert(0 <= j < workspaces.len() && workspaces[j] == w);
}

proof fn lemma_on_output_contains(workspaces: Seq<WorkspaceInfo>, output: Seq<char>, k: int)
    requires
        0 <= k < spec_on_output(workspaces, output).len(),
    ensures
        workspaces.contains(spec_on_output(workspaces, output)[k]),
    decreases workspaces.len(),
{
    reveal(Seq::filter);
    let filtered = spec_on_output(workspaces, output);
    if workspaces.len() > 0 {
        let prev = workspaces.drop_last();
        let prev_filtered = spec_on_output(prev, output);
        if k < prev_filtered.len() {
            lemma_on_output_contains(prev, output, k);
            let w = prev_filtered[k];
            let j = choose|j: int| 0 <= j < prev.len() && prev[j] == w;
            assert(workspaces[j] == w);
        } else {
            assert(filtered[k] == workspaces.last());
            assert(workspaces[workspaces.len() - 1] == workspaces.last());
        }
    }
}

/// The tag every name of a position's slot begins with: `output:position`.
/// Both the collision-avoiding synthetic shape and any earlier occupant of
/// the slot carry it as a prefix.
pub open spec fn spec_position_tag(output: Seq<char>, position: nat) -> Seq<char> {
    output + ":"@ + spec_dec(position)
}

/// A synthetic name carries the output identifier and the requested
/// position: the deterministic shape is the output, one dash, then the
/// position's digits, and the collision-avoiding shape begins with the
/// position's tag.
pub proof fn lemma_synthetic_name_structure(output: Seq<char>, position: nat, b: u8)
    ensures
        spec_dash_name(output, position).len() == output.len() + 1 + spec_dec(position).len(),
        spec_dash_name(output, position).subrange(0, output.len() as int) == output,
        spec_dash_name(output, position).subrange(
            output.len() as int + 1,
            spec_dash_name(output, position).len() as int,
        ) == spec_dec(position),
        spec_dash_name(output, position)[output.len() as int] == '-',
        spec_position_tag(output, position).is_prefix_of(
            spec_colon_name(output, spec_dec(position), b as nat),
        ),
{
    reveal_strlit("-");
    let d = spec_dash_name(output, position);
    assert(d.subrange(0, output.len() as int) =~= output);
    assert(d.subrange(output.len() as int + 1, d.len() as int) =~= spec_dec(position));
    let tag = spec_position_tag(output, position);
    let full = spec_colon_name(output, spec_dec(position), b as nat);
    assert(full.subrange(0, tag.len() as int) =~= tag);
}

/// A collision-avoiding synthetic target, whatever suffix was drawn, never
/// collides with a listed workspace name, provided no listed name already
/// begins with the position's tag — the trace a previous rename away from
/// that slot could have left.
pub proof fn lemma_synthetic_name_fresh(
    workspaces: Seq<WorkspaceInfo>,
    output: Seq<char>,
    position: nat,
    b: u8,
)
    requires
        forall|j: int|
            0 <= j < workspaces.len() ==> !spec_position_tag(output, position).is_prefix_of(
                #[trigger] workspaces[j].name@,
            ),
    ensures
        forall|j: int|
            0 <= j < workspaces.len() ==> #[trigger] workspaces[j].name@ != spec_colon_name(
                output,
                spec_dec(position),
                b as nat,
            ),
{
    let tag = spec_position_tag(output, position);
    let full = spec_colon_name(output, spec_dec(position), b as nat);
    assert(full.subrange(0, tag.len() as int) =~= tag);
    assert(tag.is_prefix_of(full));
    assert forall|j: int| 0 <= j < workspaces.len() implies #[trigger] workspaces[j].name@
        != full by {
        if workspaces[j].name@ == full {
            assert(tag.is_prefix_of(workspaces[j].name@));
        }
    }
}

/// The first workspace that is both bound to the output one cyclic step
/// away and currently visible: the landing target when a container moves to
/// the adjacent output. Fails only when that output shows no visible
/// workspace, which a well-behaved compositor does not let happen.
pub fn target_workspace_for_output_transfer(
    outputs: &Vec<OutputInfo>,
    workspaces: &Vec<WorkspaceInfo>,
    from_output_index: usize,
    direction: Direction,
) -> (r: Result<WorkspaceInfo, IpcError>)
    requires
        from_output_index < outputs@.len(),
    ensures
        ({
            let adj = outputs@[spec_adjacent_index(
                from_output_index as int,
                outputs@.len() as int,
                direction,
            )];
            match r {
                Ok(w) => exists|j: int| #[trigger]
                    spec_first_visible_on(workspaces@, adj.name@, j) && workspaces@[j] == w,
                Err(e) => e == IpcError::NoVisibleWorkspace && spec_no_visible_on(
                    workspaces@,
                    adj.name@,
                ),
            }
        }),
{
    let adj = adjacent_output(outputs, from_output_index, direction);
    let n = workspaces.len();
    let mut i: usize = 0;
    while i < n
        invariant
            i <= n,
            n == workspaces@.len(),
            adj == outputs@[spec_adjacent_index(
                from_output_index as int,
                outputs@.len() as int,
                direction,
            )],
            forall|k: int|
                0 <= k < i ==> !(workspaces@[k].output@ == adj.name@
                    && workspaces@[k].visible),
        decreases n - i,
    {
        if workspaces[i].visible && workspaces[i].output == adj.name {
            proof {
                assert(spec_first_visible_on(workspaces@, adj.name@, i as int));
            }
            return Ok(workspaces[i].duplicate());
        }
        i += 1;
    }
    Err(IpcError::NoVisibleWorkspace)
}

} // verus!
