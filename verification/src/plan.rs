//! The operation orchestrator's decision side: each operation is computed
//! here as the exact, ordered list of command texts to send. The caller
//! sends them one at a time over the transport, demands a success
//! acknowledgment after each, and aborts the whole operation on the first
//! failure; nothing already sent is rolled back.

use vstd::prelude::*;

use crate::codec::{encode, spec_frame, MessageType};
use crate::commands::{
    move_command, rename_command, spec_move_command, spec_rename_command, spec_workspace_command,
    workspace_command,
};
use crate::errors::IpcError;
use crate::interp::{OutputInfo, WorkspaceInfo};
use crate::names::{dec_string, spec_dec};
use crate::commands::{focus_output_command, spec_focus_output_command};
use crate::resolver::{
    focused_output_index, spec_adjacent_index, spec_first_focused, spec_first_visible_on,
    spec_is_target, spec_no_focused, spec_no_visible_on, spec_on_output,
    target_workspace_for_output_transfer, workspace_at_position, workspaces_on_output, Direction,
    NamingMode,
};
use vstd::string::StrSliceExecFns;
use vstd::utf8::encode_utf8;

verus! {

/// One step of a rename plan: the workspace currently named `from` becomes
/// `to`.
#[derive(Debug)]
pub struct RenamePair {
    pub from: String,
    pub to: String,
}

/// The canonical name of the workspace at 1-based position `local_index` on
/// the output at listing index `output_index`.
pub open spec fn spec_canonical_name(output_index: nat, local_index: nat) -> Seq<char> {
    spec_dec(output_index) + "-"@ + spec_dec(local_index)
}

/// The temporary name a workspace holds between the two rename phases.
pub open spec fn spec_temp_name(canonical: Seq<char>) -> Seq<char> {
    "temp-"@ + canonical
}

/// The canonical-name assignments of one output's workspaces, in listing
/// order, with 1-based local indices.
pub open spec fn spec_output_assignments(ms: Seq<WorkspaceInfo>, output_index: nat) -> Seq<
    (WorkspaceInfo, Seq<char>),
> {
    Seq::new(ms.len(), |j: int| (ms[j], spec_canonical_name(output_index, (j + 1) as nat)))
}

/// The canonical-name assignments of every output from listing index `i`
/// onward, outputs in listing order, each output's workspaces in listing
/// order.
pub open spec fn spec_assignments_from(
    outputs: Seq<OutputInfo>,
    workspaces: Seq<WorkspaceInfo>,
    i: nat,
) -> Seq<(WorkspaceInfo, Seq<char>)>
    decreases outputs.len() - i,
{
    if i >= outputs.len() {
        Seq::empty()
    } else {
        spec_output_assignments(spec_on_output(workspaces, outputs[i as int].name@), i)
            + spec_assignments_from(outputs, workspaces, i + 1)
    }
}

/// The full canonical-name assignment of a listing.
pub open spec fn spec_assignments(
    outputs: Seq<OutputInfo>,
    workspaces: Seq<WorkspaceInfo>,
) -> Seq<(WorkspaceInfo, Seq<char>)> {
    spec_assignments_from(outputs, workspaces, 0)
}

/// Builds the canonical name `output_index-local_index`.
pub fn canonical_name(output_index: u64, local_index: u64) -> (r: String)
    ensures
        r@ == spec_canonical_name(output_index as nat, local_index as nat),
{
    let mut s = dec_string(output_index);
    s.append("-");
    let digits = dec_string(local_index);
    s.append(digits.as_str());
    proof {
        assert(s@ =~= spec_canonical_name(output_index as nat, local_index as nat));
    }
    s
}

/// Builds the temporary name for a canonical name.
pub fn temp_name(canonical: &str) -> (r: String)
    ensures
        r@ == spec_temp_name(canonical@),
{
    let mut s = "temp-".to_owned();
    s.append(canonical);
    s
}

/// Computes the two-phase rename plan that normalizes every workspace name
/// to its canonical `output_index-local_index`. Phase 1 renames every
/// workspace to a temporary name, phase 2 renames every temporary name to
/// its canonical name; entry `k` of the two phases concerns the same
/// workspace, so every phase-1 target is exactly the matching phase-2
/// source. Running all of phase 1 before any of phase 2 keeps an in-place
/// canonical swap from colliding with a name that is still in use.
pub fn normalize_plan(outputs: &Vec<OutputInfo>, workspaces: &Vec<WorkspaceInfo>) -> (r: (
    Vec<RenamePair>,
    Vec<RenamePair>,
))
    ensures
        ({
            let assigns = spec_assignments(outputs@, workspaces@);
            &&& r.0@.len() == assigns.len()
            &&& r.1@.len() == assigns.len()
            &&& forall|k: int|
                #![trigger r.0@[k]]
                #![trigger r.1@[k]]
                0 <= k < assigns.len() ==> {
                    &&& r.0@[k].from@ == assigns[k].0.name@
                    &&& r.0@[k].to@ == spec_temp_name(assigns[k].1)
                    &&& r.1@[k].from@ == spec_temp_name(assigns[k].1)
                    &&& r.1@[k].to@ == assigns[k].1
                }
            &&& forall|k: int|
                0 <= k < assigns.len() ==> (#[trigger] r.0@[k]).to@ == r.1@[k].from@
        }),
{
    let ghost assigns = spec_assignments(outputs@, workspaces@);
    let mut phase1: Vec<RenamePair> = Vec::new();
    let mut phase2: Vec<RenamePair> = Vec::new();
    let ghost mut done: Seq<(WorkspaceInfo, Seq<char>)> = Seq::empty();
    let n = outputs.len();
    proof {
        assert(assigns =~= done + spec_assignments_from(outputs@, workspaces@, 0));
    }
    let mut i: usize = 0;
    while i < n
        invariant
            i <= n,
            n == outputs@.len(),
            assigns == spec_assignments(outputs@, workspaces@),
            assigns == done + spec_assignments_from(outputs@, workspaces@, i as nat),
            phase1@.len() == done.len(),
            phase2@.len() == done.len(),
            forall|k: int|
                0 <= k < done.len() ==> {
                    &&& (#[trigger] phase1@[k]).from@ == done[k].0.name@
                    &&& phase1@[k].to@ == spec_temp_name(done[k].1)
                    &&& phase2@[k].from@ == spec_temp_name(done[k].1)
                    &&& phase2@[k].to@ == done[k].1
                },
        decreases n - i,
    {
        let ms = workspaces_on_output(workspaces, outputs[i].name.as_str());
        let ghost entry_done = done;
        let ghost seg = spec_output_assignments(ms@, i as nat);
        proof {
            assert(spec_assignments_from(outputs@, workspaces@, i as nat) == seg
                + spec_assignments_from(outputs@, workspaces@, i as nat + 1));
        }
        let m = ms.len();
        let mut j: usize = 0;
        while j < m
            invariant
                j <= m,
                m == ms@.len(),
                i < n,
                n == outputs@.len(),
                seg == spec_output_assignments(ms@, i as nat),
                done == entry_done + seg.subrange(0, j as int),
                phase1@.len() == done.len(),
                phase2@.len() == done.len(),
                forall|k: int|
                    0 <= k < done.len() ==> {
                        &&& (#[trigger] phase1@[k]).from@ == done[k].0.name@
                        &&& phase1@[k].to@ == spec_temp_name(done[k].1)
                        &&& phase2@[k].from@ == spec_temp_name(done[k].1)
                        &&& phase2@[k].to@ == done[k].1
                    },
            decreases m - j,
        {
            let canonical = canonical_name(i as u64, (j as u64) + 1);
            let temp = temp_name(canonical.as_str());
            phase1.push(RenamePair { from: ms[j].name.clone(), to: temp.clone() });
            phase2.push(RenamePair { from: temp, to: canonical });
            proof {
                done = done.push(seg[j as int]);
                assert(entry_done + seg.subrange(0, j as int + 1) =~= (entry_done
                    + seg.subrange(0, j as int)).push(seg[j as int]));
            }
            j += 1;
        }
        proof {
            assert(seg.subrange(0, m as int) =~= seg);
            assert(entry_done + seg + spec_assignments_from(outputs@, workspaces@, i as nat + 1)
                =~= entry_done + (seg + spec_assignments_from(
                outputs@,
                workspaces@,
                i as nat + 1,
            )));
        }
        i += 1;
    }
    proof {
        assert(done + spec_assignments_from(outputs@, workspaces@, n as nat) =~= done);
    }
    (phase1, phase2)
}

/// No phase-1 target collides with any workspace's pre-rename name,
/// whatever the listing, provided no listed name already begins with the
/// temporary prefix — the trace an interrupted earlier normalization could
/// have left.
pub proof fn lemma_phase1_targets_fresh(
    outputs: Seq<OutputInfo>,
    workspaces: Seq<WorkspaceInfo>,
)
    requires
        forall|j: int|
            0 <= j < workspaces.len() ==> !"temp-"@.is_prefix_of(
                #[trigger] workspaces[j].name@,
            ),
    ensures
        forall|k: int, j: int|
            0 <= k < spec_assignments(outputs, workspaces).len() && 0 <= j < workspaces.len()
                ==> spec_temp_name(#[trigger] spec_assignments(outputs, workspaces)[k].1)
                != #[trigger] workspaces[j].name@,
{
    assert forall|k: int, j: int|
        0 <= k < spec_assignments(outputs, workspaces).len() && 0 <= j
            < workspaces.len() implies spec_temp_name(
        #[trigger] spec_assignments(outputs, workspaces)[k].1,
    ) != #[trigger] workspaces[j].name@ by {
        let c = spec_assignments(outputs, workspaces)[k].1;
        let full = spec_temp_name(c);
        assert(full.subrange(0, "temp-"@.len() as int) =~= "temp-"@);
        if workspaces[j].name@ == full {
            assert("temp-"@.is_prefix_of(workspaces[j].name@));
        }
    }
}

/// The rename commands that carry out the two-phase plan, every phase-1
/// command strictly before every phase-2 command. Each one must be
/// acknowledged before the next is sent, and the whole operation aborts on
/// the first failure.
pub fn normalize_operation(outputs: &Vec<OutputInfo>, workspaces: &Vec<WorkspaceInfo>) -> (cmds:
    Vec<String>)
    ensures
        ({
            let assigns = spec_assignments(outputs@, workspaces@);
            &&& cmds@.len() == 2 * assigns.len()
            &&& forall|k: int|
                #![trigger assigns[k]]
                0 <= k < assigns.len() ==> {
                    &&& cmds@[k]@ == spec_rename_command(
                        assigns[k].0.name@,
                        spec_temp_name(assigns[k].1),
                    )
                    &&& cmds@[assigns.len() + k]@ == spec_rename_command(
                        spec_temp_name(assigns[k].1),
                        assigns[k].1,
                    )
                }
        }),
{
    let ghost assigns = spec_assignments(outputs@, workspaces@);
    let (phase1, phase2) = normalize_plan(outputs, workspaces);
    let mut cmds: Vec<String> = Vec::new();
    let n = phase1.len();
    let mut i: usize = 0;
    while i < n
        invariant
            i <= n,
            n == assigns.len(),
            n == phase1@.len(),
            assigns == spec_assignments(outputs@, workspaces@),
            cmds@.len() == i,
            forall|k: int|
                #![trigger assigns[k]]
                0 <= k < i ==> cmds@[k]@ == spec_rename_command(
                    assigns[k].0.name@,
                    spec_temp_name(assigns[k].1),
                ),
            forall|k: int|
                0 <= k < n ==> (#[trigger] phase1@[k]).from@ == assigns[k].0.name@
                    && phase1@[k].to@ == spec_temp_name(assigns[k].1),
        decreases n - i,
    {
        cmds.push(rename_command(phase1[i].from.as_str(), phase1[i].to.as_str()));
        i += 1;
    }
    let mut i: usize = 0;
    while i < n
        invariant
            i <= n,
            n == assigns.len(),
            n == phase2@.len(),
            assigns == spec_assignments(outputs@, workspaces@),
            cmds@.len() == n + i,
            forall|k: int|
                #![trigger assigns[k]]
                0 <= k < n ==> cmds@[k]@ == spec_rename_command(
                    assigns[k].0.name@,
                    spec_temp_name(assigns[k].1),
                ),
            forall|k: int|
                #![trigger assigns[k]]
                0 <= k < i ==> cmds@[n + k]@ == spec_rename_command(
                    spec_temp_name(assigns[k].1),
                    assigns[k].1,
                ),
            forall|k: int|
                0 <= k < n ==> (#[trigger] phase2@[k]).from@ == spec_temp_name(assigns[k].1)
                    && phase2@[k].to@ == assigns[k].1,
        decreases n - i,
    {
        cmds.push(rename_command(phase2[i].from.as_str(), phase2[i].to.as_str()));
        i += 1;
    }
    cmds
}

/// One *move* operation: the single command that moves the focused
/// container to the name the position resolves to on the given output.
pub fn move_operation(
    workspaces: &Vec<WorkspaceInfo>,
    output_name: &str,
    position: usize,
    mode: NamingMode,
) -> (cmds: Vec<String>)
    requires
        1 <= position,
    ensures
        cmds@.len() == 1,
        exists|t: Seq<char>|
            #[trigger] spec_is_target(t, workspaces@, output_name@, position as nat, mode)
                && cmds@[0]@ == spec_move_command(t),
{
    let target = workspace_at_position(workspaces, output_name, position, mode);
    let mut cmds: Vec<String> = Vec::new();
    cmds.push(move_command(target.as_str()));
    proof {
        assert(spec_is_target(target@, workspaces@, output_name@, position as nat, mode)
            && cmds@[0]@ == spec_move_command(target@));
    }
    cmds
}

/// One *focus* operation: the single command that switches focus to the
/// name the position resolves to — or no command at all when that
/// workspace exists and is already focused, so that a redundant switch is
/// never sent.
pub fn focus_operation(
    workspaces: &Vec<WorkspaceInfo>,
    output_name: &str,
    position: usize,
    mode: NamingMode,
) -> (cmds: Vec<String>)
    requires
        1 <= position,
    ensures
        ({
            let matching = spec_on_output(workspaces@, output_name@);
            if position <= matching.len() && matching[position - 1].focused {
                cmds@.len() == 0
            } else {
                cmds@.len() == 1 && exists|t: Seq<char>|
                    #[trigger] spec_is_target(
                        t,
                        workspaces@,
                        output_name@,
                        position as nat,
                        mode,
                    ) && cmds@[0]@ == spec_workspace_command(t)
            }
        }),
{
    let matching = workspaces_on_output(workspaces, output_name);
    if position <= matching.len() && matching[position - 1].focused {
        Vec::new()
    } else {
        let target = workspace_at_position(workspaces, output_name, position, mode);
        let mut cmds: Vec<String> = Vec::new();
        cmds.push(workspace_command(target.as_str()));
        proof {
            assert(spec_is_target(target@, workspaces@, output_name@, position as nat, mode)
                && cmds@[0]@ == spec_workspace_command(target@));
        }
        cmds
    }
}

/// One *move to adjacent output* operation: exactly two dependent commands
/// on the first visible workspace of the output one cyclic step from the
/// focused one — first the move, then the focus switch, never the other
/// way round. The second must not be sent unless the first was
/// acknowledged.
pub fn transfer_operation(
    outputs: &Vec<OutputInfo>,
    workspaces: &Vec<WorkspaceInfo>,
    direction: Direction,
) -> (r: Result<Vec<String>, IpcError>)
    ensures
        (match r {
            Ok(cmds) => cmds@.len() == 2 && exists|i: int, j: int|
                #![trigger spec_first_focused(outputs@, i), workspaces@[j]]
                {
                    &&& spec_first_focused(outputs@, i)
                    &&& spec_first_visible_on(
                        workspaces@,
                        outputs@[spec_adjacent_index(
                            i,
                            outputs@.len() as int,
                            direction,
                        )].name@,
                        j,
                    )
                    &&& cmds@[0]@ == spec_move_command(workspaces@[j].name@)
                    &&& cmds@[1]@ == spec_workspace_command(workspaces@[j].name@)
                },
            Err(e) => {
                ||| e == IpcError::NoFocusedEntity && spec_no_focused(outputs@)
                ||| e == IpcError::NoVisibleWorkspace && exists|i: int|
                    #[trigger] spec_first_focused(outputs@, i) && spec_no_visible_on(
                        workspaces@,
                        outputs@[spec_adjacent_index(
                            i,
                            outputs@.len() as int,
                            direction,
                        )].name@,
                    )
            },
        }),
{
    let from_index = match focused_output_index(outputs) {
        Ok(i) => i,
        Err(e) => {
            return Err(e);
        },
    };
    let target = match target_workspace_for_output_transfer(
        outputs,
        workspaces,
        from_index,
        direction,
    ) {
        Ok(w) => w,
        Err(e) => {
            return Err(e);
        },
    };
    let mut cmds: Vec<String> = Vec::new();
    cmds.push(move_command(target.name.as_str()));
    cmds.push(workspace_command(target.name.as_str()));
    Ok(cmds)
}

/// One *init* operation: for each output in reverse listing order, focus
/// that output, then switch to the name position 1 resolves to on it —
/// two commands per output, seeding a deterministic output-to-workspace
/// assignment at session start.
pub fn init_operation(
    outputs: &Vec<OutputInfo>,
    workspaces: &Vec<WorkspaceInfo>,
    mode: NamingMode,
) -> (cmds: Vec<String>)
    ensures
        cmds@.len() == 2 * outputs@.len(),
        forall|x: int|
            #![trigger outputs@[x]]
            0 <= x < outputs@.len() ==> {
                &&& cmds@[2 * (outputs@.len() - 1 - x)]@ == spec_focus_output_command(
                    outputs@[x].name@,
                )
                &&& exists|t: Seq<char>|
                    #[trigger] spec_is_target(t, workspaces@, outputs@[x].name@, 1, mode)
                        && cmds@[2 * (outputs@.len() - 1 - x) + 1]@
                        == spec_workspace_command(t)
            },
{
    let n = outputs.len();
    let mut cmds: Vec<String> = Vec::new();
    let mut i: usize = n;
    while i > 0
        invariant
            i <= n,
            n == outputs@.len(),
            cmds@.len() == 2 * (n - i),
            forall|x: int|
                #![trigger outputs@[x]]
                i <= x < n ==> {
                    &&& cmds@[2 * (n - 1 - x)]@ == spec_focus_output_command(
                        outputs@[x].name@,
                    )
                    &&& exists|t: Seq<char>|
                        #[trigger] spec_is_target(t, workspaces@, outputs@[x].name@, 1, mode)
                            && cmds@[2 * (n - 1 - x) + 1]@ == spec_workspace_command(t)
                },
        decreases i,
    {
        i -= 1;
        cmds.push(focus_output_command(outputs[i].name.as_str()));
        let target = workspace_at_position(workspaces, outputs[i].name.as_str(), 1, mode);
        cmds.push(workspace_command(target.as_str()));
        proof {
            assert(spec_is_target(target@, workspaces@, outputs@[i as int].name@, 1, mode)
                && cmds@[2 * (n - 1 - i as int) + 1]@ == spec_workspace_command(target@));
        }
    }
    proof {
        assert forall|x: int| #![trigger outputs@[x]] 0 <= x < outputs@.len() implies {
            &&& cmds@[2 * (outputs@.len() - 1 - x)]@ == spec_focus_output_command(
                outputs@[x].name@,
            )
            &&& exists|t: Seq<char>|
                #[trigger] spec_is_target(t, workspaces@, outputs@[x].name@, 1, mode)
                    && cmds@[2 * (outputs@.len() - 1 - x) + 1]@ == spec_workspace_command(t)
        } by {
            assert(0 <= x < n);
        }
    }
    cmds
}

/// The request frame that runs one command: a run-command message whose
/// payload is the command text.
pub fn command_frame(cmd: &str) -> (r: Vec<u8>)
    requires
        encode_utf8(cmd@).len() <= u32::MAX,
    ensures
        r@ == spec_frame(MessageType::RunCommand.spec_code(), encode_utf8(cmd@)),
{
    let payload = cmd.as_bytes_vec();
    encode(MessageType::RunCommand, &payload)
}

/// The request frame that asks for the output listing; its payload is
/// empty.
pub fn get_outputs_frame() -> (r: Vec<u8>)
    ensures
        r@ == spec_frame(MessageType::GetOutputs.spec_code(), Seq::empty()),
{
    let payload: Vec<u8> = Vec::new();
    encode(MessageType::GetOutputs, &payload)
}

/// The request frame that asks for the workspace listing; its payload is
/// empty.
pub fn get_workspaces_frame() -> (r: Vec<u8>)
    ensures
        r@ == spec_frame(MessageType::GetWorkspaces.spec_code(), Seq::empty()),
{
    let payload: Vec<u8> = Vec::new();
    encode(MessageType::GetWorkspaces, &payload)
}

} // verus!
