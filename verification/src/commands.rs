//! The command builder: one function per compositor verb, pure string
//! construction from already-resolved target names. Name legality is the
//! compositor's business; nothing is validated here.

use vstd::prelude::*;

verus! {

/// The command text that moves the focused container to a workspace.
pub open spec fn spec_move_command(target: Seq<char>) -> Seq<char> {
    "move container to workspace "@ + target
}

/// The command text that switches focus to a workspace.
pub open spec fn spec_workspace_command(target: Seq<char>) -> Seq<char> {
    "workspace "@ + target
}

/// The command text that renames a workspace.
pub open spec fn spec_rename_command(from: Seq<char>, to: Seq<char>) -> Seq<char> {
    "rename workspace "@ + from + " to "@ + to
}

/// The command text that focuses an output.
pub open spec fn spec_focus_output_command(output: Seq<char>) -> Seq<char> {
    "focus output "@ + output
}

/// Builds the move-container command for a resolved target.
pub fn move_command(target: &str) -> (r: String)
    ensures
        r@ == spec_move_command(target@),
{
    let mut s = "move container to workspace ".to_owned();
    s.append(target);
    s
}

/// Builds the switch-workspace command for a resolved target.
pub fn workspace_command(target: &str) -> (r: String)
    ensures
        r@ == spec_workspace_command(target@),
{
    let mut s = "workspace ".to_owned();
    s.append(target);
    s
}

/// Builds the rename command from a source name to a target name.
pub fn rename_command(from: &str, to: &str) -> (r: String)
    ensures
        r@ == spec_rename_command(from@, to@),
{
    let mut s = "rename workspace ".to_owned();
    s.append(from);
    s.append(" to ");
    s.append(to);
    proof {
        assert(s@ =~= spec_rename_command(from@, to@));
    }
    s
}

/// Builds the focus-output command for an output name.
pub fn focus_output_command(output: &str) -> (r: String)
    ensures
        r@ == spec_focus_output_command(output@),
{
    let mut s = "focus output ".to_owned();
    s.append(output);
    s
}

} // verus!
