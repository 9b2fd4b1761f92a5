use vstd::prelude::*;

verus! {

/// The choice made in the recovery dialog.
#[derive(Debug, Clone, Copy, PartialEq, Eq, Structural)]
pub enum RecoveryAction {
    /// Load the snapshot as a modified document, without overwriting the file.
    Recover,
    /// Open the last official save from disk.
    OpenSaved,
    /// Drop the autosave snapshots.
    Discard,
}

/// The buttons of the recovery dialog, right to left: Recover, Open Saved
/// Version when an official file exists, and Discard.
pub fn offered_actions(has_saved_file: bool) -> (r: Vec<RecoveryAction>)
    ensures
        has_saved_file ==> r@ == seq![RecoveryAction::Recover, RecoveryAction::OpenSaved, RecoveryAction::Discard],
        !has_saved_file ==> r@ == seq![RecoveryAction::Recover, RecoveryAction::Discard],
{
    let mut r = Vec::new();
    r.push(RecoveryAction::Recover);
    if has_saved_file {
        r.push(RecoveryAction::OpenSaved);
    }
    r.push(RecoveryAction::Discard);
    proof {
        if has_saved_file {
            assert(r@ =~= seq![RecoveryAction::Recover, RecoveryAction::OpenSaved, RecoveryAction::Discard]);
        } else {
            assert(r@ =~= seq![RecoveryAction::Recover, RecoveryAction::Discard]);
        }
    }
    r
}

/// The name shown for the snapshot file (`autosave` when the path has no
/// readable file name).
pub fn snapshot_label(file_name: Option<&str>) -> (r: &str)
    ensures
        file_name matches Some(n) ==> r@ == n@,
        file_name is None ==> r@ == "autosave"@,
{
    match file_name {
        Some(n) => n,
        None => "autosave",
    }
}

/// The name shown for the official project file (`project.petunia` when the
/// path has no readable file name).
pub fn saved_file_label(file_name: Option<&str>) -> (r: &str)
    ensures
        file_name matches Some(n) ==> r@ == n@,
        file_name is None ==> r@ == "project.petunia"@,
{
    match file_name {
        Some(n) => n,
        None => "project.petunia",
    }
}

} // verus!
