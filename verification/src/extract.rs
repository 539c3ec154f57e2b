//! Unpacking a directory-packaged model so that its directory is never seen
//! half-filled: the archive is unpacked into a workspace beside the final
//! directory, and only a complete result takes the final name.

use vstd::prelude::*;

verus! {

/// Something that the archive left at the top of the workspace.
#[derive(Debug, PartialEq, Eq)]
pub struct ExtractedEntry {
    pub name: String,
    pub is_dir: bool,
}

/// What takes the place of the final directory.
#[derive(Debug, PartialEq, Eq)]
pub enum Promotion {
    /// The archive held exactly one directory: that directory, named here,
    /// becomes the final directory, and the workspace around it is removed.
    Directory(String),
    /// The workspace itself becomes the final directory.
    Workspace,
}

/// The number of directories among the first `n` entries.
pub open spec fn directories(entries: Seq<ExtractedEntry>, n: nat) -> nat
    decreases n,
{
    if n == 0 {
        0
    } else if entries[n - 1].is_dir {
        directories(entries, (n - 1) as nat) + 1
    } else {
        directories(entries, (n - 1) as nat)
    }
}

/// Whether the entry at `i` is a directory and no other entry is.
pub open spec fn is_only_directory(entries: Seq<ExtractedEntry>, i: int) -> bool {
    &&& 0 <= i < entries.len()
    &&& entries[i].is_dir
    &&& forall|j: int| 0 <= j < entries.len() && j != i ==> !(#[trigger] entries[j]).is_dir
}

/// With a count of one, the directory that was counted is the only one.
proof fn lemma_one_directory(entries: Seq<ExtractedEntry>, n: nat, i: int)
    requires
        n <= entries.len(),
        0 <= i < n,
        entries[i].is_dir,
        directories(entries, n) == 1,
    ensures
        forall|j: int| 0 <= j < n && j != i ==> !(#[trigger] entries[j]).is_dir,
    decreases n,
{
    if n > 0 {
        if i == n - 1 {
            lemma_no_directory(entries, (n - 1) as nat);
        } else {
            lemma_at_least_one(entries, (n - 1) as nat, i);
            lemma_one_directory(entries, (n - 1) as nat, i);
        }
    }
}

proof fn lemma_no_directory(entries: Seq<ExtractedEntry>, n: nat)
    requires
        n <= entries.len(),
        directories(entries, n) == 0,
    ensures
        forall|j: int| 0 <= j < n ==> !(#[trigger] entries[j]).is_dir,
    decreases n,
{
    if n > 0 {
        lemma_no_directory(entries, (n - 1) as nat);
    }
}

proof fn lemma_at_least_one(entries: Seq<ExtractedEntry>, n: nat, i: int)
    requires
        n <= entries.len(),
        0 <= i < n,
        entries[i].is_dir,
    ensures
        directories(entries, n) >= 1,
    decreases n,
{
    if n > 0 && i < n - 1 {
        lemma_at_least_one(entries, (n - 1) as nat, i);
    }
}

/// Decides what becomes the final directory, from what the archive left at
/// the top of the workspace: its one directory where it left exactly one,
/// whatever else lies beside it, and the workspace itself otherwise.
pub fn promotion(entries: &Vec<ExtractedEntry>) -> (choice: Promotion)
    ensures
        match choice {
            Promotion::Directory(name) => directories(entries@, entries@.len()) == 1 && exists|
                i: int,
            |
                is_only_directory(entries@, i) && name@ == entries@[i].name@,
            Promotion::Workspace => directories(entries@, entries@.len()) != 1,
        },
{
    let mut count: usize = 0;
    let mut found: usize = 0;
    let mut i: usize = 0;
    while i < entries.len()
        invariant
            i <= entries@.len(),
            count == directories(entries@, i as nat),
            count <= i,
            count > 0 ==> found < i && entries@[found as int].is_dir,
        decreases entries@.len() - i,
    {
        if entries[i].is_dir {
            count += 1;
            found = i;
        }
        i += 1;
    }
    if count == 1 {
        proof {
            lemma_one_directory(entries@, entries@.len(), found as int);
            assert(is_only_directory(entries@, found as int));
        }
        Promotion::Directory(entries[found].name.clone())
    } else {
        Promotion::Workspace
    }
}

/// One thing to do on disk. The names are those of the model's artifact:
/// the final directory, the workspace beside it, and the archive.
#[derive(Debug, Clone, Copy, PartialEq, Eq, Structural)]
pub enum DiskAction {
    /// Remove the workspace with all that it holds, if it is there.
    RemoveWorkspace,
    /// Create the empty workspace.
    CreateWorkspace,
    /// Unpack the archive into the workspace.
    Unpack,
    /// Remove the final directory with all that it holds, if it is there.
    RemoveFinal,
    /// Give the one directory inside the workspace the final name.
    PromoteDirectory,
    /// Give the workspace the final name.
    PromoteWorkspace,
    /// Remove the archive.
    RemoveArchive,
}

/// What of a model's artifact is on disk.
pub struct Disk {
    /// The final directory is there.
    pub final_present: bool,
    /// What the final directory holds is a whole model.
    pub final_complete: bool,
    /// The workspace is there.
    pub workspace_present: bool,
    /// What the workspace holds is a whole model.
    pub workspace_complete: bool,
    /// The archive is there.
    pub archive_present: bool,
}

/// The disk after one action that succeeded.
pub open spec fn after(action: DiskAction, disk: Disk) -> Disk {
    match action {
        DiskAction::RemoveWorkspace => Disk {
            workspace_present: false,
            workspace_complete: false,
            ..disk
        },
        DiskAction::CreateWorkspace => Disk {
            workspace_present: true,
            workspace_complete: false,
            ..disk
        },
        DiskAction::Unpack => Disk { workspace_complete: disk.workspace_present, ..disk },
        DiskAction::RemoveFinal => Disk { final_present: false, final_complete: false, ..disk },
        DiskAction::PromoteDirectory => Disk {
            final_present: disk.workspace_present,
            final_complete: disk.workspace_complete,
            workspace_complete: false,
            ..disk
        },
        DiskAction::PromoteWorkspace => Disk {
            final_present: disk.workspace_present,
            final_complete: disk.workspace_complete,
            workspace_present: false,
            workspace_complete: false,
            ..disk
        },
        DiskAction::RemoveArchive => Disk { archive_present: false, ..disk },
    }
}

/// The disk after the actions were done in order.
pub open spec fn after_all(actions: Seq<DiskAction>, disk: Disk) -> Disk
    decreases actions.len(),
{
    if actions.len() == 0 {
        disk
    } else {
        after(actions.last(), after_all(actions.drop_last(), disk))
    }
}

/// What is done before the workspace is looked at.
pub open spec fn unpack_actions() -> Seq<DiskAction> {
    seq![DiskAction::RemoveWorkspace, DiskAction::CreateWorkspace, DiskAction::Unpack]
}

/// What is done once the workspace holds the whole archive.
pub open spec fn promote_actions(single_directory: bool) -> Seq<DiskAction> {
    if single_directory {
        seq![
            DiskAction::RemoveFinal,
            DiskAction::PromoteDirectory,
            DiskAction::RemoveWorkspace,
            DiskAction::RemoveArchive,
        ]
    } else {
        seq![DiskAction::RemoveFinal, DiskAction::PromoteWorkspace, DiskAction::RemoveArchive]
    }
}

/// What is done where unpacking failed.
pub open spec fn failure_actions() -> Seq<DiskAction> {
    seq![DiskAction::RemoveWorkspace]
}

/// The actions that unpack the archive: any workspace that an earlier run
/// left behind goes first.
pub fn unpack_plan() -> (actions: Vec<DiskAction>)
    ensures
        actions@ == unpack_actions(),
{
    let mut actions: Vec<DiskAction> = Vec::new();
    actions.push(DiskAction::RemoveWorkspace);
    actions.push(DiskAction::CreateWorkspace);
    actions.push(DiskAction::Unpack);
    assert(actions@ =~= unpack_actions());
    actions
}

/// The actions that put the unpacked model in place and remove the archive.
/// The promotion is the one step that cannot be taken back: before it the
/// final directory is untouched, after it the final directory is whole.
pub fn promote_plan(choice: &Promotion) -> (actions: Vec<DiskAction>)
    ensures
        actions@ == promote_actions(choice is Directory),
{
    let mut actions: Vec<DiskAction> = Vec::new();
    actions.push(DiskAction::RemoveFinal);
    match choice {
        Promotion::Directory(_) => {
            actions.push(DiskAction::PromoteDirectory);
            actions.push(DiskAction::RemoveWorkspace);
        },
        Promotion::Workspace => {
            actions.push(DiskAction::PromoteWorkspace);
        },
    }
    actions.push(DiskAction::RemoveArchive);
    assert(actions@ =~= promote_actions(choice is Directory));
    actions
}

/// The actions that clean up after unpacking failed. The archive stays, so
/// that unpacking can be tried again without another download.
pub fn failure_plan() -> (actions: Vec<DiskAction>)
    ensures
        actions@ == failure_actions(),
{
    let mut actions: Vec<DiskAction> = Vec::new();
    actions.push(DiskAction::RemoveWorkspace);
    assert(actions@ =~= failure_actions());
    actions
}

/// After an extraction that succeeded no workspace is left, the final
/// directory holds a whole model, and the archive is gone.
pub proof fn lemma_success_leaves_no_workspace(disk: Disk, single_directory: bool)
    ensures
        ({
            let end = after_all(
                promote_actions(single_directory),
                after_all(unpack_actions(), disk),
            );
            &&& !end.workspace_present
            &&& end.final_present
            &&& end.final_complete
            &&& !end.archive_present
        }),
{
    reveal_with_fuel(after_all, 5);
    let unpacked = after_all(unpack_actions(), disk);
    assert(unpack_actions().drop_last() =~= seq![
        DiskAction::RemoveWorkspace,
        DiskAction::CreateWorkspace,
    ]);
    assert(unpack_actions().drop_last().drop_last() =~= seq![DiskAction::RemoveWorkspace]);
    assert(unpack_actions().drop_last().drop_last().drop_last() =~= Seq::<DiskAction>::empty());
    assert(unpacked.workspace_present && unpacked.workspace_complete);
    let actions = promote_actions(single_directory);
    if single_directory {
        assert(actions.drop_last() =~= seq![
            DiskAction::RemoveFinal,
            DiskAction::PromoteDirectory,
            DiskAction::RemoveWorkspace,
        ]);
        assert(actions.drop_last().drop_last() =~= seq![
            DiskAction::RemoveFinal,
            DiskAction::PromoteDirectory,
        ]);
        assert(actions.drop_last().drop_last().drop_last() =~= seq![DiskAction::RemoveFinal]);
        assert(actions.drop_last().drop_last().drop_last().drop_last() =~= Seq::<
            DiskAction,
        >::empty());
    } else {
        assert(actions.drop_last() =~= seq![
            DiskAction::RemoveFinal,
            DiskAction::PromoteWorkspace,
        ]);
        assert(actions.drop_last().drop_last() =~= seq![DiskAction::RemoveFinal]);
        assert(actions.drop_last().drop_last().drop_last() =~= Seq::<DiskAction>::empty());
    }
}

/// After an extraction that failed while unpacking, whether before the
/// archive was opened or in the middle of it, no workspace is left, the
/// final directory is as it was, and the archive is still there.
pub proof fn lemma_failure_keeps_archive(disk: Disk, done: int)
    requires
        0 <= done < unpack_actions().len(),
    ensures
        ({
            let end = after_all(
                failure_actions(),
                after_all(unpack_actions().take(done), disk),
            );
            &&& !end.workspace_present
            &&& end.final_present == disk.final_present
            &&& end.final_complete == disk.final_complete
            &&& end.archive_present == disk.archive_present
        }),
{
    reveal_with_fuel(after_all, 5);
    let prefix = unpack_actions().take(done);
    assert(failure_actions().drop_last() =~= Seq::<DiskAction>::empty());
    if done == 0 {
        assert(prefix =~= Seq::<DiskAction>::empty());
    } else if done == 1 {
        assert(prefix =~= seq![DiskAction::RemoveWorkspace]);
        assert(prefix.drop_last() =~= Seq::<DiskAction>::empty());
    } else {
        assert(prefix =~= seq![DiskAction::RemoveWorkspace, DiskAction::CreateWorkspace]);
        assert(prefix.drop_last() =~= seq![DiskAction::RemoveWorkspace]);
        assert(prefix.drop_last().drop_last() =~= Seq::<DiskAction>::empty());
    }
}

} // verus!
