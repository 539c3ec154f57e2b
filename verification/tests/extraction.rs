use handy::extract::{
    failure_plan, promote_plan, promotion, unpack_plan, DiskAction, ExtractedEntry, Promotion,
};

fn entry(name: &str, is_dir: bool) -> ExtractedEntry {
    ExtractedEntry { name: name.to_string(), is_dir }
}

#[test]
fn single_directory_is_promoted() {
    let entries = vec![entry("model-int8", true)];
    assert_eq!(promotion(&entries), Promotion::Directory("model-int8".to_string()));
}

#[test]
fn single_directory_beside_files_is_promoted() {
    let entries = vec![entry("README", false), entry("inner", true), entry("x.bin", false)];
    assert_eq!(promotion(&entries), Promotion::Directory("inner".to_string()));
}

#[test]
fn workspace_is_promoted_otherwise() {
    assert_eq!(promotion(&vec![]), Promotion::Workspace);
    assert_eq!(promotion(&vec![entry("a.bin", false), entry("b.bin", false)]), Promotion::Workspace);
    assert_eq!(promotion(&vec![entry("a", true), entry("b", true)]), Promotion::Workspace);
}

#[test]
fn unpacking_clears_the_workspace_first() {
    assert_eq!(
        unpack_plan(),
        vec![DiskAction::RemoveWorkspace, DiskAction::CreateWorkspace, DiskAction::Unpack]
    );
}

#[test]
fn promotion_removes_workspace_and_archive() {
    assert_eq!(
        promote_plan(&Promotion::Directory("d".to_string())),
        vec![
            DiskAction::RemoveFinal,
            DiskAction::PromoteDirectory,
            DiskAction::RemoveWorkspace,
            DiskAction::RemoveArchive
        ]
    );
    assert_eq!(
        promote_plan(&Promotion::Workspace),
        vec![DiskAction::RemoveFinal, DiskAction::PromoteWorkspace, DiskAction::RemoveArchive]
    );
}

#[test]
fn failure_removes_the_workspace_and_keeps_the_archive() {
    let plan = failure_plan();
    assert_eq!(plan, vec![DiskAction::RemoveWorkspace]);
    assert!(!plan.contains(&DiskAction::RemoveArchive));
    assert!(!plan.contains(&DiskAction::RemoveFinal));
}
