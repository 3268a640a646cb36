use git_prompt::repository::RepositoryState;

#[test]
fn a_clean_repository_has_no_label() {
    assert_eq!(RepositoryState::Clean.label(), None);
}

#[test]
fn every_operation_has_its_label() {
    assert_eq!(RepositoryState::Merge.label(), Some("Merge"));
    assert_eq!(RepositoryState::Revert.label(), Some("Revert"));
    assert_eq!(RepositoryState::RevertSequence.label(), Some("Revert Sequence"));
    assert_eq!(RepositoryState::CherryPick.label(), Some("Cherry-pick"));
    assert_eq!(RepositoryState::CherryPickSequence.label(), Some("Cherry-pick Sequence"));
    assert_eq!(RepositoryState::Bisect.label(), Some("Bisect"));
    assert_eq!(RepositoryState::Rebase.label(), Some("Rebase"));
    assert_eq!(RepositoryState::RebaseInteractive.label(), Some("Rebase Interactive"));
    assert_eq!(RepositoryState::RebaseMerge.label(), Some("Rebase Merge"));
    assert_eq!(RepositoryState::ApplyMailbox.label(), Some("Apply Mailbox"));
    assert_eq!(RepositoryState::ApplyMailboxOrRebase.label(), Some("Apply Mailbox or Rebase"));
}
