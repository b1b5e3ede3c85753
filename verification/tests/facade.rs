use git_facade::error::ErrorKind;
use git_facade::facade::{App, ProjectRecord};
use git_facade::project::{BranchId, Credentials, Project, ProjectId};
use git_facade::repo::{Head, Remote, RemoteRefname, Repository};

fn ref_entry(remote: &str, branch: &str) -> RemoteRefname {
    RemoteRefname {
        remote: remote.to_string(),
        branch: branch.to_string(),
    }
}

fn sample_repo() -> Repository {
    Repository {
        conflicts: vec!["src/a.txt".to_string(), "src/b.txt".to_string()],
        remote_refs: vec![ref_entry("origin", "main"), ref_entry("origin", "dev")],
        remotes: vec![
            Remote {
                name: "origin".to_string(),
                reachable: true,
                accepted_tokens: vec![42],
            },
            Remote {
                name: "island".to_string(),
                reachable: false,
                accepted_tokens: vec![42],
            },
        ],
        index_len: 7,
        head: Head::Branch("refs/heads/main".to_string()),
    }
}

fn record(id: u64, repo: Option<Repository>, delete_ok: bool) -> ProjectRecord {
    ProjectRecord {
        project: Project {
            id: ProjectId { value: id },
            path: "projects/demo".to_string(),
        },
        repo,
        delete_ok,
    }
}

fn sample_app() -> App {
    App::new(
        "data-dir".to_string(),
        vec![
            record(1, Some(sample_repo()), true),
            record(2, None, true),
        ],
    )
}

#[test]
fn unknown_project_is_not_found_everywhere() {
    let mut app = sample_app();
    assert!(app.is_well_formed());
    let unknown = ProjectId { value: 99 };
    let creds = Credentials { token: 42 };

    assert_eq!(
        app.git_index_size(unknown).unwrap_err().kind,
        ErrorKind::NotFound
    );
    assert_eq!(app.git_head(unknown).unwrap_err().kind, ErrorKind::NotFound);
    assert_eq!(
        app.git_remote_branches(unknown).unwrap_err().kind,
        ErrorKind::NotFound
    );
    assert_eq!(
        app.git_test_push(unknown, "origin", "main", &creds, Some(Some(BranchId { value: 1 })))
            .unwrap_err()
            .kind,
        ErrorKind::NotFound
    );
    assert_eq!(
        app.git_test_fetch(unknown, "origin", &creds, Some("pw".to_string()))
            .unwrap_err()
            .kind,
        ErrorKind::NotFound
    );
    let err = app.mark_resolved(unknown, "src/a.txt").unwrap_err();
    assert_eq!(err.kind, ErrorKind::NotFound);
    // no side effect: the directory still lists both projects, conflicts intact
    assert_eq!(app.projects.len(), 2);
    match &app.projects[0].repo {
        Some(rp) => assert_eq!(rp.conflicts.len(), 2),
        None => panic!("repository state vanished"),
    }
}

#[test]
fn missing_repository_reports_open_failed() {
    let mut app = sample_app();
    let id = ProjectId { value: 2 };
    let creds = Credentials { token: 42 };
    assert_eq!(app.git_index_size(id).unwrap_err().kind, ErrorKind::OpenFailed);
    assert_eq!(app.git_head(id).unwrap_err().kind, ErrorKind::OpenFailed);
    assert_eq!(
        app.git_remote_branches(id).unwrap_err().kind,
        ErrorKind::OpenFailed
    );
    assert_eq!(
        app.git_test_push(id, "origin", "main", &creds, None).unwrap_err().kind,
        ErrorKind::OpenFailed
    );
    assert_eq!(
        app.git_test_fetch(id, "origin", &creds, None).unwrap_err().kind,
        ErrorKind::OpenFailed
    );
    assert_eq!(
        app.mark_resolved(id, "src/a.txt").unwrap_err().kind,
        ErrorKind::OpenFailed
    );
}

#[test]
fn mark_resolved_is_single_shot() {
    let mut app = sample_app();
    let id = ProjectId { value: 1 };
    assert!(app.mark_resolved(id, "src/a.txt").is_ok());
    match &app.projects[0].repo {
        Some(rp) => {
            assert_eq!(rp.conflicts, vec!["src/b.txt".to_string()]);
            assert_eq!(rp.index_len, 7);
        }
        None => panic!("repository state vanished"),
    }
    // the second marking of the same path fails with a domain error
    let err = app.mark_resolved(id, "src/a.txt").unwrap_err();
    assert_eq!(err.kind, ErrorKind::DomainError);
    // and changes nothing
    match &app.projects[0].repo {
        Some(rp) => assert_eq!(rp.conflicts, vec!["src/b.txt".to_string()]),
        None => panic!("repository state vanished"),
    }
}

#[test]
fn mark_resolved_never_conflicted_is_domain_error() {
    let mut app = sample_app();
    let id = ProjectId { value: 1 };
    let err = app.mark_resolved(id, "src/other.txt").unwrap_err();
    assert_eq!(err.kind, ErrorKind::DomainError);
}

#[test]
fn remote_branches_empty_without_remotes() {
    let mut repo = sample_repo();
    repo.remote_refs = Vec::new();
    let app = App::new("data-dir".to_string(), vec![record(1, Some(repo), true)]);
    let refs = app.git_remote_branches(ProjectId { value: 1 }).unwrap();
    assert!(refs.is_empty());
}

#[test]
fn remote_branches_one_entry_per_ref() {
    let app = sample_app();
    let refs = app.git_remote_branches(ProjectId { value: 1 }).unwrap();
    assert_eq!(refs.len(), 2);
    assert_eq!(refs[0].remote, "origin");
    assert_eq!(refs[0].branch, "main");
    assert_eq!(refs[1].remote, "origin");
    assert_eq!(refs[1].branch, "dev");
}

#[test]
fn index_size_is_exact() {
    let app = sample_app();
    assert_eq!(app.git_index_size(ProjectId { value: 1 }).unwrap(), 7);
}

#[test]
fn head_returns_branch_name_exactly() {
    let app = sample_app();
    assert_eq!(
        app.git_head(ProjectId { value: 1 }).unwrap(),
        "refs/heads/main"
    );
}

#[test]
fn detached_head_is_typed_error_not_abort() {
    let mut repo = sample_repo();
    repo.head = Head::Detached;
    let app = App::new("data-dir".to_string(), vec![record(1, Some(repo), true)]);
    let err = app.git_head(ProjectId { value: 1 }).unwrap_err();
    assert_eq!(err.kind, ErrorKind::Unexpected);
}

#[test]
fn invalid_credential_is_auth_failed() {
    let app = sample_app();
    let id = ProjectId { value: 1 };
    let bad = Credentials { token: 7 };
    let push = app.git_test_push(id, "origin", "main", &bad, None).unwrap_err();
    assert_eq!(push.kind, ErrorKind::AuthFailed);
    let fetch = app.git_test_fetch(id, "origin", &bad, None).unwrap_err();
    assert_eq!(fetch.kind, ErrorKind::AuthFailed);
}

#[test]
fn unreachable_remote_is_network_failed() {
    let app = sample_app();
    let id = ProjectId { value: 1 };
    let creds = Credentials { token: 42 };
    let push = app.git_test_push(id, "island", "main", &creds, None).unwrap_err();
    assert_eq!(push.kind, ErrorKind::NetworkFailed);
    let fetch = app.git_test_fetch(id, "island", &creds, None).unwrap_err();
    assert_eq!(fetch.kind, ErrorKind::NetworkFailed);
}

#[test]
fn accepted_credential_succeeds() {
    let app = sample_app();
    let id = ProjectId { value: 1 };
    let creds = Credentials { token: 42 };
    assert!(app.git_test_push(id, "origin", "main", &creds, None).is_ok());
    assert!(app.git_test_fetch(id, "origin", &creds, None).is_ok());
}

#[test]
fn unknown_remote_is_domain_error() {
    let app = sample_app();
    let id = ProjectId { value: 1 };
    let creds = Credentials { token: 42 };
    let err = app.git_test_push(id, "nowhere", "main", &creds, None).unwrap_err();
    assert_eq!(err.kind, ErrorKind::DomainError);
}

#[test]
fn delete_all_data_removes_everything_when_all_succeed() {
    let mut app = App::new(
        "data-dir".to_string(),
        vec![record(1, None, true), record(2, None, true), record(3, None, true)],
    );
    assert_eq!(app.delete_all_data().unwrap(), 3);
    assert!(app.projects.is_empty());
}

#[test]
fn delete_all_data_stops_at_first_failure() {
    // projects [A, B, C] where deleting B fails: afterwards A is deleted,
    // B and C are still present, and the failure identifies B.
    let mut app = App::new(
        "data-dir".to_string(),
        vec![record(1, None, true), record(2, None, false), record(3, None, true)],
    );
    let failure = app.delete_all_data().unwrap_err();
    assert_eq!(failure.deleted, 1);
    assert_eq!(failure.failed_id, ProjectId { value: 2 });
    assert_eq!(failure.error.kind, ErrorKind::Unexpected);
    assert_eq!(app.projects.len(), 2);
    assert_eq!(app.projects[0].project.id, ProjectId { value: 2 });
    assert_eq!(app.projects[1].project.id, ProjectId { value: 3 });
}

#[test]
fn well_formedness_rejects_duplicate_ids() {
    let app = App::new(
        "data-dir".to_string(),
        vec![record(1, None, true), record(1, None, true)],
    );
    assert!(!app.is_well_formed());
}

#[test]
fn well_formedness_rejects_duplicate_conflicts() {
    let mut repo = sample_repo();
    repo.conflicts = vec!["same.txt".to_string(), "same.txt".to_string()];
    let app = App::new("data-dir".to_string(), vec![record(1, Some(repo), true)]);
    assert!(!app.is_well_formed());
}
