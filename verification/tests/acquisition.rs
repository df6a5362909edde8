use git_source::auth::{
    no_auth_error, normalize_auth_error, select_credential, AllowedTypes, CredentialConfig,
    CredentialDecision,
};
use git_source::checkout::{DestState, RepoState};
use git_source::database::{
    BranchEntry, GitDatabase, ObjectStore, RevEntry, TagEntry,
};
use git_source::error::{ErrorClass, GitError};
use git_source::fetch::fetch_refspecs;
use git_source::reference::GitReference;
use git_source::remote::GitRemote;
use git_source::revision::GitRevision;
use git_source::submodule::SubmoduleNode;

fn rev(b: u8) -> GitRevision {
    GitRevision::from_bytes(vec![b; 20]).unwrap()
}

fn store_with(
    tags: Vec<(&str, Option<GitRevision>)>,
    branches: Vec<(&str, Option<GitRevision>)>,
    revs: Vec<(&str, GitRevision)>,
    commits: Vec<GitRevision>,
) -> ObjectStore {
    ObjectStore {
        tags: tags
            .into_iter()
            .map(|(n, t)| TagEntry { name: n.to_string(), target: t })
            .collect(),
        branches: branches
            .into_iter()
            .map(|(n, t)| BranchEntry { name: n.to_string(), target: t })
            .collect(),
        revs: revs
            .into_iter()
            .map(|(e, t)| RevEntry { expr: e.to_string(), target: t })
            .collect(),
        commits,
    }
}

fn db_with(store: ObjectStore) -> GitDatabase {
    GitDatabase {
        remote: GitRemote::new("https://example.com/repo.git".to_string()),
        path: "/cache/db".to_string(),
        store,
    }
}

fn first_message(e: &GitError) -> String {
    e.user_facing_messages().into_iter().next().unwrap()
}

#[test]
fn resolution_is_deterministic_for_tags_and_revs() {
    let r1 = rev(1);
    let db = db_with(store_with(
        vec![("v1.0", Some(rev(1)))],
        vec![],
        vec![("abc123", rev(1))],
        vec![r1.clone()],
    ));
    let tag = GitReference::Tag("v1.0".to_string());
    assert_eq!(tag.name().as_str(), "v1.0");
    let a = db.rev_for(&tag).unwrap();
    let b = db.rev_for(&tag).unwrap();
    assert_eq!(a, b);
    assert_eq!(a, rev(1));
    let expr = GitReference::Rev("abc123".to_string());
    let c = db.rev_for(&expr).unwrap();
    let d = db.rev_for(&expr).unwrap();
    assert_eq!(c, d);
    assert_eq!(c, rev(1));
}

#[test]
fn branch_resolution_returns_current_target() {
    let db = db_with(store_with(
        vec![],
        vec![("main", Some(rev(7)))],
        vec![],
        vec![rev(7)],
    ));
    let got = db.rev_for(&GitReference::Branch("main".to_string())).unwrap();
    assert_eq!(got, rev(7));
}

#[test]
fn missing_tag_error_names_the_tag() {
    let db = db_with(store_with(vec![], vec![], vec![], vec![]));
    let err = db
        .rev_for(&GitReference::Tag("no-such-tag".to_string()))
        .unwrap_err();
    assert_eq!(first_message(&err), "failed to find tag `no-such-tag`");
}

#[test]
fn unpeelable_tag_reported_like_missing_tag() {
    let db = db_with(store_with(vec![("weird", None)], vec![], vec![], vec![]));
    let err = db
        .rev_for(&GitReference::Tag("weird".to_string()))
        .unwrap_err();
    assert_eq!(first_message(&err), "failed to find tag `weird`");
}

#[test]
fn missing_branch_error_names_the_branch() {
    let db = db_with(store_with(vec![], vec![], vec![], vec![]));
    let err = db
        .rev_for(&GitReference::Branch("no-such-branch".to_string()))
        .unwrap_err();
    assert_eq!(
        first_message(&err),
        "failed to find branch `no-such-branch`"
    );
}

#[test]
fn branch_without_target_chains_both_messages() {
    let db = db_with(store_with(vec![], vec![("empty", None)], vec![], vec![]));
    let err = db
        .rev_for(&GitReference::Branch("empty".to_string()))
        .unwrap_err();
    let msgs = err.user_facing_messages();
    assert_eq!(msgs.len(), 2);
    assert_eq!(msgs[0], "failed to find branch `empty`");
    assert_eq!(msgs[1], "branch `empty` did not have a target");
}

#[test]
fn missing_rev_expression_is_internal_not_user_facing() {
    let db = db_with(store_with(vec![], vec![], vec![], vec![]));
    let err = db
        .rev_for(&GitReference::Rev("deadbeef".to_string()))
        .unwrap_err();
    assert!(err.user_facing_messages().is_empty());
    assert_eq!(err.frames.len(), 1);
    assert!(matches!(err.frames[0].class, ErrorClass::Internal));
    assert_eq!(
        err.frames[0].message,
        "revision expression not found: deadbeef"
    );
}

#[test]
fn has_ref_probes_existence_without_an_id() {
    let db = db_with(store_with(vec![], vec![], vec![("abc", rev(3))], vec![rev(3)]));
    assert!(db.has_ref(&"abc".to_string()).is_ok());
    assert!(db.has_ref(&"missing".to_string()).is_err());
}

#[test]
fn copy_to_absent_destination_produces_fresh_tree() {
    let target = rev(9);
    let db = db_with(store_with(vec![], vec![], vec![], vec![rev(8), rev(9)]));
    let (checkout, subs) = db
        .copy_to(
            target.clone(),
            "/work/pkg".to_string(),
            DestState::Absent,
            vec![],
        )
        .unwrap();
    assert_eq!(checkout.repo.head, Some(rev(9)));
    assert_eq!(checkout.location, "/work/pkg");
    assert!(checkout.is_fresh());
    assert!(subs.is_empty());
}

#[test]
fn copy_to_repairs_stale_destination_in_place() {
    let target = rev(9);
    let db = db_with(store_with(vec![], vec![], vec![], vec![rev(9)]));
    let stale = RepoState {
        head: Some(rev(2)),
        commits: vec![rev(2), rev(3)],
    };
    let (checkout, _) = db
        .copy_to(
            target,
            "/work/pkg".to_string(),
            DestState::Present(stale),
            vec![],
        )
        .unwrap();
    assert_eq!(checkout.repo.head, Some(rev(9)));
    // Repaired by fetch, not re-cloned: the old objects are still there,
    // with the database's objects fetched in after them.
    assert_eq!(checkout.repo.commits.len(), 3);
    assert_eq!(checkout.repo.commits[0], rev(2));
    assert_eq!(checkout.repo.commits[1], rev(3));
    assert_eq!(checkout.repo.commits[2], rev(9));
}

#[test]
fn copy_to_is_idempotent_and_second_call_fetches_nothing() {
    let target = rev(9);
    let db = db_with(store_with(vec![], vec![], vec![], vec![rev(9)]));
    let (first, _) = db
        .copy_to(
            target.clone(),
            "/work/pkg".to_string(),
            DestState::Absent,
            vec![],
        )
        .unwrap();
    assert_eq!(first.repo.head, Some(rev(9)));
    let commits_before = first.repo.commits.len();
    let (second, _) = db
        .copy_to(
            target,
            "/work/pkg".to_string(),
            DestState::Present(first.repo),
            vec![],
        )
        .unwrap();
    assert_eq!(second.repo.head, Some(rev(9)));
    // The fresh short-circuit: no fetch happened, the object store is
    // exactly what the first call left.
    assert_eq!(second.repo.commits.len(), commits_before);
}

fn leaf(name: &str, recorded: Option<GitRevision>, local: Option<RepoState>) -> SubmoduleNode {
    SubmoduleNode {
        name: name.to_string(),
        url: Some(format!("https://example.com/{}.git", name)),
        recorded: recorded.clone(),
        local,
        upstream: match recorded {
            Some(r) => vec![r],
            None => vec![],
        },
        children: vec![],
    }
}

#[test]
fn submodules_pinned_recursively_after_copy_to() {
    let target = rev(9);
    let db = db_with(store_with(vec![], vec![], vec![], vec![rev(9)]));
    let grandchild = leaf("inner", Some(rev(5)), None);
    let child = SubmoduleNode {
        name: "outer".to_string(),
        url: Some("https://example.com/outer.git".to_string()),
        recorded: Some(rev(4)),
        local: None,
        upstream: vec![rev(4)],
        children: vec![grandchild],
    };
    let (_, synced) = db
        .copy_to(
            target,
            "/work/pkg".to_string(),
            DestState::Absent,
            vec![child],
        )
        .unwrap();
    assert_eq!(synced.len(), 1);
    let outer = &synced[0];
    assert_eq!(outer.local.as_ref().unwrap().head, Some(rev(4)));
    let inner = &outer.children[0];
    assert_eq!(inner.recorded, Some(rev(5)));
    assert_eq!(inner.local.as_ref().unwrap().head, Some(rev(5)));
}

#[test]
fn submodule_without_recorded_head_is_inert() {
    let target = rev(9);
    let db = db_with(store_with(vec![], vec![], vec![], vec![rev(9)]));
    let declared_only = leaf("ghostly", None, None);
    let (_, synced) = db
        .copy_to(
            target,
            "/work/pkg".to_string(),
            DestState::Absent,
            vec![declared_only],
        )
        .unwrap();
    assert_eq!(synced.len(), 1);
    assert!(synced[0].local.is_none());
}

#[test]
fn fresh_submodule_is_left_alone() {
    let target = rev(9);
    let db = db_with(store_with(vec![], vec![], vec![], vec![rev(9)]));
    let fresh = SubmoduleNode {
        name: "done".to_string(),
        url: Some("https://example.com/done.git".to_string()),
        recorded: Some(rev(4)),
        local: Some(RepoState {
            head: Some(rev(4)),
            commits: vec![rev(4)],
        }),
        upstream: vec![],
        children: vec![],
    };
    let (_, synced) = db
        .copy_to(
            target,
            "/work/pkg".to_string(),
            DestState::Absent,
            vec![fresh],
        )
        .unwrap();
    // No fetch happened: the local object store is untouched.
    assert_eq!(synced[0].local.as_ref().unwrap().commits.len(), 1);
}

#[test]
fn submodule_failure_aborts_checkout_with_context() {
    let target = rev(9);
    let db = db_with(store_with(vec![], vec![], vec![], vec![rev(9)]));
    let unreachable_pin = SubmoduleNode {
        name: "broken".to_string(),
        url: Some("https://example.com/broken.git".to_string()),
        recorded: Some(rev(4)),
        local: None,
        upstream: vec![rev(6)],
        children: vec![],
    };
    let err = db
        .copy_to(
            target,
            "/work/pkg".to_string(),
            DestState::Absent,
            vec![unreachable_pin],
        )
        .unwrap_err();
    assert_eq!(err.frames[0].message, "failed to update submodules");
    assert!(matches!(err.frames[0].class, ErrorClass::Internal));
    assert_eq!(
        err.frames[1].message,
        "failed to fetch submodule `broken` from https://example.com/broken.git"
    );
}

#[test]
fn submodule_with_invalid_url_is_refused() {
    let bad = SubmoduleNode {
        name: "bad".to_string(),
        url: None,
        recorded: None,
        local: None,
        upstream: vec![],
        children: vec![],
    };
    let err = git_source::submodule::sync_forest(vec![bad]).unwrap_err();
    assert_eq!(err.frames[0].message, "non-utf8 url for submodule");
}

#[test]
fn negotiator_uses_default_credential_when_others_are_rejected() {
    let allowed = AllowedTypes {
        ssh_key: false,
        user_pass_plaintext: false,
        default_cred: true,
    };
    let cfg = CredentialConfig {
        config_username: Some("configured".to_string()),
    };
    let decision = select_credential(&allowed, &Some("alice".to_string()), &cfg);
    assert!(matches!(decision, CredentialDecision::Default));
}

#[test]
fn negotiator_prefers_ssh_key_and_resolves_username_by_priority() {
    let allowed = AllowedTypes {
        ssh_key: true,
        user_pass_plaintext: true,
        default_cred: true,
    };
    let cfg_with = CredentialConfig {
        config_username: Some("configured".to_string()),
    };
    let cfg_without = CredentialConfig {
        config_username: None,
    };
    match select_credential(&allowed, &Some("alice".to_string()), &cfg_with) {
        CredentialDecision::SshKeyFromAgent(u) => assert_eq!(u, "alice"),
        _ => panic!("expected ssh key decision"),
    }
    match select_credential(&allowed, &None, &cfg_with) {
        CredentialDecision::SshKeyFromAgent(u) => assert_eq!(u, "configured"),
        _ => panic!("expected ssh key decision"),
    }
    match select_credential(&allowed, &None, &cfg_without) {
        CredentialDecision::SshKeyFromAgent(u) => assert_eq!(u, "git"),
        _ => panic!("expected ssh key decision"),
    }
}

#[test]
fn negotiator_falls_back_to_helper_then_reports_no_auth() {
    let helper_only = AllowedTypes {
        ssh_key: false,
        user_pass_plaintext: true,
        default_cred: true,
    };
    let nothing = AllowedTypes {
        ssh_key: false,
        user_pass_plaintext: false,
        default_cred: false,
    };
    let cfg = CredentialConfig { config_username: None };
    assert!(matches!(
        select_credential(&helper_only, &None, &cfg),
        CredentialDecision::CredentialHelper
    ));
    assert!(matches!(
        select_credential(&nothing, &None, &cfg),
        CredentialDecision::NoAuthAvailable
    ));
    let refusal = no_auth_error();
    assert_eq!(refusal.frames[0].message, "no authentication available");
    assert!(matches!(refusal.frames[0].class, ErrorClass::Internal));
}

#[test]
fn failed_final_credential_attempt_is_normalized() {
    let inner = GitError::internal("transport said no".to_string());
    let out = normalize_auth_error(true, inner);
    assert_eq!(
        first_message(&out),
        "Failed to authenticate when downloading repository"
    );
    let untouched = normalize_auth_error(false, GitError::internal("boring".to_string()));
    assert!(untouched.user_facing_messages().is_empty());
}

#[test]
fn fetch_always_adds_the_tag_refspec() {
    let specs = fetch_refspecs("refs/heads/*:refs/heads/*");
    assert_eq!(
        specs,
        vec![
            "refs/tags/*:refs/tags/*".to_string(),
            "refs/heads/*:refs/heads/*".to_string()
        ]
    );
}

#[test]
fn full_scenario_clone_resolve_checkout_then_follow_branch_move() {
    let url = "https://example.com/repo.git".to_string();
    let remote = GitRemote::new(url);
    // The remote currently has `main` at R1.
    let upstream1 = store_with(
        vec![],
        vec![("main", Some(rev(1)))],
        vec![],
        vec![rev(1)],
    );
    // Empty cache: population is a full clone.
    let db = remote
        .checkout("/cache/db".to_string(), None, &upstream1)
        .unwrap();
    let r1 = db
        .rev_for(&GitReference::Branch("main".to_string()))
        .unwrap();
    assert_eq!(r1, rev(1));
    // Empty destination: materialization produces a tree at R1.
    let (c1, _) = db
        .copy_to(r1, "/work/pkg".to_string(), DestState::Absent, vec![])
        .unwrap();
    assert_eq!(c1.repo.head, Some(rev(1)));
    let d_state = c1.repo;
    // Upstream moves `main` to R2; populating again takes the fetch path.
    let upstream2 = store_with(
        vec![],
        vec![("main", Some(rev(2)))],
        vec![],
        vec![rev(1), rev(2)],
    );
    let db2 = remote
        .checkout("/cache/db".to_string(), Some(db.store), &upstream2)
        .unwrap();
    let r2 = db2
        .rev_for(&GitReference::Branch("main".to_string()))
        .unwrap();
    assert_eq!(r2, rev(2));
    // The destination transitions from fresh-at-R1 to fresh-at-R2 via
    // fetch and reset, keeping its old objects: no delete-and-reclone.
    let old_objects = d_state.commits.len();
    let (c2, _) = db2
        .copy_to(
            r2,
            "/work/pkg".to_string(),
            DestState::Present(d_state),
            vec![],
        )
        .unwrap();
    assert_eq!(c2.repo.head, Some(rev(2)));
    assert!(c2.repo.commits.len() > old_objects);
    assert_eq!(c2.repo.commits[0], rev(1));
}

#[test]
fn db_at_reuses_cache_and_errors_when_absent() {
    let remote = GitRemote::new("https://example.com/repo.git".to_string());
    let db = remote
        .db_at(
            "/cache/db".to_string(),
            Some(store_with(vec![], vec![], vec![], vec![])),
        )
        .unwrap();
    assert_eq!(db.get_path().as_str(), "/cache/db");
    let err = remote.db_at("/cache/db".to_string(), None).unwrap_err();
    assert_eq!(
        err.frames[0].message,
        "failed to open repository at /cache/db"
    );
}

#[test]
fn remote_rev_for_composes_open_and_resolution() {
    let remote = GitRemote::new("https://example.com/repo.git".to_string());
    let store = store_with(vec![("v1", Some(rev(1)))], vec![], vec![], vec![rev(1)]);
    let got = remote
        .rev_for(
            "/cache/db".to_string(),
            Some(store),
            &GitReference::Tag("v1".to_string()),
        )
        .unwrap();
    assert_eq!(got, rev(1));
}

#[test]
fn encoded_summaries_round_trip_the_identifying_fields() {
    let db = db_with(store_with(vec![], vec![], vec![], vec![rev(9)]));
    let (checkout, _) = db
        .copy_to(rev(9), "/work/pkg".to_string(), DestState::Absent, vec![])
        .unwrap();
    let enc = checkout.encode();
    assert_eq!(enc.database.remote.url, "https://example.com/repo.git");
    assert_eq!(enc.database.path, "/cache/db");
    assert_eq!(enc.location, "/work/pkg");
    assert_eq!(enc.revision, "09".repeat(20));
    assert_eq!(
        GitRevision::from_hex(&enc.revision).unwrap(),
        rev(9)
    );
}
