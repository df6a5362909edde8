use git_source::error::{ErrorClass, GitError};
use git_source::revision::{GitRevision, OID_LEN};

#[test]
fn revision_width_is_enforced() {
    assert!(GitRevision::from_bytes(vec![0u8; OID_LEN]).is_some());
    assert!(GitRevision::from_bytes(vec![0u8; OID_LEN - 1]).is_none());
    assert!(GitRevision::from_bytes(vec![0u8; OID_LEN + 1]).is_none());
    assert!(GitRevision::from_bytes(vec![]).is_none());
}

#[test]
fn hex_rendering_is_lowercase_two_chars_per_byte() {
    let mut bytes = vec![0u8; OID_LEN];
    bytes[0] = 0x0a;
    bytes[1] = 0xff;
    bytes[19] = 0x10;
    let rev = GitRevision::from_bytes(bytes).unwrap();
    let hex = rev.to_hex();
    assert_eq!(hex.len(), 2 * OID_LEN);
    assert!(hex.starts_with("0aff"));
    assert!(hex.ends_with("10"));
    assert_eq!(&hex[4..38], "0".repeat(34).as_str());
}

#[test]
fn hex_round_trips_byte_for_byte() {
    let bytes: Vec<u8> = (0u8..20u8).map(|i| i.wrapping_mul(13).wrapping_add(7)).collect();
    let rev = GitRevision::from_bytes(bytes).unwrap();
    let parsed = GitRevision::from_hex(&rev.to_hex()).unwrap();
    assert_eq!(parsed, rev);
}

#[test]
fn hex_parsing_accepts_either_case_and_rejects_junk() {
    let upper = "0AFF".to_string() + &"00".repeat(17) + "10";
    let lower = "0aff".to_string() + &"00".repeat(17) + "10";
    assert_eq!(
        GitRevision::from_hex(&upper).unwrap(),
        GitRevision::from_hex(&lower).unwrap()
    );
    assert!(GitRevision::from_hex("abc").is_none());
    let bad = "zz".repeat(20);
    assert!(GitRevision::from_hex(&bad).is_none());
    let too_long = "00".repeat(21);
    assert!(GitRevision::from_hex(&too_long).is_none());
}

#[test]
fn error_chains_keep_order_and_classification() {
    let e = GitError::internal("socket closed".to_string())
        .chain(ErrorClass::Internal, "failed to fetch into /cache/db".to_string())
        .chain(ErrorClass::UserFacing, "unable to update https://example.com/repo.git".to_string());
    assert_eq!(e.frames.len(), 3);
    let shown = e.user_facing_messages();
    assert_eq!(shown, vec!["unable to update https://example.com/repo.git".to_string()]);
}
