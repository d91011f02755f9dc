use sign_document_contract::config::FormApprovalError;
use sign_document_contract::ledger::Ledger;
use sign_document_contract::state::Pubkey;

fn pk(tag: u8) -> Pubkey {
    Pubkey::new([tag; 32])
}

fn hash(tag: u8) -> [u8; 32] {
    [tag; 32]
}

#[test]
fn bootstrap_seeds_sole_admin() {
    let l = Ledger::bootstrap(pk(1));
    assert_eq!(l.admin_config.authority, pk(1));
    assert_eq!(l.admin_config.admin_count, 1);
    assert!(l.admin_config.is_admin(&pk(1)));
    assert!(!l.admin_config.is_admin(&pk(2)));
}

#[test]
fn add_admin_then_duplicate_fails() {
    // Bootstrap(P1) -> AddAdmin(P1, P2) -> AddAdmin(P1, P2) fails.
    let mut l = Ledger::bootstrap(pk(1));
    let ev = l.add_admin(pk(1), pk(2)).unwrap();
    assert_eq!(ev.admin, pk(2));
    assert_eq!(ev.authority, pk(1));
    assert!(l.admin_config.is_admin(&pk(2)));
    let r = l.add_admin(pk(1), pk(2));
    assert_eq!(r.unwrap_err(), FormApprovalError::AdminAlreadyExists);
    assert_eq!(l.admin_config.admin_count, 2);
}

#[test]
fn add_admin_beyond_capacity_fails() {
    // admins = [P1..P10] -> AddAdmin(P1, P11) fails with MaxAdminsReached.
    let mut l = Ledger::bootstrap(pk(1));
    for tag in 2..=10u8 {
        l.add_admin(pk(1), pk(tag)).unwrap();
    }
    assert_eq!(l.admin_config.admin_count, 10);
    let r = l.add_admin(pk(1), pk(11));
    assert_eq!(r.unwrap_err(), FormApprovalError::MaxAdminsReached);
    assert_eq!(l.admin_config.admin_count, 10);
}

#[test]
fn add_admin_by_non_authority_fails() {
    let mut l = Ledger::bootstrap(pk(1));
    let r = l.add_admin(pk(2), pk(3));
    assert_eq!(r.unwrap_err(), FormApprovalError::UnauthorizedAdmin);
    assert_eq!(l.admin_config.admin_count, 1);
    assert!(!l.admin_config.is_admin(&pk(3)));
}

#[test]
fn remove_admin_by_non_authority_fails() {
    let mut l = Ledger::bootstrap(pk(1));
    l.add_admin(pk(1), pk(2)).unwrap();
    let r = l.remove_admin(pk(2), pk(1));
    assert_eq!(r.unwrap_err(), FormApprovalError::UnauthorizedAdmin);
    assert_eq!(l.admin_config.admin_count, 2);
}

#[test]
fn remove_last_admin_fails() {
    let mut l = Ledger::bootstrap(pk(1));
    let r = l.remove_admin(pk(1), pk(1));
    assert_eq!(r.unwrap_err(), FormApprovalError::CannotRemoveLastAdmin);
    assert_eq!(l.admin_config.admin_count, 1);
    assert!(l.admin_config.is_admin(&pk(1)));
}

#[test]
fn remove_absent_admin_fails() {
    let mut l = Ledger::bootstrap(pk(1));
    l.add_admin(pk(1), pk(2)).unwrap();
    let r = l.remove_admin(pk(1), pk(9));
    assert_eq!(r.unwrap_err(), FormApprovalError::AdminNotFound);
    assert_eq!(l.admin_config.admin_count, 2);
}

#[test]
fn remove_non_last_admin_swaps_in_last() {
    // live slots [P1, P2, P3]; removing P1 relocates P3 into slot 0.
    let mut l = Ledger::bootstrap(pk(1));
    l.add_admin(pk(1), pk(2)).unwrap();
    l.add_admin(pk(1), pk(3)).unwrap();
    let ev = l.remove_admin(pk(1), pk(1)).unwrap();
    assert_eq!(ev.admin, pk(1));
    assert_eq!(l.admin_config.admin_count, 2);
    assert_eq!(l.admin_config.admins[0], pk(3));
    assert_eq!(l.admin_config.admins[1], pk(2));
    assert!(!l.admin_config.is_admin(&pk(1)));
    // the authority keeps its mutation rights even after leaving the list
    let ev2 = l.add_admin(pk(1), pk(4)).unwrap();
    assert_eq!(ev2.authority, pk(1));
}

#[test]
fn remove_last_slot_admin_clears_it() {
    let mut l = Ledger::bootstrap(pk(1));
    l.add_admin(pk(1), pk(2)).unwrap();
    l.remove_admin(pk(1), pk(2)).unwrap();
    assert_eq!(l.admin_config.admin_count, 1);
    assert_eq!(l.admin_config.admins[1], Pubkey::default());
    assert!(!l.admin_config.is_admin(&pk(2)));
}

#[test]
fn sign_creates_record_and_round_trips() {
    // SignFormSubmission then GetFormApprovalDetails returns the stored tuple.
    let mut l = Ledger::bootstrap(pk(1));
    l.add_admin(pk(1), pk(2)).unwrap();
    let ev = l
        .sign_form_submission(pk(2), b"F1".to_vec(), hash(7), Some(b"note".to_vec()), 1234)
        .unwrap();
    assert_eq!(ev.form_id, b"F1".to_vec());
    assert_eq!(ev.form_hash, hash(7));
    assert_eq!(ev.signer, pk(2));
    assert_eq!(ev.approved_at, 1234);
    let (form_id, form_hash, signer, approved_at, metadata) =
        l.get_form_approval_details(&b"F1".to_vec()).unwrap();
    assert_eq!(form_id, b"F1".to_vec());
    assert_eq!(form_hash, hash(7));
    assert_eq!(signer, pk(2));
    assert_eq!(approved_at, 1234);
    assert_eq!(metadata, b"note".to_vec());
}

#[test]
fn sign_without_metadata_stores_empty() {
    let mut l = Ledger::bootstrap(pk(1));
    l.sign_form_submission(pk(1), b"F1".to_vec(), hash(7), None, 5).unwrap();
    let (_, _, _, _, metadata) = l.get_form_approval_details(&b"F1".to_vec()).unwrap();
    assert_eq!(metadata, Vec::<u8>::new());
}

#[test]
fn sign_twice_same_id_fails_and_keeps_record() {
    // at most one signing per form id ever succeeds
    let mut l = Ledger::bootstrap(pk(1));
    l.add_admin(pk(1), pk(2)).unwrap();
    l.sign_form_submission(pk(1), b"F1".to_vec(), hash(7), None, 10).unwrap();
    let r = l.sign_form_submission(pk(2), b"F1".to_vec(), hash(8), None, 20);
    assert_eq!(r.unwrap_err(), FormApprovalError::FormAlreadyApproved);
    let (_, form_hash, signer, approved_at, _) =
        l.get_form_approval_details(&b"F1".to_vec()).unwrap();
    assert_eq!(form_hash, hash(7));
    assert_eq!(signer, pk(1));
    assert_eq!(approved_at, 10);
}

#[test]
fn sign_by_non_admin_fails() {
    let mut l = Ledger::bootstrap(pk(1));
    let r = l.sign_form_submission(pk(2), b"F1".to_vec(), hash(7), None, 10);
    assert_eq!(r.unwrap_err(), FormApprovalError::UnauthorizedAdmin);
    assert_eq!(
        l.verify_form_approval(&b"F1".to_vec(), hash(7)).unwrap_err(),
        FormApprovalError::RecordNotFound
    );
}

#[test]
fn sign_with_zero_hash_fails_and_creates_nothing() {
    // SignFormSubmission(P2, "F1", 0x00..00, None) fails with InvalidFormHash.
    let mut l = Ledger::bootstrap(pk(1));
    l.add_admin(pk(1), pk(2)).unwrap();
    let r = l.sign_form_submission(pk(2), b"F1".to_vec(), [0u8; 32], None, 10);
    assert_eq!(r.unwrap_err(), FormApprovalError::InvalidFormHash);
    assert_eq!(
        l.get_form_approval_details(&b"F1".to_vec()).unwrap_err(),
        FormApprovalError::RecordNotFound
    );
}

#[test]
fn sign_with_long_form_id_fails() {
    let mut l = Ledger::bootstrap(pk(1));
    let ok_id = vec![b'a'; 64];
    let long_id = vec![b'a'; 65];
    assert_eq!(
        l.sign_form_submission(pk(1), long_id, hash(7), None, 10).unwrap_err(),
        FormApprovalError::FormIdTooLong
    );
    assert!(l.sign_form_submission(pk(1), ok_id, hash(7), None, 10).is_ok());
}

#[test]
fn sign_with_long_metadata_fails() {
    let mut l = Ledger::bootstrap(pk(1));
    let ok_meta = vec![b'm'; 256];
    let long_meta = vec![b'm'; 257];
    assert_eq!(
        l.sign_form_submission(pk(1), b"F1".to_vec(), hash(7), Some(long_meta), 10).unwrap_err(),
        FormApprovalError::MetadataTooLong
    );
    assert!(l.sign_form_submission(pk(1), b"F1".to_vec(), hash(7), Some(ok_meta), 10).is_ok());
}

#[test]
fn update_by_signer_succeeds_by_other_admin_fails() {
    // UpdateFormApproval(P3, "F1", ..) fails for P3 != signer P2;
    // UpdateFormApproval(P2, "F1", "x") succeeds.
    let mut l = Ledger::bootstrap(pk(1));
    l.add_admin(pk(1), pk(2)).unwrap();
    l.add_admin(pk(1), pk(3)).unwrap();
    l.sign_form_submission(pk(2), b"F1".to_vec(), hash(7), Some(b"note".to_vec()), 10).unwrap();
    let r = l.update_form_approval(pk(3), &b"F1".to_vec(), b"x".to_vec());
    assert_eq!(r.unwrap_err(), FormApprovalError::UnauthorizedAdmin);
    let (_, _, _, _, metadata) = l.get_form_approval_details(&b"F1".to_vec()).unwrap();
    assert_eq!(metadata, b"note".to_vec());
    l.update_form_approval(pk(2), &b"F1".to_vec(), b"x".to_vec()).unwrap();
    let (form_id, form_hash, signer, approved_at, metadata) =
        l.get_form_approval_details(&b"F1".to_vec()).unwrap();
    assert_eq!(metadata, b"x".to_vec());
    // every other field untouched
    assert_eq!(form_id, b"F1".to_vec());
    assert_eq!(form_hash, hash(7));
    assert_eq!(signer, pk(2));
    assert_eq!(approved_at, 10);
}

#[test]
fn removed_admin_keeps_update_rights_on_own_record() {
    let mut l = Ledger::bootstrap(pk(1));
    l.add_admin(pk(1), pk(2)).unwrap();
    l.sign_form_submission(pk(2), b"F1".to_vec(), hash(7), None, 10).unwrap();
    l.remove_admin(pk(1), pk(2)).unwrap();
    l.update_form_approval(pk(2), &b"F1".to_vec(), b"late".to_vec()).unwrap();
    let (_, _, _, _, metadata) = l.get_form_approval_details(&b"F1".to_vec()).unwrap();
    assert_eq!(metadata, b"late".to_vec());
}

#[test]
fn update_with_long_metadata_fails() {
    let mut l = Ledger::bootstrap(pk(1));
    l.sign_form_submission(pk(1), b"F1".to_vec(), hash(7), None, 10).unwrap();
    let r = l.update_form_approval(pk(1), &b"F1".to_vec(), vec![b'm'; 257]);
    assert_eq!(r.unwrap_err(), FormApprovalError::MetadataTooLong);
}

#[test]
fn update_absent_record_fails() {
    let mut l = Ledger::bootstrap(pk(1));
    let r = l.update_form_approval(pk(1), &b"F1".to_vec(), b"x".to_vec());
    assert_eq!(r.unwrap_err(), FormApprovalError::RecordNotFound);
}

#[test]
fn verify_matches_only_the_stored_hash() {
    // VerifyFormApproval("F1", h) is true; for h' != h it is false.
    let mut l = Ledger::bootstrap(pk(1));
    l.sign_form_submission(pk(1), b"F1".to_vec(), hash(7), None, 10).unwrap();
    assert_eq!(l.verify_form_approval(&b"F1".to_vec(), hash(7)), Ok(true));
    assert_eq!(l.verify_form_approval(&b"F1".to_vec(), hash(8)), Ok(false));
    let mut near = hash(7);
    near[31] = 6;
    assert_eq!(l.verify_form_approval(&b"F1".to_vec(), near), Ok(false));
}

#[test]
fn verify_absent_record_fails() {
    let l = Ledger::bootstrap(pk(1));
    assert_eq!(
        l.verify_form_approval(&b"F1".to_vec(), hash(7)).unwrap_err(),
        FormApprovalError::RecordNotFound
    );
}

#[test]
fn records_with_distinct_ids_are_independent() {
    let mut l = Ledger::bootstrap(pk(1));
    l.sign_form_submission(pk(1), b"F1".to_vec(), hash(7), None, 10).unwrap();
    l.sign_form_submission(pk(1), b"F2".to_vec(), hash(8), None, 20).unwrap();
    assert_eq!(l.verify_form_approval(&b"F1".to_vec(), hash(7)), Ok(true));
    assert_eq!(l.verify_form_approval(&b"F2".to_vec(), hash(8)), Ok(true));
    l.update_form_approval(pk(1), &b"F2".to_vec(), b"two".to_vec()).unwrap();
    let (_, _, _, _, m1) = l.get_form_approval_details(&b"F1".to_vec()).unwrap();
    assert_eq!(m1, Vec::<u8>::new());
}
