use cabinet_usecases::backup::{validate_text, BackupJobUsecaseError};
use cabinet_usecases::backup_catalog::{catalog_page_is_consistent, check_catalog_request, valid_cursor, ListBackupCatalogError};
use cabinet_usecases::backup_package::{package_totals, PackageEntryCounts};
use cabinet_usecases::canvas::{
    CanvasUsecaseError, ConvertDocumentOutlineToCanvasInput, ConvertDocumentOutlineToCanvasUsecase,
    DocumentOutlineHeadingInput,
};
use cabinet_usecases::canvas_catalog::{select_initial_canvas, ResolvedCanvasSelectionSource};
use cabinet_usecases::comment::{mask_raw_id, version_id_hash};
use cabinet_usecases::document_lock::{
    conflict_field_debug_event, conflict_product_event, lock_acquired_event, lock_expiry_label,
    lock_state_label, lock_view_status, permission_checked_event, DocumentLockProductEvent,
    DocumentLockUsecaseError, DocumentLockViewStatus,
};
use cabinet_usecases::field_debug::{
    check_diagnostic_session, check_requested_ttl, contains_sensitive_fragment, ttl_bucket,
    validate_diagnostic_field, validate_diagnostic_input, validate_log_token, validate_session_ttl,
    FieldDebugDiagnosticInput, FieldDebugLogEvent, FieldDebugProductEvent, FieldDebugSessionOutputStatus,
    FieldDebugSessionPolicy, FieldDebugUsecaseError,
};
use cabinet_usecases::text::mask_id;

#[test]
fn validate_text_trims_and_rejects() {
    assert_eq!(validate_text("  nightly  "), Ok("nightly".to_string()));
    assert_eq!(validate_text("   "), Err(BackupJobUsecaseError::InvalidInput));
    assert_eq!(validate_text("a\u{7}b"), Err(BackupJobUsecaseError::InvalidInput));
}

#[test]
fn catalog_requests_and_pages() {
    assert!(valid_cursor("page-2"));
    assert!(!valid_cursor(""));
    assert!(!valid_cursor(&"x".repeat(257)));
    assert_eq!(check_catalog_request(50, Some("c1")), Ok(()));
    assert_eq!(check_catalog_request(0, None), Err(ListBackupCatalogError::InvalidInput));
    assert_eq!(check_catalog_request(51, None), Err(ListBackupCatalogError::InvalidInput));
    let ids = vec!["p2".to_string(), "p1".to_string()];
    assert!(catalog_page_is_consistent(2, &ids, &vec![Some(20), Some(10)], None));
    assert!(!catalog_page_is_consistent(2, &ids, &vec![Some(10), Some(20)], None));
    assert!(!catalog_page_is_consistent(1, &ids, &vec![Some(20), Some(10)], None));
    let twice = vec!["p1".to_string(), "p1".to_string()];
    assert!(!catalog_page_is_consistent(2, &twice, &vec![Some(20), Some(10)], None));
}

#[test]
fn package_totals_saturate() {
    let entries = [
        PackageEntryCounts { authoritative: true, record_count: 3, byte_count: 100 },
        PackageEntryCounts { authoritative: false, record_count: 4, byte_count: u64::MAX },
        PackageEntryCounts { authoritative: true, record_count: 5, byte_count: 1 },
    ];
    let totals = package_totals(&entries);
    assert_eq!(totals.authoritative_record_count, 8);
    assert_eq!(totals.rebuildable_record_count, 4);
    assert_eq!(totals.byte_count, u64::MAX);
}

#[test]
fn outline_becomes_canvas_layout() {
    let input = ConvertDocumentOutlineToCanvasInput::new(vec![
        DocumentOutlineHeadingInput::new(" h1 ", " Intro ", 1),
        DocumentOutlineHeadingInput::new("h2", "Details", 3),
    ]);
    let output = ConvertDocumentOutlineToCanvasUsecase::new().execute(input).unwrap();
    let suggestions = output.suggestions();
    assert_eq!(suggestions.len(), 2);
    assert_eq!((suggestions[0].heading_id(), suggestions[0].title(), suggestions[0].x(), suggestions[0].y()), ("h1", "Intro", 0, 0));
    assert_eq!((suggestions[1].level(), suggestions[1].x(), suggestions[1].y()), (3, 480, 140));
    let bad = ConvertDocumentOutlineToCanvasInput::new(vec![DocumentOutlineHeadingInput::new("h", "t", 0)]);
    assert_eq!(ConvertDocumentOutlineToCanvasUsecase::new().execute(bad).unwrap_err(), CanvasUsecaseError::InvalidInput);
}

#[test]
fn initial_canvas_selection() {
    let ids = vec!["a".to_string(), "b".to_string(), "c".to_string()];
    let archived = vec![true, false, false];
    assert_eq!(select_initial_canvas(&ids, &archived, Some("c")), (Some(2), ResolvedCanvasSelectionSource::LastUsed));
    assert_eq!(select_initial_canvas(&ids, &archived, Some("a")), (Some(1), ResolvedCanvasSelectionSource::Fallback));
    assert_eq!(select_initial_canvas(&ids, &archived, None), (Some(1), ResolvedCanvasSelectionSource::Fallback));
    assert_eq!(select_initial_canvas(&ids, &vec![true, true, true], None), (None, ResolvedCanvasSelectionSource::Empty));
}

#[test]
fn version_hashes_are_fnv() {
    assert_eq!(version_id_hash("v1"), "vhash:08cf0b07b5709128");
    assert_eq!(version_id_hash(""), "vhash:cbf29ce484222325");
    assert_eq!(version_id_hash("version-42"), "vhash:539866560b764d94");
}

#[test]
fn masked_identifiers() {
    assert_eq!(mask_id(""), "masked:empty");
    assert_eq!(mask_id("abcd"), "masked:short");
    assert_eq!(mask_id("user-12345"), "masked:2345");
    assert_eq!(mask_raw_id("ab"), "masked:ab");
    assert_eq!(mask_raw_id("user-9876"), "masked:9876");
}

#[test]
fn lock_labels_and_events() {
    assert_eq!(lock_state_label(true), "locked");
    assert_eq!(lock_state_label(false), "unlocked");
    assert_eq!(lock_expiry_label(None), "none");
    assert_eq!(lock_expiry_label(Some(true)), "expired");
    assert_eq!(lock_expiry_label(Some(false)), "active");
    assert_eq!(lock_view_status(Some(true)), DocumentLockViewStatus::Expired);
    assert_eq!(lock_view_status(None).as_str(), "unlocked");
    let checked = permission_checked_event("lock_requested", false);
    assert_eq!((checked.current_state(), checked.requested_event(), checked.permission_decision(), checked.lock_expiry_status()), ("permission_checked", "lock_requested", "denied", "unknown"));
    let conflict = conflict_field_debug_event("unlock_requested", Some(false));
    assert_eq!((conflict.current_state(), conflict.lock_expiry_status()), ("locked", "active"));
    let event = conflict_product_event("user-12345", "doc-1", DocumentLockUsecaseError::NotOwner, "locked");
    assert_eq!(event.event_name(), "document.lock.conflict");
    assert_eq!(event, DocumentLockProductEvent::LockConflict {
        masked_actor_id: "masked:2345".to_string(),
        document_id: "doc-1".to_string(),
        error_code: "DOCUMENT_LOCK_NOT_OWNER",
        state: "locked",
    });
    assert_eq!(lock_acquired_event("ab", "doc-1", "lock-1").event_name(), "document.lock.acquired");
}

#[test]
fn sensitive_fragments_are_found_in_any_case() {
    assert!(contains_sensitive_fragment("My PASSWORD"));
    assert!(contains_sensitive_fragment("request body size"));
    assert!(contains_sensitive_fragment("x_Token_y"));
    assert!(!contains_sensitive_fragment("latency_ms"));
    assert!(!contains_sensitive_fragment(""));
}

#[test]
fn diagnostic_fields_are_checked() {
    assert_eq!(validate_diagnostic_field(" latency ", " 42 "), Ok(("latency".to_string(), "42".to_string())));
    assert_eq!(validate_diagnostic_field("api_token", "x"), Err(FieldDebugUsecaseError::SensitiveField));
    assert_eq!(validate_diagnostic_field("key", "secret sauce"), Err(FieldDebugUsecaseError::SensitiveField));
    assert_eq!(validate_diagnostic_field("", "x"), Err(FieldDebugUsecaseError::InvalidInput));
    assert_eq!(validate_diagnostic_field("k\u{1}", "x"), Err(FieldDebugUsecaseError::InvalidInput));
    assert_eq!(validate_log_token(" sync.step "), Ok(()));
    assert_eq!(validate_log_token("token.refresh"), Err(FieldDebugUsecaseError::InvalidInput));
}

#[test]
fn diagnostic_input_reports_first_refusal() {
    let ok = FieldDebugDiagnosticInput::new("ws", "s1", "sync.step", vec![("a", "1"), (" b ", "2 ")]);
    assert_eq!(validate_diagnostic_input(&ok), Ok(vec![("a".to_string(), "1".to_string()), ("b".to_string(), "2".to_string())]));
    let bad = FieldDebugDiagnosticInput::new("ws", "s1", "sync.step", vec![("a", ""), ("password", "x")]);
    assert_eq!(validate_diagnostic_input(&bad), Err(FieldDebugUsecaseError::InvalidInput));
    let bad_name = FieldDebugDiagnosticInput::new("ws", "s1", "  ", vec![]);
    assert_eq!(validate_diagnostic_input(&bad_name), Err(FieldDebugUsecaseError::InvalidInput));
    let event = FieldDebugLogEvent::new("scope-a", vec![("k".to_string(), "v".to_string())]);
    assert_eq!(event.event_name(), "field_debug.diagnostic");
    assert_eq!(event.fields(), vec![("k", "v")]);
}

#[test]
fn field_debug_ttl_rules() {
    let policy = FieldDebugSessionPolicy::new(600).unwrap();
    assert_eq!(FieldDebugSessionPolicy::new(0), Err(FieldDebugUsecaseError::InvalidInput));
    assert_eq!(FieldDebugSessionPolicy::default().max_ttl_seconds(), 900);
    assert_eq!(check_requested_ttl(Some(601), policy), Err(FieldDebugUsecaseError::TtlExceedsPolicy));
    assert_eq!(check_requested_ttl(None, policy), Ok(()));
    assert_eq!(validate_session_ttl(None, policy), Err(FieldDebugUsecaseError::MissingTtl));
    assert_eq!(validate_session_ttl(Some(600), policy), Ok(()));
    assert_eq!(ttl_bucket(None), "missing");
    assert_eq!(ttl_bucket(Some(300)), "0_300s");
    assert_eq!(ttl_bucket(Some(301)), "301_900s");
    assert_eq!(ttl_bucket(Some(901)), "over_900s");
    assert_eq!(check_diagnostic_session(FieldDebugSessionOutputStatus::Revoked, true, true), Err(FieldDebugUsecaseError::InactiveSession));
    assert_eq!(check_diagnostic_session(FieldDebugSessionOutputStatus::Active, false, true), Err(FieldDebugUsecaseError::ExpiredSession));
    assert_eq!(check_diagnostic_session(FieldDebugSessionOutputStatus::Active, true, false), Err(FieldDebugUsecaseError::MissingScope));
    assert_eq!(check_diagnostic_session(FieldDebugSessionOutputStatus::Active, true, true), Ok(()));
    let event = FieldDebugProductEvent::new("field_debug.requested", "admin-7777", None, Some(120), None);
    assert_eq!((event.masked_admin_id(), event.scope_id(), event.ttl_bucket(), event.error_code()), ("masked:7777", "missing", "0_300s", None));
    assert_eq!(FieldDebugUsecaseError::TtlExceedsPolicy.code(), "FIELD_DEBUG_TTL_EXCEEDS_POLICY");
}
