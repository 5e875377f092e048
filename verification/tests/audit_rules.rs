use cabinet_usecases::audit::{check_audit_query, AuditProductEvent, AuditUsecaseError};

#[test]
fn audit_query_without_permission_is_denied_and_logged() {
    assert_eq!(check_audit_query(true, "user-123456", "workspace"), Ok(()));
    let (error, event) = check_audit_query(false, "user-123456", "workspace").unwrap_err();
    assert_eq!(error, AuditUsecaseError::Unauthorized);
    assert_eq!(
        event,
        AuditProductEvent::QueryDenied {
            masked_actor_id: "masked:3456".to_string(),
            scope: "workspace",
            error_code: "AUDIT_UNAUTHORIZED",
        }
    );
    assert_eq!(event.event_name(), "audit.query.denied");
}
