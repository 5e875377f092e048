use cabinet_usecases::document_diff::{
    title_delta_from_titles, DiffComputation, DiffLimitReason, DiffPolicy, DiffPolicyError,
    DocumentLineDiffService, DocumentTitleDelta, LineDiffKind,
};

fn service(context: usize, bytes: usize, lines: usize, hunks: usize) -> DocumentLineDiffService {
    DocumentLineDiffService::with_policy(DiffPolicy::new(context, bytes, lines, hunks).unwrap())
}

#[test]
fn default_policy_values() {
    let policy = DiffPolicy::default();
    assert_eq!(policy.context_lines(), 3);
    assert_eq!(policy.sync_max_bytes(), 2_097_152);
    assert_eq!(policy.sync_max_lines(), 100_000);
    assert_eq!(policy.max_hunks(), 10_000);
}

#[test]
fn policy_rejects_each_bad_limit() {
    assert_eq!(DiffPolicy::new(3, 0, 10, 10), Err(DiffPolicyError::ZeroByteLimit));
    assert_eq!(DiffPolicy::new(3, 10, 0, 10), Err(DiffPolicyError::ZeroLineLimit));
    assert_eq!(DiffPolicy::new(3, 10, 10, 0), Err(DiffPolicyError::ZeroHunkLimit));
    assert_eq!(DiffPolicy::new(11, 10, 10, 10), Err(DiffPolicyError::ContextExceedsLineLimit));
    assert!(DiffPolicy::new(10, 10, 10, 10).is_ok());
}

#[test]
fn identical_texts_have_no_hunks() {
    let diff = DocumentLineDiffService::default().compare("a\nb\n", "a\nb\n", DocumentTitleDelta::Unchanged);
    let DiffComputation::Complete(result) = diff else { panic!("expected a complete diff") };
    assert_eq!(result.lines().len(), 2);
    assert!(result.lines().iter().all(|line| line.kind() == LineDiffKind::Equal));
    assert!(result.hunks().is_empty());
    assert_eq!(result.added_count(), 0);
    assert_eq!(result.removed_count(), 0);
    assert!(result.old_ends_with_newline());
    assert!(result.new_ends_with_newline());
}

#[test]
fn changed_line_is_removed_then_added() {
    let diff = DocumentLineDiffService::default().compare("a\nb\nc\n", "a\nx\nc\n", DocumentTitleDelta::Unchanged);
    let DiffComputation::Complete(result) = diff else { panic!("expected a complete diff") };
    let lines = result.lines();
    assert_eq!(lines.len(), 4);
    assert_eq!((lines[0].kind(), lines[0].text(), lines[0].old_line_number(), lines[0].new_line_number()), (LineDiffKind::Equal, "a", Some(1), Some(1)));
    assert_eq!((lines[1].kind(), lines[1].text(), lines[1].old_line_number(), lines[1].new_line_number()), (LineDiffKind::Removed, "b", Some(2), None));
    assert_eq!((lines[2].kind(), lines[2].text(), lines[2].old_line_number(), lines[2].new_line_number()), (LineDiffKind::Added, "x", None, Some(2)));
    assert_eq!((lines[3].kind(), lines[3].text(), lines[3].old_line_number(), lines[3].new_line_number()), (LineDiffKind::Equal, "c", Some(3), Some(3)));
    assert_eq!(result.added_count(), 1);
    assert_eq!(result.removed_count(), 1);
    assert_eq!(result.hunks().len(), 1);
    let hunk = &result.hunks()[0];
    assert_eq!(hunk.old_start_line(), 1);
    assert_eq!(hunk.new_start_line(), 1);
    assert_eq!(hunk.lines().len(), 4);
    assert_eq!(hunk.added_count(), 1);
    assert_eq!(hunk.removed_count(), 1);
}

#[test]
fn line_endings_are_normalized() {
    let diff = DocumentLineDiffService::default().compare("a\r\nb", "a\nb", DocumentTitleDelta::Unchanged);
    let DiffComputation::Complete(result) = diff else { panic!("expected a complete diff") };
    assert_eq!(result.lines().len(), 2);
    assert!(result.hunks().is_empty());
    assert!(!result.old_ends_with_newline());
    let diff = DocumentLineDiffService::default().compare("a\rb\r", "a\nb\n", DocumentTitleDelta::Unchanged);
    let DiffComputation::Complete(result) = diff else { panic!("expected a complete diff") };
    assert!(result.hunks().is_empty());
    assert!(result.old_ends_with_newline());
}

#[test]
fn empty_text_has_no_lines() {
    let diff = DocumentLineDiffService::default().compare("", "new\n", DocumentTitleDelta::Unchanged);
    let DiffComputation::Complete(result) = diff else { panic!("expected a complete diff") };
    assert_eq!(result.lines().len(), 1);
    assert_eq!(result.lines()[0].kind(), LineDiffKind::Added);
    assert_eq!(result.lines()[0].new_line_number(), Some(1));
    assert_eq!(result.hunks()[0].old_start_line(), 1);
}

#[test]
fn separate_changes_make_separate_hunks() {
    let diff = service(0, 1000, 1000, 10).compare("a\nb\nc\nd\ne\n", "A\nb\nc\nd\nE\n", DocumentTitleDelta::Unchanged);
    let DiffComputation::Complete(result) = diff else { panic!("expected a complete diff") };
    assert_eq!(result.hunks().len(), 2);
    assert_eq!(result.hunks()[1].old_start_line(), 5);
    assert_eq!(result.hunks()[1].new_start_line(), 5);
    let merged = service(1, 1000, 1000, 10).compare("a\nb\nc\nd\n", "A\nb\nc\nD\n", DocumentTitleDelta::Unchanged);
    let DiffComputation::Complete(result) = merged else { panic!("expected a complete diff") };
    assert_eq!(result.hunks().len(), 1);
}

#[test]
fn diff_limits_are_reported() {
    assert_eq!(service(0, 3, 10, 10).compare("ab", "cd", DocumentTitleDelta::Unchanged), DiffComputation::TooLarge(DiffLimitReason::Bytes));
    assert_eq!(service(0, 100, 2, 10).compare("a\nb", "a", DocumentTitleDelta::Unchanged), DiffComputation::TooLarge(DiffLimitReason::Lines));
    assert_eq!(service(0, 100, 100, 1).compare("a\nb\nc\n", "x\nb\ny\n", DocumentTitleDelta::Unchanged), DiffComputation::TooLarge(DiffLimitReason::Hunks));
}

#[test]
fn title_delta_compares_titles() {
    assert_eq!(title_delta_from_titles("Plan", "Plan"), DocumentTitleDelta::Unchanged);
    assert_eq!(
        title_delta_from_titles("Plan", "Roadmap"),
        DocumentTitleDelta::Changed { before: "Plan".to_string(), after: "Roadmap".to_string() }
    );
}

#[test]
fn diff_policy_error_code() {
    assert_eq!(DiffPolicyError::ZeroByteLimit.code(), "document.diff_policy_invalid");
}
