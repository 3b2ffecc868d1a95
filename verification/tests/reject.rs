use slash::reject::{custom, Cause, CauseTag, CustomCause, KnownCause, Rejection};

fn custom_cause(tag: u64, payload: &str) -> CustomCause {
    CustomCause {
        tag,
        payload: payload.to_string(),
    }
}

#[test]
fn not_found_is_not_found() {
    let rejection = Rejection::not_found();
    assert!(rejection.is_not_found());
    assert!(!custom(custom_cause(1, "x")).is_not_found());
}

#[test]
fn combine_not_found_is_identity() {
    let r = custom(custom_cause(3, "boom"));
    assert_eq!(Rejection::not_found().combine(custom(custom_cause(3, "boom"))), r);
    assert_eq!(custom(custom_cause(3, "boom")).combine(Rejection::not_found()), r);
    assert_eq!(
        Rejection::not_found().combine(Rejection::not_found()),
        Rejection::not_found()
    );
}

#[test]
fn combined_rejection_finds_both_tags() {
    let a = Rejection::known(KnownCause::MissingArgument("text".to_string()));
    let b = custom(custom_cause(7, "rate limited"));
    let combined = a.combine(b);
    assert!(combined.find(CauseTag::MissingArgument).is_some());
    assert!(combined.find(CauseTag::Custom(7)).is_some());
    assert!(combined.find(CauseTag::Custom(8)).is_none());
}

#[test]
fn find_returns_first_in_document_order() {
    let a = custom(custom_cause(5, "first"));
    let b = custom(custom_cause(5, "second"));
    let combined = a.combine(b);
    match combined.find(CauseTag::Custom(5)) {
        Some(Cause::Custom(c)) => assert_eq!(c.payload, "first"),
        other => panic!("unexpected find result: {:?}", other),
    }
}

#[test]
fn describe_not_found() {
    assert_eq!(Rejection::not_found().describe(), "NotFound");
}

#[test]
fn describe_combined_causes() {
    let a = Rejection::known(KnownCause::MissingArgument("text".to_string()));
    let b = custom(custom_cause(7, ""));
    let combined = a.combine(b);
    assert_eq!(combined.describe(), "[MissingArgument: text, Custom#7]");
}

#[test]
fn cause_tag_of_each_kind() {
    assert_eq!(
        Cause::Known(KnownCause::DiscordApiError).tag(),
        CauseTag::ApiError
    );
    assert_eq!(
        Cause::Known(KnownCause::TypeMismatch("n".to_string())).tag(),
        CauseTag::TypeMismatch
    );
    assert_eq!(
        Cause::Known(KnownCause::InvalidChoice("n".to_string())).tag(),
        CauseTag::InvalidChoice
    );
    assert_eq!(Cause::Custom(custom_cause(9, "p")).tag(), CauseTag::Custom(9));
}
