use slash::arg::{choice, float, integer, string};
use slash::context::{Context, Scope};
use slash::filter::{any, Extraction, Filter, MapStep, RecoverStep, ThenStep};
use slash::model::interaction::{ArgValue, Invocation, InvocationOption};
use slash::model::snowflake::Snowflake;
use slash::reject::{CauseTag, Rejection};

fn invocation(name: &str, options: Vec<(&str, ArgValue)>) -> Invocation {
    Invocation {
        name: name.to_string(),
        options: options
            .into_iter()
            .map(|(n, value)| InvocationOption {
                name: n.to_string(),
                value,
            })
            .collect(),
        user_id: Snowflake::from(1u64),
        channel_id: Snowflake::from(2u64),
        guild_id: None,
    }
}

fn run(filter: &Filter, inv: Invocation) -> (Result<Extraction, Rejection>, Vec<String>) {
    let mut scope = Scope::new();
    scope.enter(Context::new(inv));
    let result = filter.evaluate(&mut scope);
    let ctx = scope.exit();
    (result, ctx.into_replies())
}

#[test]
fn and_is_associative() {
    let inv = || {
        invocation(
            "cmd",
            vec![
                ("a", ArgValue::Text("x".to_string())),
                ("b", ArgValue::Int(4)),
                ("c", ArgValue::Text("z".to_string())),
            ],
        )
    };
    let left = string("a", "").filter().and(integer("b".to_string(), String::new()).filter())
        .and(string("c", "").filter());
    let right = string("a", "").filter().and(
        integer("b".to_string(), String::new()).filter().and(string("c", "").filter()),
    );
    let (left_result, left_replies) = run(&left, inv());
    let (right_result, right_replies) = run(&right, inv());
    let left_vals = left_result.unwrap().vals;
    let right_vals = right_result.unwrap().vals;
    assert_eq!(left_vals, right_vals);
    assert_eq!(
        left_vals,
        vec![
            ArgValue::Text("x".to_string()),
            ArgValue::Int(4),
            ArgValue::Text("z".to_string()),
        ]
    );
    assert_eq!(left_replies, right_replies);
}

#[test]
fn and_is_associative_when_a_side_rejects() {
    let inv = || invocation("cmd", vec![("a", ArgValue::Text("x".to_string()))]);
    let left = string("a", "").filter().and(string("missing", "").filter())
        .and(string("c", "").filter());
    let right = string("a", "").filter()
        .and(string("missing", "").filter().and(string("c", "").filter()));
    let (left_result, _) = run(&left, inv());
    let (right_result, _) = run(&right, inv());
    let left_rejection = left_result.unwrap_err();
    let right_rejection = right_result.unwrap_err();
    assert!(left_rejection.find(CauseTag::MissingArgument).is_some());
    assert!(right_rejection.find(CauseTag::MissingArgument).is_some());
}

#[test]
fn or_short_circuits_on_success() {
    // The right side replies loudly if it is ever evaluated.
    let loud = any().map(MapStep::Reply("SHOULD NOT RUN".to_string()));
    let combined = any().or(loud);
    let (result, replies) = run(&combined, invocation("cmd", vec![]));
    assert!(result.is_ok());
    assert!(replies.is_empty());
}

#[test]
fn or_combines_both_rejections() {
    let a = string("alpha", "").filter();
    let b = any().and_then(ThenStep::FailWith(slash::reject::CustomCause {
        tag: 7,
        payload: "handler said no".to_string(),
    }));
    let combined = a.or(b);
    let (result, _) = run(&combined, invocation("cmd", vec![]));
    let rejection = result.unwrap_err();
    assert!(rejection.find(CauseTag::MissingArgument).is_some());
    assert!(rejection.find(CauseTag::Custom(7)).is_some());
}

#[test]
fn string_filter_missing_argument() {
    let filter = string("text", "The text to echo.").filter();
    let (result, _) = run(&filter, invocation("echo", vec![]));
    let rejection = result.unwrap_err();
    assert!(!rejection.is_not_found());
    match rejection.find(CauseTag::MissingArgument) {
        Some(slash::reject::Cause::Known(slash::reject::KnownCause::MissingArgument(name))) => {
            assert_eq!(name, "text");
        }
        other => panic!("unexpected cause: {:?}", other),
    }
}

#[test]
fn string_filter_type_mismatch() {
    let filter = string("text", "").filter();
    let (result, _) = run(
        &filter,
        invocation("echo", vec![("text", ArgValue::Int(3))]),
    );
    let rejection = result.unwrap_err();
    assert!(rejection.find(CauseTag::TypeMismatch).is_some());
    assert!(rejection.find(CauseTag::MissingArgument).is_none());
}

#[test]
fn string_filter_extracts_the_value() {
    let filter = string("text", "").filter();
    let (result, _) = run(
        &filter,
        invocation("echo", vec![("text", ArgValue::Text("hi".to_string()))]),
    );
    let extraction = result.unwrap();
    assert_eq!(extraction.vals, vec![ArgValue::Text("hi".to_string())]);
}

#[test]
fn integer_filter_extracts_and_mismatches() {
    let filter = integer("count".to_string(), String::new()).filter();
    let (ok, _) = run(
        &filter,
        invocation("cmd", vec![("count", ArgValue::Int(-3))]),
    );
    assert_eq!(ok.unwrap().vals, vec![ArgValue::Int(-3)]);
    let (bad, _) = run(
        &filter,
        invocation("cmd", vec![("count", ArgValue::Text("3".to_string()))]),
    );
    assert!(bad.unwrap_err().find(CauseTag::TypeMismatch).is_some());
}

#[test]
fn float_filter_extracts_number_text() {
    let filter = float("ratio".to_string(), String::new()).filter();
    let (ok, _) = run(
        &filter,
        invocation("cmd", vec![("ratio", ArgValue::Number("2.5".to_string()))]),
    );
    assert_eq!(ok.unwrap().vals, vec![ArgValue::Number("2.5".to_string())]);
}

#[test]
fn choice_filter_enforces_the_list() {
    let colors = vec!["red".to_string(), "blue".to_string()];
    let filter = choice("color", "", colors).filter();
    let (ok, _) = run(
        &filter,
        invocation("cmd", vec![("color", ArgValue::Text("blue".to_string()))]),
    );
    assert_eq!(ok.unwrap().vals, vec![ArgValue::Text("blue".to_string())]);
    let (bad, _) = run(
        &filter,
        invocation("cmd", vec![("color", ArgValue::Text("green".to_string()))]),
    );
    assert!(bad.unwrap_err().find(CauseTag::InvalidChoice).is_some());
}

#[test]
fn uppercase_chain_transforms_the_text() {
    let chain = string("text", "").filter().and_then(ThenStep::Uppercased);
    let (result, replies) = run(
        &chain,
        invocation("upper", vec![("text", ArgValue::Text("hi".to_string()))]),
    );
    assert_eq!(result.unwrap().vals, vec![ArgValue::Text("HI".to_string())]);
    assert!(replies.is_empty());
}

#[test]
fn uppercase_chain_rejects_when_text_is_absent() {
    let chain = string("text", "").filter().and_then(ThenStep::Uppercased);
    let (result, _) = run(&chain, invocation("upper", vec![]));
    let rejection = result.unwrap_err();
    assert!(!rejection.is_not_found());
    match rejection.find(CauseTag::MissingArgument) {
        Some(slash::reject::Cause::Known(slash::reject::KnownCause::MissingArgument(name))) => {
            assert_eq!(name, "text");
        }
        other => panic!("unexpected cause: {:?}", other),
    }
}

#[test]
fn map_reply_concat_echoes_the_text() {
    let chain = string("text", "").filter().map(MapStep::ReplyConcat("you said: ".to_string()));
    let (result, replies) = run(
        &chain,
        invocation("echo", vec![("text", ArgValue::Text("hello".to_string()))]),
    );
    assert!(result.unwrap().vals.is_empty());
    assert_eq!(replies, vec!["you said: hello".to_string()]);
}

#[test]
fn map_discard_empties_the_extraction() {
    let chain = string("text", "").filter().map(MapStep::Discard);
    let (result, replies) = run(
        &chain,
        invocation("cmd", vec![("text", ArgValue::Text("x".to_string()))]),
    );
    assert!(result.unwrap().vals.is_empty());
    assert!(replies.is_empty());
}

#[test]
fn recover_replies_and_succeeds() {
    let chain = string("text", "").filter().recover(RecoverStep {
        message: "something went wrong".to_string(),
    });
    let (result, replies) = run(&chain, invocation("cmd", vec![]));
    assert!(result.unwrap().vals.is_empty());
    assert_eq!(replies, vec!["something went wrong".to_string()]);
}

#[test]
fn recover_passes_success_through() {
    let chain = string("text", "").filter().recover(RecoverStep {
        message: "fallback".to_string(),
    });
    let (result, replies) = run(
        &chain,
        invocation("cmd", vec![("text", ArgValue::Text("ok".to_string()))]),
    );
    assert_eq!(result.unwrap().vals, vec![ArgValue::Text("ok".to_string())]);
    assert!(replies.is_empty());
}

#[test]
fn first_option_with_the_name_wins() {
    let filter = string("text", "").filter();
    let (result, _) = run(
        &filter,
        invocation(
            "cmd",
            vec![
                ("text", ArgValue::Text("first".to_string())),
                ("text", ArgValue::Text("second".to_string())),
            ],
        ),
    );
    assert_eq!(
        result.unwrap().vals,
        vec![ArgValue::Text("first".to_string())]
    );
}
