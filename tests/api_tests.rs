use groovehq_cli::config::{
    conversation_limit, endpoint_or_default, listing_folder, mask_token, resolve_token, Config,
};
use groovehq_cli::error::GrooveError;
use groovehq_cli::operations::{
    conversations_query, found_conversation, may_be_truncated, messages_first, messages_of,
};
use groovehq_cli::transport::{
    classify_response, join_messages, mutations_result, retry_after, GraphQLError,
    GraphQLResponse, MutationResult,
};

fn errs(msgs: &[&str]) -> Vec<GraphQLError> {
    msgs.iter().map(|m| GraphQLError { message: m.to_string() }).collect()
}

#[test]
fn test_config_default() {
    let config = Config::default();
    assert!(config.api_token.is_none());
    assert!(config.api_endpoint.is_none());
    assert!(config.defaults.format.is_none());
    assert!(config.defaults.limit.is_none());
    assert!(config.defaults.folder.is_none());
    assert!(config.aliases.is_empty());
}

#[test]
fn data_comes_back_unchanged() {
    let body = GraphQLResponse { data: Some(vec![1u32, 2, 3]), errors: None };
    assert_eq!(classify_response(200, None, body), Ok(vec![1, 2, 3]));
    let body = GraphQLResponse { data: Some(7u32), errors: Some(Vec::new()) };
    assert_eq!(classify_response(200, None, body), Ok(7));
}

#[test]
fn rate_limit_wins_over_body() {
    let body = GraphQLResponse { data: Some(1u32), errors: None };
    assert_eq!(
        classify_response(429, Some("60"), body),
        Err(GrooveError::RateLimited { retry_after: Some(60) })
    );
    let body: GraphQLResponse<u32> = GraphQLResponse { data: None, errors: Some(errs(&["x"])) };
    assert_eq!(
        classify_response(429, Some("soon"), body),
        Err(GrooveError::RateLimited { retry_after: None })
    );
    let body: GraphQLResponse<u32> = GraphQLResponse { data: None, errors: None };
    assert_eq!(
        classify_response(429, None, body),
        Err(GrooveError::RateLimited { retry_after: None })
    );
}

#[test]
fn unauthorized_wins_over_body() {
    let body = GraphQLResponse { data: Some(1u32), errors: None };
    assert_eq!(
        classify_response(401, None, body),
        Err(GrooveError::AuthError("Invalid or expired token".to_string()))
    );
}

#[test]
fn top_level_errors_are_joined_in_order() {
    let body = GraphQLResponse { data: Some(1u32), errors: Some(errs(&["first", "second", "third"])) };
    assert_eq!(
        classify_response(200, None, body),
        Err(GrooveError::GraphQL("first; second; third".to_string()))
    );
    let body: GraphQLResponse<u32> = GraphQLResponse { data: None, errors: Some(errs(&["Conversation not found"])) };
    assert_eq!(
        classify_response(200, None, body),
        Err(GrooveError::GraphQL("Conversation not found".to_string()))
    );
}

#[test]
fn missing_data_is_an_error() {
    let body: GraphQLResponse<u32> = GraphQLResponse { data: None, errors: None };
    assert_eq!(
        classify_response(200, None, body),
        Err(GrooveError::GraphQL("No data in response".to_string()))
    );
}

#[test]
fn retry_after_parsing() {
    assert_eq!(retry_after(Some("120")), Some(120));
    assert_eq!(retry_after(Some("+5")), Some(5));
    assert_eq!(retry_after(Some("-5")), None);
    assert_eq!(retry_after(Some("")), None);
    assert_eq!(retry_after(Some("18446744073709551615")), Some(u64::MAX));
    assert_eq!(retry_after(Some("18446744073709551616")), None);
    assert_eq!(retry_after(None), None);
}

#[test]
fn mutation_errors() {
    assert_eq!(MutationResult { errors: Vec::new() }.into_result(), Ok(()));
    assert_eq!(
        MutationResult { errors: errs(&["Conversation is already closed"]) }.into_result(),
        Err(GrooveError::GraphQL("Conversation is already closed".to_string()))
    );
    assert_eq!(
        mutations_result(vec![
            MutationResult { errors: Vec::new() },
            MutationResult { errors: errs(&["a", "b"]) },
            MutationResult { errors: errs(&["c"]) },
        ]),
        Err(GrooveError::GraphQL("a; b".to_string()))
    );
    assert_eq!(join_messages(&errs(&[])), "");
}

#[test]
fn conversation_query_defaults_and_filter() {
    let q = conversations_query(None, None, None, None, None);
    assert_eq!(q.first, 25);
    assert!(q.filter.is_none());
    let q = conversations_query(Some(10), Some("cur".to_string()), Some("open"), None, Some("reset"));
    assert_eq!(q.first, 10);
    assert_eq!(q.after, Some("cur".to_string()));
    let f = q.filter.unwrap();
    assert_eq!(f.state, Some("OPEN".to_string()));
    assert_eq!(f.folder_id, None);
    assert_eq!(f.keywords, Some("reset".to_string()));
}

#[test]
fn message_and_lookup_policies() {
    assert_eq!(messages_first(None), 50);
    assert_eq!(messages_first(Some(5)), 5);
    assert!(messages_of(None).is_empty());
    assert_eq!(found_conversation(999, None).unwrap_err(), GrooveError::ConversationNotFound(999));
    assert!(may_be_truncated(100));
    assert!(!may_be_truncated(99));
}

#[test]
fn token_precedence() {
    let mut config = Config::default();
    assert_eq!(resolve_token(None, None, &config), Err(GrooveError::TokenNotFound));
    config.set_token("from-config".to_string());
    assert_eq!(resolve_token(None, None, &config), Ok("from-config".to_string()));
    assert_eq!(resolve_token(None, Some(""), &config), Ok("from-config".to_string()));
    assert_eq!(resolve_token(None, Some("from-env"), &config), Ok("from-env".to_string()));
    assert_eq!(resolve_token(Some("from-flag"), Some("from-env"), &config), Ok("from-flag".to_string()));
}

#[test]
fn config_defaults_and_masking() {
    let mut config = Config::default();
    assert_eq!(conversation_limit(None, &config), 25);
    config.defaults.limit = Some(50);
    assert_eq!(conversation_limit(None, &config), 50);
    assert_eq!(conversation_limit(Some(10), &config), 10);
    config.defaults.folder = Some("inbox".to_string());
    assert_eq!(listing_folder(&None, &config), Some("inbox".to_string()));
    assert_eq!(listing_folder(&Some("other".to_string()), &config), Some("other".to_string()));
    assert_eq!(mask_token("abcdefghijkl"), "abcd...ijkl");
    assert_eq!(mask_token("short"), "********");
    assert_eq!(endpoint_or_default(None), "https://api.groovehq.com/v2/graphql");
    assert_eq!(endpoint_or_default(Some("http://x")), "http://x");
}

#[test]
fn test_auth_error() {
    let body: GraphQLResponse<()> = GraphQLResponse { data: None, errors: None };
    let result = classify_response(401, None, body);
    assert!(result.is_err());
    assert!(matches!(result.unwrap_err(), GrooveError::AuthError(_)));
}

#[test]
fn test_rate_limiting() {
    let body: GraphQLResponse<()> = GraphQLResponse { data: None, errors: None };
    let result = classify_response(429, Some("60"), body);
    assert!(result.is_err());
    assert_eq!(result.unwrap_err(), GrooveError::RateLimited { retry_after: Some(60) });
}

#[test]
fn test_graphql_error() {
    let body: GraphQLResponse<()> =
        GraphQLResponse { data: None, errors: Some(errs(&["Conversation not found"])) };
    let result = classify_response(200, None, body);
    assert!(result.is_err());
    let err = result.unwrap_err();
    assert_eq!(err, GrooveError::GraphQL("Conversation not found".to_string()));
}

#[test]
fn test_mutation_success() {
    let body = GraphQLResponse { data: Some(MutationResult { errors: Vec::new() }), errors: None };
    let close = classify_response(200, None, body).unwrap();
    assert!(close.errors.is_empty());
    assert_eq!(close.into_result(), Ok(()));
}

#[test]
fn test_mutation_with_errors() {
    let body = GraphQLResponse {
        data: Some(MutationResult { errors: errs(&["Conversation is already closed"]) }),
        errors: None,
    };
    let close = classify_response(200, None, body).unwrap();
    assert_eq!(close.errors.len(), 1);
    assert_eq!(close.errors[0].message, "Conversation is already closed");
    assert_eq!(
        close.into_result(),
        Err(GrooveError::GraphQL("Conversation is already closed".to_string()))
    );
}

#[test]
fn failing_mutation_payload_fails_the_call() {
    assert_eq!(
        mutations_result(vec![MutationResult { errors: errs(&["Conversation is already closed"]) }]),
        Err(GrooveError::GraphQL("Conversation is already closed".to_string()))
    );
    assert_eq!(mutations_result(vec![MutationResult { errors: Vec::new() }]), Ok(()));
    assert_eq!(mutations_result(Vec::new()), Ok(()));
}
