use lambda_runtime_core::api_client::{ClientSettings, PooledClient, PooledClientBuilder};
use lambda_runtime_core::concurrency::PollingMode;
use lambda_runtime_core::http_adapter::{runtime_response_result, xray_header_value, Adapter, BodyConversionError, TransformResponse};
use lambda_runtime_core::kafka::{KafkaEventResponse, KafkaItemIdentifier};
use lambda_runtime_core::logging::LoggingLayer;
use lambda_runtime_core::origin::{parse_base_uri, parse_path_and_query, set_origin, set_origin_checked, trim_end_slashes, BaseUri, SetOriginError};
use lambda_runtime_core::otel::{OpenTelemetryFaasTrigger, OpenTelemetryLayer};
use lambda_runtime_core::rate_limiter::{next_call, saturating_sum_secs, Elapsed};
use lambda_runtime_core::runtime::{Config, Runtime};
use lambda_runtime_core::snapstart::LifecycleAction;
use std::sync::Arc;

fn base(s: &str) -> BaseUri {
    parse_base_uri(s).unwrap()
}

fn request_path(s: &str) -> String {
    parse_path_and_query(s).unwrap()
}

#[test]
fn test_set_origin() {
    let base = base("http://localhost:9001");
    let uri = set_origin_checked(&base, &request_path("/2018-06-01/runtime/invocation/next")).unwrap();
    assert_eq!("http://localhost:9001/2018-06-01/runtime/invocation/next", uri.text());
    assert_eq!("http://localhost:9001/2018-06-01/runtime/invocation/next", uri.uri().to_string());
}

#[test]
fn test_set_origin_with_base_path() {
    let b = base("http://localhost:9001/foo");
    let uri = set_origin_checked(&b, &request_path("/2018-06-01/runtime/invocation/next")).unwrap();
    assert_eq!("http://localhost:9001/foo/2018-06-01/runtime/invocation/next", uri.text());
    assert_eq!("http://localhost:9001/foo/2018-06-01/runtime/invocation/next", uri.uri().to_string());

    let b = base("http://localhost:9001/foo/");
    let uri = set_origin_checked(&b, &request_path("/2018-06-01/runtime/invocation/next")).unwrap();
    assert_eq!("http://localhost:9001/foo/2018-06-01/runtime/invocation/next", uri.text());
    assert_eq!("http://localhost:9001/foo/2018-06-01/runtime/invocation/next", uri.uri().to_string());
}

#[test]
fn set_origin_defaults_to_http_and_keeps_query() {
    let b = BaseUri { scheme: None, authority: "127.0.0.1:9001".to_string(), path: "/a//".to_string() };
    let origin = set_origin(&b, "/next?x=1").unwrap();
    assert_eq!(origin.text(), "http://127.0.0.1:9001/a/next?x=1");
    assert_eq!(origin.uri().path_and_query().map(|p| p.as_str()), Some("/a/next?x=1"));
    assert_eq!(origin.into_uri().to_string(), "http://127.0.0.1:9001/a/next?x=1");
}

#[test]
fn set_origin_refuses_invalid_path() {
    let b = base("http://localhost:9001");
    assert_eq!(set_origin_checked(&b, "/bad path"), Err(SetOriginError::InvalidPathAndQuery));
}

#[test]
fn base_uri_needs_authority() {
    assert!(parse_base_uri("/only/a/path").is_none());
    assert!(parse_base_uri("http://[bad").is_none());
    assert_eq!(parse_base_uri("127.0.0.1:9001").unwrap().authority, "127.0.0.1:9001");
    assert_eq!(parse_path_and_query("http://h/p?q=1").as_deref(), Some("/p?q=1"));
    assert_eq!(trim_end_slashes("/foo///"), "/foo");
    assert_eq!(trim_end_slashes("///"), "");
}

#[test]
fn builder_accepts_pool_size() {
    let expected = base("http://localhost:9001");
    let settings = PooledClientBuilder::new(())
        .with_pool_size(4)
        .with_endpoint(base("http://localhost:9001"))
        .build(None);
    assert_eq!(settings.pool_size, Some(4));
    let client = PooledClient::with(settings, "pool-1");
    assert_eq!(client.base(), &expected);
}

#[test]
fn test_reset_pool() {
    let settings = PooledClientBuilder::new(())
        .with_pool_size(4)
        .with_endpoint(base("http://localhost:9001"))
        .build(None);
    let mut client = PooledClient::with(settings, "initial");
    assert_eq!(*client.active(), "initial");
    client.reset_pool("restored");
    assert_eq!(*client.active(), "restored");
    client.reset_pool("second");
    assert_eq!(*client.active(), "restored");
    assert_eq!(client.base(), &base("http://localhost:9001"));
}

#[test]
fn builder_falls_back_to_runtime_api_endpoint() {
    let settings = PooledClientBuilder::new(()).build(Some(base("http://127.0.0.1:9001")));
    assert_eq!(settings.base.authority, "127.0.0.1:9001");
    assert_eq!(settings.pool_size, None);
}

#[test]
fn allows_first_call_and_rejects_calls_inside_interval() {
    let mut next: u64 = u64::MIN;
    let mut calls = 0;
    for _ in 0..2 {
        let time = Elapsed::new(0, 1_000);
        if let Some(n) = next_call(next, time, Elapsed::from_secs(60)) {
            next = n;
            calls += 1;
        }
    }
    assert_eq!(calls, 1);
}

#[test]
fn rate_limiter_runs_again_after_interval() {
    let first = next_call(0, Elapsed::new(5, 600_000_000), Elapsed::new(60, 500_000_000)).unwrap();
    assert_eq!(first, 66);
    assert_eq!(next_call(first, Elapsed::from_secs(65), Elapsed::from_secs(60)), None);
    assert_eq!(next_call(first, Elapsed::from_secs(66), Elapsed::from_secs(60)), Some(126));
    assert_eq!(saturating_sum_secs(Elapsed::from_secs(u64::MAX), Elapsed::from_secs(1)), u64::MAX);
}

#[test]
fn kafka_event_response_sets_failures() {
    let mut response = KafkaEventResponse::default();
    response.set_failures(vec![
        KafkaItemIdentifier { partition: String::from("some.topic-3"), offset: 42 },
        KafkaItemIdentifier { partition: String::from("some.topic-4"), offset: 43 },
    ]);

    assert_eq!(response.batch_item_failures.len(), 2);
    assert_eq!(response.batch_item_failures[0].item_identifier.partition, "some.topic-3");
    assert_eq!(response.batch_item_failures[1].item_identifier.offset, 43);
}

#[test]
fn kafka_add_failure_appends_and_set_replaces() {
    let mut response = KafkaEventResponse::default();
    response.add_failure(KafkaItemIdentifier { partition: String::from("some.topic-3"), offset: 42 });
    response.add_failure(KafkaItemIdentifier { partition: String::from("some.topic-3"), offset: 44 });
    assert_eq!(response.batch_item_failures.len(), 2);
    assert_eq!(response.batch_item_failures[1].item_identifier.offset, 44);
    response.set_failures(vec![KafkaItemIdentifier::default()]);
    assert_eq!(response.batch_item_failures.len(), 1);
    assert_eq!(response.batch_item_failures[0].item_identifier.offset, 0);
}

#[test]
fn should_record_faas_name_from_the_function_configuration() {
    let mut service = OpenTelemetryLayer::new(|| {}).layer(());
    let span = service.begin_invocation("my-function", "request-1", None);
    assert_eq!(span.faas_name, "my-function", "faas.name should match the function's configured name");
    assert_eq!(span.otel_name, "my-function");
    assert_eq!(span.faas_trigger, "datasource");
    assert_eq!(span.invocation_id, "request-1");
    assert!(span.tenant_id.is_none());
}

#[test]
fn only_the_first_invocation_is_a_cold_start() {
    let layer = OpenTelemetryLayer::new(|| {}).with_trigger(OpenTelemetryFaasTrigger::Http);
    assert_eq!(layer.trigger(), OpenTelemetryFaasTrigger::Http);
    let mut service = layer.layer(());
    assert!(service.coldstart());
    let first = service.begin_invocation("f", "1", Some("tenant-a"));
    let second = service.begin_invocation("f", "2", None);
    assert!(first.coldstart);
    assert!(!second.coldstart);
    assert_eq!(first.faas_trigger, "http");
    assert_eq!(first.tenant_id.as_deref(), Some("tenant-a"));
}

#[test]
fn later_invocations_stay_warm() {
    let mut service = OpenTelemetryLayer::new(|| {}).layer(0u8);
    let flags: Vec<bool> = (0..5)
        .map(|i| {
            let span = service.begin_invocation("f", &i.to_string(), None);
            *service.inner_mut() += 1;
            span.coldstart
        })
        .collect();
    assert_eq!(flags, vec![true, false, false, false, false]);
}

#[test]
fn trigger_names() {
    assert_eq!(OpenTelemetryFaasTrigger::default().to_string(), "datasource");
    assert_eq!(OpenTelemetryFaasTrigger::PubSub.to_string(), "pubsub");
    assert_eq!(OpenTelemetryFaasTrigger::Timer.as_str(), "timer");
    assert_eq!(OpenTelemetryFaasTrigger::Other.as_str(), "other");
}

#[test]
fn xray_header_only_for_valid_trace_ids() {
    assert_eq!(xray_header_value(Some("Root=1-5759e988-bd862e3fe1be46a994272793")).as_deref(),
        Some("Root=1-5759e988-bd862e3fe1be46a994272793"));
    assert_eq!(xray_header_value(Some("bad\nvalue")), None);
    assert_eq!(xray_header_value(Some("tab\tok")).as_deref(), Some("tab\tok"));
    assert_eq!(xray_header_value(None), None);
}

#[test]
fn body_conversion_errors_become_diagnostics() {
    let err = BodyConversionError { error_type: "std::io::error::Error".to_string(),
        error_message: "simulated truncated response body".to_string() };
    let d = runtime_response_result(Some(err), 7).unwrap_err();
    assert_eq!(d.error_type, "std::io::error::Error");
    assert!(d.error_message.contains("simulated truncated response body"));
    assert_eq!(runtime_response_result(None, 7).unwrap(), 7);
}

#[test]
fn transform_response_moves_to_the_response_stage() {
    let t: TransformResponse<&str, u8, u16> = TransformResponse::Request("origin", 1);
    let t = t.into_response_stage(2);
    assert_eq!(*t.origin(), "origin");
    assert!(matches!(t, TransformResponse::Response("origin", 2)));
    let mut a: Adapter<(), u32> = Adapter::from(5);
    *a.service_mut() += 1;
    assert_eq!(*a.service_mut(), 6);
}

fn config() -> Config {
    Config {
        function_name: "test_fn".to_string(),
        memory: 128,
        version: "1".to_string(),
        log_stream: "test_stream".to_string(),
        log_group: "test_log".to_string(),
    }
}

/// A runtime whose "client" is the settings it was built from and whose
/// service pairs the handler with the pool size hint of the client.
fn test_runtime<R>(max_concurrency: Option<&str>) -> Runtime<(u8, Option<usize>), ClientSettings<&'static str>, R> {
    let endpoint = parse_base_uri("http://localhost:9001").unwrap();
    Runtime::new(
        0u8,
        config(),
        "connector",
        endpoint,
        max_concurrency,
        |settings| settings,
        |handler, client: &Arc<ClientSettings<&'static str>>| (handler, client.pool_size),
    )
}

#[test]
fn runtime_registers_resources_in_order() {
    let runtime: Runtime<_, _, &str> = test_runtime(Some("3"));
    assert_eq!(runtime.concurrency_limit(), 3);
    assert_eq!(runtime.polling_mode(), PollingMode::Concurrent);
    let runtime = runtime
        .register_snapstart_resource("credentials")
        .register_snapstart_resource("pool");
    assert_eq!(runtime.snapstart_resources(), &vec!["credentials", "pool"]);
    assert!(runtime.is_snapstart(Some("snap-start")));
    assert!(!runtime.is_snapstart(None));
    assert_eq!(runtime.restore_lifecycle::<String>(Some("snap-start")).1, LifecycleAction::RunBeforeSnapshot(1));
    assert_eq!(runtime.restore_lifecycle::<String>(None).1, LifecycleAction::Complete(Ok(())));
    let layered = runtime.layer(|s: (u8, Option<usize>)| (s, "logging"));
    assert_eq!(layered.config().function_name, "test_fn");
    let (service, _, _, limit, resources) = layered.into_parts();
    assert_eq!(service, ((0, Some(3)), "logging"));
    assert_eq!(limit, 3);
    assert_eq!(resources.len(), 2);
}

#[test]
fn runtime_sizes_the_client_pool_to_the_concurrency_limit() {
    let runtime: Runtime<_, _, ()> = test_runtime(Some("4"));
    let settings = runtime.client();
    assert_eq!(settings.pool_size, Some(4));
    assert_eq!(settings.connector, "connector");
    assert_eq!(settings.base.authority, "localhost:9001");
    let (service, _, _, _, _) = runtime.into_parts();
    assert_eq!(service, (0, Some(4)));
    for raw in [None, Some("0"), Some("abc")] {
        let runtime: Runtime<_, _, ()> = test_runtime(raw);
        assert_eq!(runtime.concurrency_limit(), 1);
        assert_eq!(runtime.client().pool_size, Some(1));
    }
}

#[test]
fn runtime_defaults_to_sequential() {
    let runtime: Runtime<_, _, ()> = test_runtime(None);
    assert_eq!(runtime.concurrency_limit(), 1);
    assert_eq!(runtime.polling_mode(), PollingMode::Sequential);
}

#[test]
fn logging_layer_wraps_the_inner_service() {
    let mut service = LoggingLayer.layer(41);
    *service.inner_mut() += 1;
    assert_eq!(*service.inner_mut(), 42);
}

use lambda_runtime_core::iot::{present_policy_documents, IoTCoreCustomAuthorizerResponse};

fn auth_response(policy_documents: Vec<Option<&'static str>>) -> IoTCoreCustomAuthorizerResponse<&'static str> {
    IoTCoreCustomAuthorizerResponse {
        is_authenticated: true,
        principal_id: Some("principal".to_string()),
        disconnect_after_in_seconds: 3600,
        refresh_after_in_seconds: 300,
        policy_documents,
    }
}

/// A policy document, told apart by its version.
fn policy_document(version: &'static str) -> &'static str {
    version
}

/// The policy documents a response serializes.
fn serialized_policy_documents(policy_documents: Vec<Option<&'static str>>) -> Vec<&'static str> {
    auth_response(policy_documents).serialized_policy_documents().into_iter().copied().collect()
}

#[test]
fn iot_custom_auth_response_serializes_policy_document() {
    let policy = policy_document("2012-10-17");
    assert_eq!(vec![policy], serialized_policy_documents(vec![Some(policy)]));
}

#[test]
fn iot_custom_auth_response_filters_none_policy_documents() {
    let first_policy = policy_document("2012-10-17");
    let second_policy = policy_document("2008-10-17");
    assert_eq!(
        vec![first_policy, second_policy],
        serialized_policy_documents(vec![Some(first_policy), None, Some(second_policy)])
    );
}

#[test]
fn iot_custom_auth_response_serializes_only_none_as_empty_array() {
    assert_eq!(Vec::<&str>::new(), serialized_policy_documents(vec![None]));
}

#[test]
fn iot_custom_auth_response_serializes_empty_policy_documents_as_empty_array() {
    assert_eq!(Vec::<&str>::new(), serialized_policy_documents(vec![]));
}

#[test]
fn present_policy_documents_keep_their_order() {
    assert_eq!(present_policy_documents(&vec![Some(1), None, Some(2)]), vec![&1, &2]);
}
