use pact_extensions::telemetry::{
    capture_telemetry, init_tracer, invocation_attributes, Attribute, AttributeValue,
    ExporterPlan, OtelConfig,
};

fn config(exporter: Option<&str>, endpoint: Option<&str>, protocol: Option<&str>) -> OtelConfig {
    OtelConfig {
        exporter: exporter.map(|s| s.to_string()),
        endpoint: endpoint.map(|s| s.to_string()),
        protocol: protocol.map(|s| s.to_string()),
    }
}

fn strings(items: &[&str]) -> Vec<String> {
    items.iter().map(|s| s.to_string()).collect()
}

fn text_of(attribute: &Attribute) -> (&str, &str) {
    match &attribute.value {
        AttributeValue::Text(text) => (attribute.key.as_str(), text.as_str()),
        AttributeValue::Number(_) => panic!("expected a text"),
    }
}

#[test]
fn traces_go_to_stdout_unless_otlp_is_asked_for() {
    assert!(matches!(init_tracer(config(None, None, None)), ExporterPlan::Stdout));
    assert!(matches!(init_tracer(config(Some("stdout"), Some("http://c:1"), Some("grpc"))), ExporterPlan::Stdout));
    assert!(matches!(init_tracer(config(Some("OTLP"), None, None)), ExporterPlan::Stdout));
}

#[test]
fn otlp_over_http_appends_the_path_for_traces() {
    match init_tracer(config(Some("otlp"), None, None)) {
        ExporterPlan::Http { endpoint } => assert_eq!(endpoint, "http://localhost:4318/v1/traces"),
        _ => panic!("expected the collector over http"),
    }
    match init_tracer(config(Some("otlp"), Some("http://collector:4318"), Some("http/protobuf"))) {
        ExporterPlan::Http { endpoint } => assert_eq!(endpoint, "http://collector:4318/v1/traces"),
        _ => panic!("expected the collector over http"),
    }
}

#[test]
fn otlp_over_grpc_keeps_the_endpoint() {
    match init_tracer(config(Some("otlp"), Some("http://collector:4317"), Some("grpc"))) {
        ExporterPlan::Grpc { endpoint } => assert_eq!(endpoint, "http://collector:4317"),
        _ => panic!("expected the collector over grpc"),
    }
    match init_tracer(config(Some("otlp"), None, Some("grpc"))) {
        ExporterPlan::Grpc { endpoint } => assert_eq!(endpoint, "http://localhost:4318"),
        _ => panic!("expected the collector over grpc"),
    }
}

#[test]
fn telemetry_of_a_long_invocation() {
    let args = strings(&["pact", "extension", "install", "pactflow-ai", "--version", "a \"b\""]);
    let attributes = capture_telemetry(&args, 3, Some("boom"));
    assert_eq!(attributes.len(), 6);
    assert_eq!(text_of(&attributes[0]), ("binary", "pact"));
    assert_eq!(text_of(&attributes[1]), ("command", "extension"));
    assert_eq!(text_of(&attributes[2]), ("subcommand", "install"));
    assert_eq!(text_of(&attributes[3]), ("args", "[\"pactflow-ai\", \"--version\", \"a \\\"b\\\"\"]"));
    assert_eq!(attributes[4].key, "exit_code");
    assert!(matches!(attributes[4].value, AttributeValue::Number(3)));
    assert_eq!(text_of(&attributes[5]), ("error_message", "boom"));
}

#[test]
fn telemetry_of_a_short_invocation() {
    let attributes = capture_telemetry(&strings(&["pact", "mock"]), 0, None);
    assert_eq!(attributes.len(), 3);
    assert_eq!(text_of(&attributes[0]), ("binary", "pact"));
    assert_eq!(text_of(&attributes[1]), ("command", "mock"));
    assert_eq!(attributes[2].key, "exit_code");
    assert!(matches!(attributes[2].value, AttributeValue::Number(0)));
    let attributes = capture_telemetry(&[], -1, None);
    assert_eq!(attributes.len(), 1);
    assert!(matches!(attributes[0].value, AttributeValue::Number(-1)));
    let attributes = capture_telemetry(&strings(&["a", "b", "c"]), 0, None);
    assert_eq!(attributes.len(), 4);
    assert_eq!(text_of(&attributes[2]), ("subcommand", "c"));
}

#[test]
fn invocation_attributes_take_the_formatted_rest() {
    let args = strings(&["a", "b", "c", "d"]);
    let attributes = invocation_attributes(&args, 0, None, "REST".to_string());
    assert_eq!(text_of(&attributes[3]), ("args", "REST"));
    let attributes = invocation_attributes(&args[..3], 0, None, "REST".to_string());
    assert_eq!(attributes.len(), 4);
    assert_eq!(attributes[3].key, "exit_code");
}
