//! Telemetry: which exporter the configuration asks for, and what is
//! recorded about an invocation of the program.

use crate::effect::strings_view;
use crate::text::{join2, str_eq};
use vstd::prelude::*;
use vstd::string::*;

verus! {

/// How traces are to be exported, as given on the command line.
pub struct OtelConfig {
    pub exporter: Option<String>,
    pub endpoint: Option<String>,
    pub protocol: Option<String>,
}

/// Where traces go.
pub enum ExporterPlan {
    /// To the standard output.
    Stdout,
    /// To a collector, over gRPC.
    Grpc { endpoint: String },
    /// To a collector, over HTTP.
    Http { endpoint: String },
}

/// The mathematical value of an [`ExporterPlan`].
pub enum ExporterPlanView {
    Stdout,
    Grpc { endpoint: Seq<char> },
    Http { endpoint: Seq<char> },
}

impl View for ExporterPlan {
    type V = ExporterPlanView;

    open spec fn view(&self) -> ExporterPlanView {
        match self {
            ExporterPlan::Stdout => ExporterPlanView::Stdout,
            ExporterPlan::Grpc { endpoint } => ExporterPlanView::Grpc { endpoint: endpoint@ },
            ExporterPlan::Http { endpoint } => ExporterPlanView::Http { endpoint: endpoint@ },
        }
    }
}

/// The character sequence of an optional string.
pub open spec fn text_of(text: Option<String>) -> Option<Seq<char>> {
    match text {
        Some(t) => Some(t@),
        None => None,
    }
}

/// The endpoint of the collector: the one given, or the local collector.
pub open spec fn collector_endpoint(endpoint: Option<Seq<char>>) -> Seq<char> {
    match endpoint {
        Some(e) => e,
        None => "http://localhost:4318"@,
    }
}

/// Where traces go. Only the exporter `otlp` sends them to a collector: over
/// gRPC where the protocol is `grpc`, else over HTTP, to the path for traces
/// below the endpoint.
pub open spec fn exporter_plan(
    exporter: Option<Seq<char>>,
    endpoint: Option<Seq<char>>,
    protocol: Option<Seq<char>>,
) -> ExporterPlanView {
    if exporter == Some("otlp"@) {
        if protocol == Some("grpc"@) {
            ExporterPlanView::Grpc { endpoint: collector_endpoint(endpoint) }
        } else {
            ExporterPlanView::Http { endpoint: collector_endpoint(endpoint) + "/v1/traces"@ }
        }
    } else {
        ExporterPlanView::Stdout
    }
}

/// Where traces go.
pub fn init_tracer(otel_config: OtelConfig) -> (r: ExporterPlan)
    ensures
        r@ == exporter_plan(
            text_of(otel_config.exporter),
            text_of(otel_config.endpoint),
            text_of(otel_config.protocol),
        ),
{
    let otlp = match &otel_config.exporter {
        Some(exporter) => str_eq(exporter.as_str(), "otlp"),
        None => false,
    };
    if !otlp {
        return ExporterPlan::Stdout;
    }
    let grpc = match &otel_config.protocol {
        Some(protocol) => str_eq(protocol.as_str(), "grpc"),
        None => false,
    };
    let endpoint = match otel_config.endpoint {
        Some(endpoint) => endpoint,
        None => "http://localhost:4318".to_owned(),
    };
    if grpc {
        ExporterPlan::Grpc { endpoint }
    } else {
        ExporterPlan::Http { endpoint: join2(endpoint.as_str(), "/v1/traces") }
    }
}

/// The value of an attribute of a span.
pub enum AttributeValue {
    Text(String),
    Number(i64),
}

/// An attribute of a span.
pub struct Attribute {
    pub key: String,
    pub value: AttributeValue,
}

/// The mathematical value of an [`AttributeValue`].
pub enum AttributeValueView {
    Text(Seq<char>),
    Number(i64),
}

/// The mathematical value of an [`Attribute`].
pub struct AttributeView {
    pub key: Seq<char>,
    pub value: AttributeValueView,
}

impl View for Attribute {
    type V = AttributeView;

    open spec fn view(&self) -> AttributeView {
        AttributeView {
            key: self.key@,
            value: match self.value {
                AttributeValue::Text(text) => AttributeValueView::Text(text@),
                AttributeValue::Number(number) => AttributeValueView::Number(number),
            },
        }
    }
}

/// The values of a sequence of attributes.
pub open spec fn attributes_view(v: Seq<Attribute>) -> Seq<AttributeView> {
    Seq::new(v.len(), |i: int| v[i]@)
}

/// How the standard library formats a list of strings for debugging.
pub uninterp spec fn debug_text(items: Seq<Seq<char>>) -> Seq<char>;

/// Formats the strings with `format!` and `{:?}`, the debug format of a
/// slice of strings. The contract only names the outcome: it is a function
/// of the strings.
#[verifier::external_body]
fn debug_list(items: &[String]) -> (r: String)
    ensures
        r@ == debug_text(strings_view(items@)),
{
    format!("{:?}", items)
}

/// An attribute with a text for its value.
pub open spec fn text_attribute(key: Seq<char>, text: Seq<char>) -> AttributeView {
    AttributeView { key, value: AttributeValueView::Text(text) }
}

/// The attributes of the first `n` positions of the argument vector: the
/// binary, the command and the subcommand, as far as they are there.
pub open spec fn leading_attributes(args: Seq<Seq<char>>, n: int) -> Seq<AttributeView>
    decreases n,
{
    if n <= 0 {
        Seq::empty()
    } else if n > args.len() {
        leading_attributes(args, n - 1)
    } else {
        leading_attributes(args, n - 1).push(
            text_attribute(
                if n == 1 {
                    "binary"@
                } else if n == 2 {
                    "command"@
                } else {
                    "subcommand"@
                },
                args[n - 1],
            ),
        )
    }
}

/// What is recorded about an invocation: the binary, the command and the
/// subcommand as far as the argument vector has them, the further arguments
/// in debug format if there are any, the exit code, and the error message
/// if there is one.
pub open spec fn telemetry_attributes(
    args: Seq<Seq<char>>,
    exit_code: i32,
    error_message: Option<Seq<char>>,
    rest: Seq<char>,
) -> Seq<AttributeView> {
    let leading = leading_attributes(args, 3);
    let with_args = if args.len() > 3 {
        leading.push(text_attribute("args"@, rest))
    } else {
        leading
    };
    let with_code = with_args.push(
        AttributeView { key: "exit_code"@, value: AttributeValueView::Number(exit_code as i64) },
    );
    match error_message {
        Some(message) => with_code.push(text_attribute("error_message"@, message)),
        None => with_code,
    }
}

/// An attribute with a text for its value.
fn text(key: &str, value: String) -> (r: Attribute)
    ensures
        r@ == text_attribute(key@, value@),
{
    Attribute { key: key.to_owned(), value: AttributeValue::Text(value) }
}

/// What is recorded about an invocation, given the further arguments in
/// debug format.
pub fn invocation_attributes(
    args: &[String],
    exit_code: i32,
    error_message: Option<&str>,
    rest: String,
) -> (r: Vec<Attribute>)
    ensures
        attributes_view(r@) == telemetry_attributes(
            strings_view(args@),
            exit_code,
            crate::install::optional_text(error_message),
            rest@,
        ),
{
    let ghost all = strings_view(args@);
    let mut attributes: Vec<Attribute> = Vec::new();
    assert(attributes_view(attributes@) =~= leading_attributes(all, 0));
    if args.len() > 0 {
        let ghost before = attributes_view(attributes@);
        attributes.push(text("binary", args[0].clone()));
        assert(attributes_view(attributes@) =~= before.push(text_attribute("binary"@, all[0])));
    }
    assert(attributes_view(attributes@) == leading_attributes(all, 1));
    if args.len() > 1 {
        let ghost before = attributes_view(attributes@);
        attributes.push(text("command", args[1].clone()));
        assert(attributes_view(attributes@) =~= before.push(text_attribute("command"@, all[1])));
    }
    assert(attributes_view(attributes@) == leading_attributes(all, 2));
    if args.len() > 2 {
        let ghost before = attributes_view(attributes@);
        attributes.push(text("subcommand", args[2].clone()));
        assert(attributes_view(attributes@) =~= before.push(text_attribute("subcommand"@, all[2])));
    }
    assert(attributes_view(attributes@) == leading_attributes(all, 3));
    if args.len() > 3 {
        let ghost before = attributes_view(attributes@);
        attributes.push(text("args", rest));
        assert(attributes_view(attributes@) =~= before.push(text_attribute("args"@, rest@)));
    }
    let ghost before = attributes_view(attributes@);
    attributes.push(
        Attribute { key: "exit_code".to_owned(), value: AttributeValue::Number(exit_code as i64) },
    );
    assert(attributes_view(attributes@) =~= before.push(
        AttributeView { key: "exit_code"@, value: AttributeValueView::Number(exit_code as i64) },
    ));
    match error_message {
        Some(message) => {
            let ghost before = attributes_view(attributes@);
            attributes.push(text("error_message", message.to_owned()));
            assert(attributes_view(attributes@) =~= before.push(
                text_attribute("error_message"@, message@),
            ));
        },
        None => {},
    }
    attributes
}

/// What is recorded about an invocation of the program with the argument
/// vector `args` that ended with `exit_code`.
pub fn capture_telemetry(args: &[String], exit_code: i32, error_message: Option<&str>) -> (r: Vec<
    Attribute,
>)
    ensures
        attributes_view(r@) == telemetry_attributes(
            strings_view(args@),
            exit_code,
            crate::install::optional_text(error_message),
            debug_text(strings_view(args@).subrange(3, args@.len() as int)),
        ),
{
    let rest = if args.len() > 3 {
        let further = crate::command::items_from(args, 3);
        debug_list(further.as_slice())
    } else {
        String::new()
    };
    invocation_attributes(args, exit_code, error_message, rest)
}

} // verus!
