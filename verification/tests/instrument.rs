use metrics_attributes::config::InstrumentArgs;
use metrics_attributes::transform::instrument_inner;
use metrics_attributes::transform::render_declaration;
use metrics_attributes::transform::FunctionDescriptor;

fn descriptor(visibility: &str, signature: &str, is_suspending: bool, body: &str) -> FunctionDescriptor {
    FunctionDescriptor {
        visibility: visibility.to_string(),
        signature: signature.to_string(),
        is_suspending,
        body: body.to_string(),
    }
}

#[test]
fn simple_fn() {
    let item = descriptor("pub", "fn add(a: i32, b: i32) -> i32", false, "a + b");
    let path = vec!["add".to_string()];
    let actual = instrument_inner(&InstrumentArgs::default(), item, &path);
    assert_eq!(actual.visibility, "pub");
    assert_eq!(actual.signature, "fn add(a: i32, b: i32) -> i32");
    assert!(!actual.is_suspending);
    let expected = "let __metrics_attributes_start = ::std::time::Instant::now(); \
        let ret = { a + b }; \
        { use ::metrics_attributes::labels::{GetLabels, GetLabelsFromResult}; \
        let labels = (&ret).__metrics_attributes_get_labels(); \
        let duration = __metrics_attributes_start.elapsed().as_secs_f64(); \
        ::metrics::histogram!(\"add_duration_seconds\", duration, labels); \
        ::metrics::increment_counter!(\"add_total\", labels); } ret";
    assert_eq!(actual.body, expected);
}

#[test]
fn async_fn() {
    let item = descriptor("", "async fn add(a: i32, b: i32) -> i32", true, "a + b");
    let path = vec!["add".to_string()];
    let actual = instrument_inner(&InstrumentArgs::default(), item, &path);
    assert_eq!(actual.visibility, "");
    assert_eq!(actual.signature, "async fn add(a: i32, b: i32) -> i32");
    assert!(actual.is_suspending);
    let expected = "let __metrics_attributes_start = ::std::time::Instant::now(); \
        let ret = (async move { a + b }).await; \
        { use ::metrics_attributes::labels::{GetLabels, GetLabelsFromResult}; \
        let labels = (&ret).__metrics_attributes_get_labels(); \
        let duration = __metrics_attributes_start.elapsed().as_secs_f64(); \
        ::metrics::histogram!(\"add_duration_seconds\", duration, labels); \
        ::metrics::increment_counter!(\"add_total\", labels); } ret";
    assert_eq!(actual.body, expected);
}

#[test]
fn return_result() {
    let item = descriptor(
        "",
        "fn check_positive(num: i32) -> Result<(), ()>",
        false,
        "if num >= 0 { Ok(()) } else { Err(()) }",
    );
    let path = vec!["check_positive".to_string()];
    let actual = instrument_inner(&InstrumentArgs::default(), item, &path);
    assert_eq!(actual.signature, "fn check_positive(num: i32) -> Result<(), ()>");
    let expected = "let __metrics_attributes_start = ::std::time::Instant::now(); \
        let ret = { if num >= 0 { Ok(()) } else { Err(()) } }; \
        { use ::metrics_attributes::labels::{GetLabels, GetLabelsFromResult}; \
        let labels = (&ret).__metrics_attributes_get_labels(); \
        let duration = __metrics_attributes_start.elapsed().as_secs_f64(); \
        ::metrics::histogram!(\"check_positive_duration_seconds\", duration, labels); \
        ::metrics::increment_counter!(\"check_positive_total\", labels); } ret";
    assert_eq!(actual.body, expected);
}

#[test]
fn signature_kept_with_explicit_name() {
    let item = descriptor("pub(crate)", "fn fetch(url: &str) -> u16", false, "200");
    let args = InstrumentArgs {
        name: Some("req_latency".to_string()),
    };
    let path = vec!["web".to_string(), "fetch".to_string()];
    let actual = instrument_inner(&args, item, &path);
    assert_eq!(actual.visibility, "pub(crate)");
    assert_eq!(actual.signature, "fn fetch(url: &str) -> u16");
    assert!(actual.body.contains("req_latency_duration_seconds"));
    assert!(actual.body.contains("req_latency_total"));
}

#[test]
fn render_with_visibility() {
    let item = descriptor("pub", "fn id(x: u8) -> u8", false, "x");
    let rendered = render_declaration(&item);
    assert_eq!(rendered, "pub fn id(x: u8) -> u8 { x }");
}

#[test]
fn render_without_visibility() {
    let item = descriptor("", "fn id(x: u8) -> u8", false, "x");
    let rendered = render_declaration(&item);
    assert_eq!(rendered, "fn id(x: u8) -> u8 { x }");
}
