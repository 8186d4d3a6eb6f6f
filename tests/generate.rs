use metronom::emit::{emit_accessor, emit_initializer, emit_label_set, emit_unit, quoted};
use metronom::schema::{check_descriptor, is_identifier, kind_for_type};
use metronom::{generate, validate, ContainerSchema, MetricDescriptor, MetricKind, SchemaError};

fn strings(items: &[&str]) -> Vec<String> {
    items.iter().map(|s| s.to_string()).collect()
}

fn counter(field: &str, name: &str, help: &str, labels: &[&str]) -> MetricDescriptor {
    MetricDescriptor {
        field_name: field.to_string(),
        field_type: "IntCounterVec".to_string(),
        kind: MetricKind::Counter,
        metric_name: name.to_string(),
        help: help.to_string(),
        label_names: strings(labels),
        buckets: None,
    }
}

fn histogram(
    field: &str,
    name: &str,
    help: &str,
    labels: &[&str],
    buckets: Option<&[&str]>,
) -> MetricDescriptor {
    MetricDescriptor {
        field_name: field.to_string(),
        field_type: "HistogramVec".to_string(),
        kind: MetricKind::Histogram,
        metric_name: name.to_string(),
        help: help.to_string(),
        label_names: strings(labels),
        buckets: buckets.map(strings),
    }
}

fn schema(descriptors: Vec<MetricDescriptor>) -> ContainerSchema {
    ContainerSchema { container_name: "Metrics".to_string(), descriptors }
}

fn scenario_schema() -> ContainerSchema {
    schema(vec![
        counter("requests_total", "requests_total", "Total requests", &["route", "method"]),
        histogram(
            "latency_seconds",
            "latency_seconds",
            "Latency",
            &[],
            Some(&["0.1", "0.5", "1.0", "5.0"]),
        ),
    ])
}

const SCENARIO_TEXT: &str = r#"#[derive(::bon::Builder)]
struct RequestsTotal {
    route: String,
    method: String,
}

impl RequestsTotal {
    fn values(&self) -> Vec<&str> {
        vec![&self.route, &self.method, ]
    }
}

#[derive(::bon::Builder)]
struct LatencySeconds {
}

impl LatencySeconds {
    fn values(&self) -> Vec<&str> {
        vec![]
    }
}

impl Metrics {
    fn new(registry: &Registry) -> Result<Self, prometheus::Error> {
        let requests_total = IntCounterVec::new(
            Opts::new("requests_total", "Total requests"),
            &["route", "method", ],
        ).unwrap();
        let latency_seconds = HistogramVec::new(
            HistogramOpts::new("latency_seconds", "Latency").buckets(vec![0.1, 0.5, 1.0, 5.0, ]),
            &[],
        ).unwrap();

        let metrics = Self {
            requests_total,
            latency_seconds,
        };

        registry.register(Box::new(metrics.requests_total.clone()))?;
        registry.register(Box::new(metrics.latency_seconds.clone()))?;

        Ok(metrics)
    }

    fn requests_total_with(&self, values: RequestsTotal) -> GenericCounter<AtomicU64> {
        self.requests_total.with_label_values(&values.values())
    }
    fn latency_seconds_with(&self, values: LatencySeconds) -> Histogram {
        self.latency_seconds.with_label_values(&values.values())
    }
}
"#;

#[test]
fn scenario_generates_exact_text() {
    let text = generate(&scenario_schema()).unwrap();
    assert_eq!(text, SCENARIO_TEXT);
}

#[test]
fn generated_text_is_rust() {
    let text = generate(&scenario_schema()).unwrap();
    let file = syn::parse_file(&text).unwrap();
    // two label sets, each a struct and an impl, then the container's impl
    assert_eq!(file.items.len(), 5);
}

#[test]
fn label_set_names_are_upper_camel_case() {
    let s = schema(vec![counter("http_errors_total", "errors", "Errors", &["code"])]);
    let text = generate(&s).unwrap();
    assert!(text.contains("struct HttpErrorsTotal {"));
    assert!(text.contains("fn http_errors_total_with(&self, values: HttpErrorsTotal)"));
    assert!(!text.contains("struct http_errors_total"));
}

#[test]
fn values_follow_declared_label_order() {
    let text = emit_label_set("Pair", &strings(&["a", "b"]));
    assert!(text.contains("vec![&self.a, &self.b, ]"));
    let text = emit_label_set("Pair", &strings(&["b", "a"]));
    assert!(text.contains("vec![&self.b, &self.a, ]"));
}

#[test]
fn histogram_without_buckets_is_rejected() {
    let s = schema(vec![
        counter("a", "a", "A", &[]),
        histogram("b", "b", "B", &["x"], None),
    ]);
    assert_eq!(generate(&s), Err(SchemaError::MissingBuckets { descriptor: 1 }));
}

#[test]
fn histogram_with_empty_buckets_is_rejected() {
    let s = schema(vec![histogram("b", "b", "B", &[], Some(&[]))]);
    assert_eq!(validate(&s), Err(SchemaError::MissingBuckets { descriptor: 0 }));
    assert_eq!(generate(&s), Err(SchemaError::MissingBuckets { descriptor: 0 }));
}

#[test]
fn counter_with_buckets_is_rejected() {
    let mut c = counter("a", "a", "A", &[]);
    c.buckets = Some(strings(&["1.0"]));
    assert_eq!(generate(&schema(vec![c])), Err(SchemaError::UnexpectedBuckets { descriptor: 0 }));
}

#[test]
fn invalid_label_is_rejected() {
    let s = schema(vec![
        counter("a", "a", "A", &["ok"]),
        counter("b", "b", "B", &["fine", "not valid"]),
    ]);
    assert_eq!(generate(&s), Err(SchemaError::InvalidLabel { descriptor: 1, label: 1 }));
}

#[test]
fn duplicate_label_is_rejected() {
    let s = schema(vec![counter("a", "a", "A", &["x", "y", "x"])]);
    assert_eq!(generate(&s), Err(SchemaError::DuplicateLabel { descriptor: 0, label: 2 }));
}

#[test]
fn first_fault_is_reported() {
    let d = histogram("h", "h", "H", &["1bad"], None);
    assert_eq!(check_descriptor(&d, 3), Some(SchemaError::MissingBuckets { descriptor: 3 }));
    let d = histogram("h", "h", "H", &["1bad"], Some(&["1.0"]));
    assert_eq!(check_descriptor(&d, 3), Some(SchemaError::InvalidLabel { descriptor: 3, label: 0 }));
}

#[test]
fn valid_schema_is_accepted() {
    assert_eq!(validate(&scenario_schema()), Ok(()));
    assert_eq!(validate(&schema(vec![])), Ok(()));
}

#[test]
fn identifiers() {
    assert!(is_identifier("route"));
    assert!(is_identifier("_x1"));
    assert!(is_identifier("A_b9"));
    assert!(!is_identifier(""));
    assert!(!is_identifier("_"));
    assert!(!is_identifier("9a"));
    assert!(!is_identifier("a-b"));
    assert!(!is_identifier("é"));
}

#[test]
fn kinds_by_type_name() {
    assert_eq!(kind_for_type("IntCounterVec"), MetricKind::Counter);
    assert_eq!(kind_for_type("HistogramVec"), MetricKind::Histogram);
    assert_eq!(kind_for_type("prometheus"), MetricKind::Histogram);
}

#[test]
fn string_literals_are_escaped() {
    assert_eq!(quoted("plain"), "\"plain\"");
    assert_eq!(quoted("say \"hi\""), "\"say \\\"hi\\\"\"");
    assert_eq!(quoted("a\\b"), "\"a\\\\b\"");
    assert_eq!(quoted("a\rb"), "\"a\\rb\"");
    assert_eq!(quoted(""), "\"\"");
}

#[test]
fn help_text_with_quotes_stays_one_literal() {
    let s = schema(vec![counter("c", "c_total", "the \"c\" count", &[])]);
    let text = generate(&s).unwrap();
    assert!(text.contains("Opts::new(\"c_total\", \"the \\\"c\\\" count\")"));
    assert!(syn::parse_file(&text).is_ok());
}

#[test]
fn initializer_by_kind() {
    let c = counter("c", "c_total", "C", &["l"]);
    assert_eq!(
        emit_initializer(&c),
        "        let c = IntCounterVec::new(\n            Opts::new(\"c_total\", \"C\"),\n            &[\"l\", ],\n        ).unwrap();\n"
    );
    let h = histogram("h", "h_s", "H", &[], Some(&["0.5", "2"]));
    assert_eq!(
        emit_initializer(&h),
        "        let h = HistogramVec::new(\n            HistogramOpts::new(\"h_s\", \"H\").buckets(vec![0.5, 2, ]),\n            &[],\n        ).unwrap();\n"
    );
}

#[test]
fn accessor_by_kind() {
    assert_eq!(
        emit_accessor("hits", "Hits", MetricKind::Counter),
        "    fn hits_with(&self, values: Hits) -> GenericCounter<AtomicU64> {\n        self.hits.with_label_values(&values.values())\n    }\n"
    );
    assert!(emit_accessor("lat", "Lat", MetricKind::Histogram).contains(") -> Histogram {"));
}

#[test]
fn every_descriptor_is_registered_once_in_order() {
    let s = schema(vec![
        counter("a", "a", "A", &[]),
        counter("b", "b", "B", &[]),
        histogram("c", "c", "C", &[], Some(&["1"])),
    ]);
    let text = generate(&s).unwrap();
    assert_eq!(text.matches("registry.register(").count(), 3);
    let pa = text.find("metrics.a.clone()").unwrap();
    let pb = text.find("metrics.b.clone()").unwrap();
    let pc = text.find("metrics.c.clone()").unwrap();
    assert!(pa < pb && pb < pc);
}

#[test]
fn duplicate_metric_names_are_left_to_registration() {
    let s = schema(vec![counter("a", "same", "A", &[]), counter("b", "same", "B", &[])]);
    let text = generate(&s).unwrap();
    assert!(text.contains("registry.register(Box::new(metrics.a.clone()))?;"));
    assert!(text.contains("registry.register(Box::new(metrics.b.clone()))?;"));
}

#[test]
fn each_accessor_reads_its_own_instrument() {
    let s = schema(vec![counter("updates", "u", "U", &[]), counter("errors", "e", "E", &[])]);
    let text = generate(&s).unwrap();
    assert!(text.contains("fn errors_with(&self, values: Errors) -> GenericCounter<AtomicU64> {\n        self.errors.with_label_values"));
    assert!(text.contains("fn updates_with(&self, values: Updates) -> GenericCounter<AtomicU64> {\n        self.updates.with_label_values"));
}

#[test]
fn unit_with_given_names() {
    let s = schema(vec![counter("a", "a", "A", &[])]);
    let text = emit_unit(&s, &strings(&["Named"]));
    assert!(text.starts_with("#[derive(::bon::Builder)]\nstruct Named {\n}"));
    assert!(text.contains("fn a_with(&self, values: Named)"));
}

#[test]
fn empty_schema_generates_bare_constructor() {
    let text = generate(&schema(vec![])).unwrap();
    assert_eq!(
        text,
        "impl Metrics {\n    fn new(registry: &Registry) -> Result<Self, prometheus::Error> {\n\n        let metrics = Self {\n        };\n\n\n        Ok(metrics)\n    }\n\n}\n"
    );
}
