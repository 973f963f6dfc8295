use opentelemetry::metrics::Unit;
use opentelemetry::sdk::export::metrics::aggregation::AggregationKind;
use opentelemetry::sdk::metrics::sdk_api::{Descriptor, InstrumentKind, NumberKind};
use opentelemetry::Key;
use std::collections::HashMap;
use therock_metrics::config::{ExportKind, ServiceConfig};
use therock_metrics::exporter::{plan_from_pairs, plan_metric_otlp, Protocol};
use therock_metrics::meter::{get_meter, MeterSlot};
use therock_metrics::resource::get_resources;
use therock_metrics::temporality::Temporality;

fn descriptor(kind: InstrumentKind) -> Descriptor {
    Descriptor::new(
        "u64.counter.sum".to_string(),
        kind,
        NumberKind::U64,
        Some("Request hit counter".to_string()),
        Some(Unit::new("r")),
    )
}

#[test]
fn temporality_of_each_export_kind() {
    let aggregations =
        [AggregationKind::SUM, AggregationKind::LAST_VALUE, AggregationKind::HISTOGRAM];
    let instruments = [
        InstrumentKind::Histogram,
        InstrumentKind::GaugeObserver,
        InstrumentKind::Counter,
        InstrumentKind::UpDownCounter,
        InstrumentKind::CounterObserver,
        InstrumentKind::UpDownCounterObserver,
    ];
    for instrument in instruments {
        let descriptor = descriptor(instrument);
        for kind in &aggregations {
            assert_eq!(
                ExportKind::Cumulative.temporality_for(&descriptor, kind),
                Temporality::Cumulative
            );
            assert_eq!(ExportKind::Delta.temporality_for(&descriptor, kind), Temporality::Delta);
            assert_eq!(
                ExportKind::Stateless.temporality_for(&descriptor, kind),
                Temporality::Cumulative
            );
        }
    }
}

#[test]
fn resource_names_the_service() {
    let resource = get_resources();
    assert_eq!(resource.len(), 4);
    assert_eq!(resource.get(Key::new("service.name")), Some("test-otlp".into()));
    assert_eq!(resource.get(Key::new("service.namespace")), Some("test".into()));
    assert_eq!(resource.get(Key::new("service.instance.id")), Some("development".into()));
    assert_eq!(resource.get(Key::new("service.version")), Some("0.1.0".into()));
    assert_eq!(resource.schema_url(), None);
}

#[test]
fn plan_holds_what_it_was_given() {
    let mut attributes = HashMap::new();
    attributes.insert("X-Tenant".to_string(), "rock".to_string());
    let service = ServiceConfig { export_kind: ExportKind::Delta, ..ServiceConfig::default() };
    let plan = plan_metric_otlp("http://collector:4317/", Some(&attributes), &service).unwrap();
    assert_eq!(plan.endpoint, "http://collector:4317/");
    assert_eq!(plan.protocol, Protocol::Grpc);
    assert_eq!(plan.export_kind, ExportKind::Delta);
    assert_eq!(plan.metadata.len(), 1);
    assert_eq!(plan.metadata.get("x-tenant").unwrap(), "rock");
    assert_eq!(plan.resource, get_resources());
}

#[test]
fn plan_without_attributes_has_no_metadata() {
    let plan = plan_metric_otlp("http://127.0.0.1:4317/", None, &ServiceConfig::default()).unwrap();
    assert!(plan.metadata.is_empty());
    assert_eq!(plan.export_kind, ExportKind::Stateless);
}

#[test]
fn meter_makes_instruments() {
    let mut slot = MeterSlot::new();
    let counter = get_meter(&mut slot).u64_counter("u64.counter.sum").init();
    counter.add(&opentelemetry::Context::current(), 1, &[]);
}

#[test]
fn exports_hold_totals_unless_asked() {
    let kind = ExportKind::from_env(None).unwrap_or_default();
    let descriptor = descriptor(InstrumentKind::CounterObserver);
    assert_eq!(
        kind.temporality_for(&descriptor, &AggregationKind::SUM),
        Temporality::Cumulative
    );
}

#[test]
fn limits_do_not_change_the_plan() {
    let mut attributes = HashMap::new();
    attributes.insert("X-Tenant".to_string(), "rock".to_string());
    let plain = ServiceConfig { export_kind: ExportKind::Delta, ..ServiceConfig::default() };
    let limited = ServiceConfig {
        max_event_per_span: Some(1),
        max_attributes_per_span: Some(2),
        max_links_per_span: Some(3),
        max_attributes_per_event: Some(4),
        max_attributes_per_link: Some(5),
        export_kind: ExportKind::Delta,
    };
    let first = plan_metric_otlp("http://collector:4317/", Some(&attributes), &plain).unwrap();
    let second = plan_metric_otlp("http://collector:4317/", Some(&attributes), &limited).unwrap();
    assert_eq!(first.endpoint, second.endpoint);
    assert_eq!(first.protocol, second.protocol);
    assert_eq!(first.export_kind, second.export_kind);
    assert_eq!(first.metadata.into_headers(), second.metadata.into_headers());
    assert_eq!(first.resource, second.resource);
}

struct Renaming;

impl opentelemetry::metrics::MeterProvider for Renaming {
    fn versioned_meter(
        &self,
        _name: &'static str,
        version: Option<&'static str>,
        schema_url: Option<&'static str>,
    ) -> opentelemetry::metrics::Meter {
        opentelemetry::metrics::MeterProvider::versioned_meter(
            &opentelemetry::metrics::noop::NoopMeterProvider::new(),
            "renamed",
            version,
            schema_url,
        )
    }
}

#[test]
fn kept_meter_survives_a_change_of_provider() {
    let mut slot = MeterSlot::new();
    let first = format!("{:?}", get_meter(&mut slot));
    assert!(first.contains("therock.metrics"));
    opentelemetry::global::set_meter_provider(Renaming);
    assert_eq!(format!("{:?}", get_meter(&mut slot)), first);
    let mut fresh = MeterSlot::new();
    assert!(format!("{:?}", get_meter(&mut fresh)).contains("renamed"));
}

#[test]
fn plan_needs_attributes_that_fit() {
    let mut attributes = HashMap::new();
    for i in 0..24577 {
        attributes.insert(format!("key-{i}"), "v".to_string());
    }
    let service = ServiceConfig::default();
    assert!(plan_metric_otlp("http://collector:4317/", Some(&attributes), &service).is_none());
    attributes.retain(|key, _| key.len() < 8);
    assert_eq!(attributes.len(), 1000);
    let plan = plan_metric_otlp("http://collector:4317/", Some(&attributes), &service).unwrap();
    assert_eq!(plan.metadata.len(), 1000);
}

#[test]
fn plan_follows_the_order_of_the_pairs() {
    let keys = [String::from("Host"), String::from("host")];
    let values = [String::from("1"), String::from("2")];
    let service = ServiceConfig::default();
    let forth = vec![(&keys[0], &values[0]), (&keys[1], &values[1])];
    let back = vec![(&keys[1], &values[1]), (&keys[0], &values[0])];
    let first = plan_from_pairs("http://collector:4317/", &forth, &service).unwrap();
    let second = plan_from_pairs("http://collector:4317/", &back, &service).unwrap();
    assert_eq!(first.metadata.get("host").unwrap(), "1");
    assert_eq!(second.metadata.get("host").unwrap(), "2");
}
