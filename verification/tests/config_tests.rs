use therock_metrics::config::{ExportKind, OtlpConfig, ServiceConfig};

#[test]
fn export_kind_of_each_value() {
    assert_eq!(ExportKind::from_env(Some("CUMULATIVE")), Some(ExportKind::Cumulative));
    assert_eq!(ExportKind::from_env(Some("DELTA")), Some(ExportKind::Delta));
    assert_eq!(ExportKind::from_env(Some("STATELESS")), Some(ExportKind::Stateless));
}

#[test]
fn export_kind_of_other_values() {
    assert_eq!(ExportKind::from_env(None), None);
    assert_eq!(ExportKind::from_env(Some("")), None);
    assert_eq!(ExportKind::from_env(Some("delta")), None);
    assert_eq!(ExportKind::from_env(Some("DELTA ")), None);
    assert_eq!(ExportKind::from_env(Some("DELTAS")), None);
}

#[test]
fn default_export_kind_is_stateless() {
    assert_eq!(ExportKind::default(), ExportKind::Stateless);
}

#[test]
fn default_service_has_no_limits() {
    let service = ServiceConfig::default();
    assert_eq!(service.max_event_per_span, None);
    assert_eq!(service.max_attributes_per_span, None);
    assert_eq!(service.max_links_per_span, None);
    assert_eq!(service.max_attributes_per_event, None);
    assert_eq!(service.max_attributes_per_link, None);
    assert_eq!(service.export_kind, ExportKind::Stateless);
}

#[test]
fn local_config_takes_the_export_kind() {
    let config = OtlpConfig::local(Some(ExportKind::Delta));
    assert_eq!(config.url, "http://127.0.0.1:4317/");
    assert!(config.attributes.is_none());
    assert_eq!(config.service.export_kind, ExportKind::Delta);
    assert_eq!(config.service.max_event_per_span, None);
}

#[test]
fn local_config_without_an_export_kind() {
    let config = OtlpConfig::local(None);
    assert_eq!(config.service.export_kind, ExportKind::Stateless);
}
