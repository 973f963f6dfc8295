//! Configuration of the exporter.

use crate::text::same_text;
use std::collections::HashMap;
use vstd::prelude::*;

verus! {

/// What to export, and where.
#[derive(Debug)]
pub struct OtlpConfig {
    pub url: String,
    pub attributes: Option<HashMap<String, String>>,
    pub service: ServiceConfig,
}

/// Limits on spans, and the way in which metrics are exported.
#[derive(Debug)]
pub struct ServiceConfig {
    pub max_event_per_span: Option<u32>,
    pub max_attributes_per_span: Option<u32>,
    pub max_links_per_span: Option<u32>,
    pub max_attributes_per_event: Option<u32>,
    pub max_attributes_per_link: Option<u32>,
    pub export_kind: ExportKind,
}

/// How successive exports of one metric relate to each other.
#[derive(Copy, Clone, Debug, PartialEq, Eq, Structural)]
pub enum ExportKind {
    Cumulative,
    Delta,
    Stateless,
}

/// The kind that the value of `EXPORT_KIND` stands for, if it stands for one.
pub open spec fn export_kind_named(value: Seq<char>) -> Option<ExportKind> {
    if value == "CUMULATIVE"@ {
        Some(ExportKind::Cumulative)
    } else if value == "DELTA"@ {
        Some(ExportKind::Delta)
    } else if value == "STATELESS"@ {
        Some(ExportKind::Stateless)
    } else {
        None
    }
}

/// The value of `EXPORT_KIND` that stands for a kind.
pub open spec fn export_kind_name(kind: ExportKind) -> Seq<char> {
    match kind {
        ExportKind::Cumulative => "CUMULATIVE"@,
        ExportKind::Delta => "DELTA"@,
        ExportKind::Stateless => "STATELESS"@,
    }
}

impl ExportKind {
    /// Reads the kind off the value of the environment variable `EXPORT_KIND`;
    /// `value` is `None` where the variable is unset or is not Unicode.
    pub fn from_env(value: Option<&str>) -> (kind: Option<ExportKind>)
        ensures
            kind == (match value {
                Some(v) => export_kind_named(v@),
                None => None,
            }),
            value is None ==> kind is None,
            kind == Some(ExportKind::Cumulative) <==> value is Some && value->0@ == "CUMULATIVE"@,
            kind == Some(ExportKind::Delta) <==> value is Some && value->0@ == "DELTA"@,
            kind == Some(ExportKind::Stateless) <==> value is Some && value->0@ == "STATELESS"@,
    {
        proof {
            lemma_names_differ();
        }
        match value {
            Some(v) => {
                if same_text(v, "CUMULATIVE") {
                    Some(ExportKind::Cumulative)
                } else if same_text(v, "DELTA") {
                    Some(ExportKind::Delta)
                } else if same_text(v, "STATELESS") {
                    Some(ExportKind::Stateless)
                } else {
                    None
                }
            },
            None => None,
        }
    }
}

impl Default for ExportKind {
    fn default() -> (kind: Self)
        ensures
            kind == ExportKind::Stateless,
    {
        ExportKind::Stateless
    }
}

/// The service configuration that sets no limit.
pub open spec fn unlimited_service(export_kind: ExportKind) -> ServiceConfig {
    ServiceConfig {
        max_event_per_span: None,
        max_attributes_per_span: None,
        max_links_per_span: None,
        max_attributes_per_event: None,
        max_attributes_per_link: None,
        export_kind,
    }
}

impl Default for ServiceConfig {
    fn default() -> (service: Self)
        ensures
            service == unlimited_service(ExportKind::Stateless),
            service.max_event_per_span is None,
            service.max_attributes_per_span is None,
            service.max_links_per_span is None,
            service.max_attributes_per_event is None,
            service.max_attributes_per_link is None,
            service.export_kind == ExportKind::Stateless,
    {
        ServiceConfig {
            max_event_per_span: None,
            max_attributes_per_span: None,
            max_links_per_span: None,
            max_attributes_per_event: None,
            max_attributes_per_link: None,
            export_kind: ExportKind::default(),
        }
    }
}

/// `kind`, or the default kind where there is none.
pub open spec fn export_kind_or_default(kind: Option<ExportKind>) -> ExportKind {
    match kind {
        Some(k) => k,
        None => ExportKind::Stateless,
    }
}

impl OtlpConfig {
    /// The configuration of the service: a collector on this host, no attributes and
    /// no limits. `export_kind` is what the environment asks for.
    pub fn local(export_kind: Option<ExportKind>) -> (config: OtlpConfig)
        ensures
            config.url@ == "http://127.0.0.1:4317/"@,
            config.attributes is None,
            config.service == unlimited_service(export_kind_or_default(export_kind)),
            config.service.max_event_per_span is None,
            config.service.max_attributes_per_span is None,
            config.service.max_links_per_span is None,
            config.service.max_attributes_per_event is None,
            config.service.max_attributes_per_link is None,
            export_kind is Some ==> config.service.export_kind == export_kind->0,
            export_kind is None ==> config.service.export_kind == ExportKind::Stateless,
    {
        OtlpConfig {
            url: "http://127.0.0.1:4317/".to_owned(),
            attributes: None,
            service: ServiceConfig {
                export_kind: match export_kind {
                    Some(kind) => kind,
                    None => ExportKind::default(),
                },
                ..ServiceConfig::default()
            },
        }
    }
}

/// The values that stand for kinds differ in length.
proof fn lemma_names_differ()
    ensures
        "CUMULATIVE"@.len() == 10,
        "DELTA"@.len() == 5,
        "STATELESS"@.len() == 9,
{
    reveal_strlit("CUMULATIVE");
    reveal_strlit("DELTA");
    reveal_strlit("STATELESS");
}

/// Each kind is read back from the value that stands for it, and configured as it is read.
pub proof fn export_kind_round_trip(kind: ExportKind)
    ensures
        export_kind_named(export_kind_name(kind)) == Some(kind),
        export_kind_or_default(export_kind_named(export_kind_name(kind))) == kind,
{
    lemma_names_differ();
}

/// Only the value that stands for a kind is read as that kind, case included.
pub proof fn export_kind_needs_its_name(value: Seq<char>, kind: ExportKind)
    ensures
        export_kind_named(value) == Some(kind) ==> value == export_kind_name(kind),
{
}

/// A value is read as a kind exactly when it is one of three texts, each of which stands for
/// a kind of its own. Any other value is read as none.
pub proof fn three_values_are_read(value: Seq<char>)
    ensures
        export_kind_named(value) == Some(ExportKind::Cumulative) <==> value == "CUMULATIVE"@,
        export_kind_named(value) == Some(ExportKind::Delta) <==> value == "DELTA"@,
        export_kind_named(value) == Some(ExportKind::Stateless) <==> value == "STATELESS"@,
{
    lemma_names_differ();
}

/// A kind that is asked for is the one that is configured, whichever it is. The default
/// stands in only where none is asked for.
pub proof fn asked_kind_is_kept(kind: ExportKind)
    ensures
        export_kind_or_default(Some(kind)) == kind,
        export_kind_or_default(None) == ExportKind::Stateless,
{
}

/// A configuration without limits keeps the export kind that it is made with and sets none
/// of the limits.
pub proof fn unlimited_keeps_the_kind(kind: ExportKind)
    ensures
        unlimited_service(kind).export_kind == kind,
        unlimited_service(kind).max_event_per_span is None,
        unlimited_service(kind).max_attributes_per_span is None,
        unlimited_service(kind).max_links_per_span is None,
        unlimited_service(kind).max_attributes_per_event is None,
        unlimited_service(kind).max_attributes_per_link is None,
{
}

} // verus!
