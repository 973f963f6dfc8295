//! Temporality: whether an export holds totals or changes.

use crate::config::{export_kind_or_default, ExportKind};
use opentelemetry::sdk::export::metrics::aggregation;
use opentelemetry::sdk::export::metrics::aggregation::AggregationKind;
use opentelemetry::sdk::export::metrics::aggregation::TemporalitySelector;
use opentelemetry::sdk::metrics::sdk_api::Descriptor;
use vstd::prelude::*;

verus! {

/// What one export of a metric holds.
#[derive(Copy, Clone, Debug, PartialEq, Eq, Structural)]
pub enum Temporality {
    /// The total since the start.
    Cumulative,
    /// The change since the export before.
    Delta,
}

#[verifier::external_type_specification]
#[verifier::external_body]
pub struct ExDescriptor(opentelemetry::sdk::metrics::sdk_api::Descriptor);

#[verifier::external_type_specification]
#[verifier::external_body]
pub struct ExAggregationKind(opentelemetry::sdk::export::metrics::aggregation::AggregationKind);

/// `temporality_for` of `opentelemetry::sdk::export::metrics::aggregation::cumulative_temporality_selector`:
/// totals, whatever the instrument and the aggregation.
#[verifier::external_body]
fn cumulative_temporality_for(descriptor: &Descriptor, kind: &AggregationKind) -> (chosen:
    Temporality)
    ensures
        chosen == Temporality::Cumulative,
{
    match aggregation::cumulative_temporality_selector().temporality_for(descriptor, kind) {
        aggregation::Temporality::Cumulative => Temporality::Cumulative,
        _ => Temporality::Delta,
    }
}

/// `temporality_for` of `opentelemetry::sdk::export::metrics::aggregation::delta_temporality_selector`:
/// changes, whatever the instrument and the aggregation.
#[verifier::external_body]
fn delta_temporality_for(descriptor: &Descriptor, kind: &AggregationKind) -> (chosen: Temporality)
    ensures
        chosen == Temporality::Delta,
{
    match aggregation::delta_temporality_selector().temporality_for(descriptor, kind) {
        aggregation::Temporality::Cumulative => Temporality::Cumulative,
        _ => Temporality::Delta,
    }
}

/// `temporality_for` of `opentelemetry::sdk::export::metrics::aggregation::stateless_temporality_selector`:
/// totals, whatever the instrument and the aggregation.
#[verifier::external_body]
fn stateless_temporality_for(descriptor: &Descriptor, kind: &AggregationKind) -> (chosen:
    Temporality)
    ensures
        chosen == Temporality::Cumulative,
{
    match aggregation::stateless_temporality_selector().temporality_for(descriptor, kind) {
        aggregation::Temporality::Cumulative => Temporality::Cumulative,
        _ => Temporality::Delta,
    }
}

/// The temporality of an export kind.
pub open spec fn temporality_of(kind: ExportKind) -> Temporality {
    match kind {
        ExportKind::Cumulative => Temporality::Cumulative,
        ExportKind::Delta => Temporality::Delta,
        ExportKind::Stateless => Temporality::Cumulative,
    }
}

impl ExportKind {
    /// The temporality in which to export the metric of `descriptor`, aggregated as
    /// `kind`.
    pub fn temporality_for(&self, descriptor: &Descriptor, kind: &AggregationKind) -> (chosen:
        Temporality)
        ensures
            chosen == temporality_of(*self),
            chosen == Temporality::Delta <==> *self == ExportKind::Delta,
            chosen == Temporality::Cumulative <==> (*self == ExportKind::Cumulative || *self
                == ExportKind::Stateless),
    {
        match self {
            ExportKind::Cumulative => cumulative_temporality_for(descriptor, kind),
            ExportKind::Delta => delta_temporality_for(descriptor, kind),
            ExportKind::Stateless => stateless_temporality_for(descriptor, kind),
        }
    }
}

/// Only the kind that is named after changes exports changes; where no kind is asked for,
/// exports hold totals.
pub proof fn only_delta_exports_changes(kind: ExportKind)
    ensures
        temporality_of(kind) == Temporality::Delta <==> kind == ExportKind::Delta,
        temporality_of(export_kind_or_default(None)) == Temporality::Cumulative,
{
}

} // verus!
