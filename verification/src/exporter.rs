//! The exporter that the service starts.

use crate::config::{ExportKind, ServiceConfig};
use crate::metadata::{
    any_order_carries, attribute_pairs, attribute_texts, carries,
    distinct_attributes_are_carried_alike, distinct_in_lower_case, first_entries, first_pair_wins,
    has_room, lemma_lists, lists, lower, metadata_entries, metadata_from_pairs,
    no_attributes_no_entries, pair_views, too_many, too_many_means_no_room, valid_attributes,
    valid_pairs, MAX_CAPACITY, SURE_ATTRIBUTES,
};
use crate::resource::{
    get_resources, resource_attributes, resource_schema_url, service_attributes,
    service_describes_itself,
};
use opentelemetry::sdk::Resource;
use std::collections::HashMap;
use tonic::metadata::MetadataMap;
use vstd::prelude::*;

verus! {

/// The protocols that an exporter can speak.
#[derive(Copy, Clone, Debug, PartialEq, Eq, Structural)]
pub enum Protocol {
    Grpc,
}

/// All that it takes to build the exporter.
#[derive(Debug)]
pub struct ExporterPlan {
    pub endpoint: String,
    pub protocol: Protocol,
    pub export_kind: ExportKind,
    pub metadata: MetadataMap,
    pub resource: Resource,
}

/// `plan` is that of an exporter to the collector at `url`, with the attributes listed in
/// `pairs`, as `service` asks for.
pub open spec fn plans_export(
    plan: ExporterPlan,
    url: Seq<char>,
    pairs: Seq<(Seq<char>, Seq<char>)>,
    service: ServiceConfig,
) -> bool {
    &&& plan.endpoint@ == url
    &&& plan.protocol == Protocol::Grpc
    &&& plan.export_kind == service.export_kind
    &&& metadata_entries(plan.metadata) == first_entries(pairs)
    &&& resource_attributes(plan.resource) == service_attributes()
    &&& resource_schema_url(plan.resource) is None
}

/// Two plans build the same exporter.
pub open spec fn same_settings(first: ExporterPlan, second: ExporterPlan) -> bool {
    &&& first.endpoint@ == second.endpoint@
    &&& first.protocol == second.protocol
    &&& first.export_kind == second.export_kind
    &&& metadata_entries(first.metadata) == metadata_entries(second.metadata)
    &&& resource_attributes(first.resource) == resource_attributes(second.resource)
    &&& resource_schema_url(first.resource) == resource_schema_url(second.resource)
}

/// The exporter that sends the service's metrics to the collector at `url`, with the
/// attributes listed in `pairs`; `None` where they do not fit into metadata.
pub fn plan_from_pairs(
    url: &str,
    pairs: &Vec<(&String, &String)>,
    service: &ServiceConfig,
) -> (plan: Option<ExporterPlan>)
    requires
        valid_pairs(pair_views(pairs@)),
    ensures
        plan is Some ==> plans_export(plan->0, url@, pair_views(pairs@), *service),
        plan is None ==> too_many(pair_views(pairs@)),
        pairs.len() <= SURE_ATTRIBUTES ==> plan is Some,
        pairs.len() > MAX_CAPACITY ==> plan is None,
        plan is Some ==> plan->0.endpoint@ == url@,
        plan is Some ==> plan->0.protocol == Protocol::Grpc,
        plan is Some ==> plan->0.export_kind == service.export_kind,
        plan is Some ==> resource_schema_url(plan->0.resource) is None,
        plan is Some ==> resource_attributes(plan->0.resource).dom() == set![
            "service.name"@,
            "service.namespace"@,
            "service.instance.id"@,
            "service.version"@,
        ],
        plan is Some ==> resource_attributes(plan->0.resource)["service.name"@] == "test-otlp"@,
        plan is Some ==> resource_attributes(plan->0.resource)["service.namespace"@] == "test"@,
        plan is Some ==> resource_attributes(plan->0.resource)["service.instance.id"@]
            == "development"@,
        plan is Some ==> resource_attributes(plan->0.resource)["service.version"@] == "0.1.0"@,
        plan is Some ==> forall|i: int|
            0 <= i < pairs@.len() ==> metadata_entries(plan->0.metadata).contains_key(
                lower((#[trigger] pairs@[i]).0@),
            ),
        plan is Some ==> forall|i: int|
            0 <= i < pairs@.len() && (forall|j: int|
                0 <= j < i ==> lower((#[trigger] pairs@[j]).0@) != lower(pairs@[i].0@))
                ==> metadata_entries(plan->0.metadata)[lower((#[trigger] pairs@[i]).0@)] == seq![
                pairs@[i].1@,
            ],
        plan is Some ==> forall|name: Seq<char>| #[trigger]
            metadata_entries(plan->0.metadata).contains_key(name) ==> exists|i: int|
                0 <= i < pairs@.len() && lower((#[trigger] pairs@[i]).0@) == name,
        plan is None ==> pairs.len() > 24576 || exists|full: MetadataMap, i: int|
            0 <= i < pairs@.len() && !has_room(full) && #[trigger] metadata_entries(full)
                == first_entries(pair_views(#[trigger] pairs@.take(i))),
        pairs.len() <= 6554 ==> plan is Some,
        pairs.len() > 24576 ==> plan is None,
{
    match metadata_from_pairs(pairs) {
        Some(metadata) => Some(
            ExporterPlan {
                endpoint: url.to_owned(),
                protocol: Protocol::Grpc,
                export_kind: service.export_kind,
                metadata,
                resource: get_resources(),
            },
        ),
        None => None,
    }
}

/// The exporter that sends the service's metrics to the collector at `url`, with the
/// attributes in the order in which a `HashMap` gives them; `None` where they do not fit
/// into metadata.
pub fn plan_metric_otlp(
    url: &str,
    attributes: Option<&HashMap<String, String>>,
    service: &ServiceConfig,
) -> (plan: Option<ExporterPlan>)
    requires
        valid_attributes(attribute_texts(attributes)),
    ensures
        plan is Some ==> exists|pairs: Seq<(Seq<char>, Seq<char>)>| #[trigger]
            lists(pairs, attribute_texts(attributes)) && plans_export(
                plan->0,
                url@,
                pairs,
                *service,
            ),
        plan is None ==> exists|pairs: Seq<(Seq<char>, Seq<char>)>| #[trigger]
            lists(pairs, attribute_texts(attributes)) && too_many(pairs),
        attribute_texts(attributes).len() <= SURE_ATTRIBUTES ==> plan is Some,
        attribute_texts(attributes).len() > MAX_CAPACITY ==> plan is None,
        plan is Some ==> plan->0.endpoint@ == url@,
        plan is Some ==> plan->0.protocol == Protocol::Grpc,
        plan is Some ==> plan->0.export_kind == service.export_kind,
        plan is Some ==> resource_schema_url(plan->0.resource) is None,
        plan is Some ==> resource_attributes(plan->0.resource).dom() == set![
            "service.name"@,
            "service.namespace"@,
            "service.instance.id"@,
            "service.version"@,
        ],
        plan is Some ==> resource_attributes(plan->0.resource)["service.name"@] == "test-otlp"@,
        plan is Some ==> resource_attributes(plan->0.resource)["service.namespace"@] == "test"@,
        plan is Some ==> resource_attributes(plan->0.resource)["service.instance.id"@]
            == "development"@,
        plan is Some ==> resource_attributes(plan->0.resource)["service.version"@] == "0.1.0"@,
        attributes is None ==> plan is Some && metadata_entries(plan->0.metadata) == (Map::<
            Seq<char>,
            Seq<Seq<char>>,
        >::empty()),
        plan is Some && attributes is Some ==> forall|key: Seq<char>| #[trigger]
            attributes->0.deep_view().contains_key(key) ==> metadata_entries(
                plan->0.metadata,
            ).contains_key(lower(key)),
        plan is Some && attributes is Some ==> forall|name: Seq<char>| #[trigger]
            metadata_entries(plan->0.metadata).contains_key(name) ==> exists|key: Seq<char>|
            #[trigger]
                attributes->0.deep_view().contains_key(key) && lower(key) == name
                    && metadata_entries(plan->0.metadata)[name] == seq![
                    attributes->0.deep_view()[key],
                ],
        plan is None ==> attributes->0.deep_view().len() > 24576 || exists|
            full: MetadataMap,
            pairs: Seq<(Seq<char>, Seq<char>)>,
            i: int,
        |
            lists(pairs, attributes->0.deep_view()) && 0 <= i < pairs.len() && !has_room(full)
                && #[trigger] metadata_entries(full) == first_entries(#[trigger] pairs.take(i)),
        attributes is Some && attributes->0.deep_view().len() <= 6554 ==> plan is Some,
        attributes is Some && attributes->0.deep_view().len() > 24576 ==> plan is None,
{
    let pairs = attribute_pairs(attributes);
    let ghost views = pair_views(pairs@);
    proof {
        lemma_lists(views, attribute_texts(attributes));
        any_order_carries(views, attribute_texts(attributes));
        too_many_means_no_room(views);
        if attributes is None {
            no_attributes_no_entries(first_entries(views));
        }
    }
    plan_from_pairs(url, &pairs, service)
}

/// A plan is for the collector, the export kind and the attributes that were asked for, each
/// as it is: the endpoint is the URL itself, and of the attributes whose keys differ in case
/// only, the first that is listed counts. It always speaks gRPC and describes this service.
pub proof fn plan_is_what_was_asked_for(
    plan: ExporterPlan,
    url: Seq<char>,
    pairs: Seq<(Seq<char>, Seq<char>)>,
    service: ServiceConfig,
)
    requires
        plans_export(plan, url, pairs, service),
    ensures
        plan.endpoint@ == url,
        plan.protocol == Protocol::Grpc,
        plan.export_kind == service.export_kind,
        forall|i: int|
            0 <= i < pairs.len() && (forall|j: int|
                0 <= j < i ==> lower((#[trigger] pairs[j]).0) != lower(pairs[i].0))
                ==> metadata_entries(plan.metadata).contains_key(lower((#[trigger] pairs[i]).0))
                && metadata_entries(plan.metadata)[lower(pairs[i].0)] == seq![pairs[i].1],
        resource_attributes(plan.resource).dom() == set![
            "service.name"@,
            "service.namespace"@,
            "service.instance.id"@,
            "service.version"@,
        ],
        resource_attributes(plan.resource)["service.name"@] == "test-otlp"@,
        resource_attributes(plan.resource)["service.namespace"@] == "test"@,
        resource_attributes(plan.resource)["service.instance.id"@] == "development"@,
        resource_attributes(plan.resource)["service.version"@] == "0.1.0"@,
        resource_schema_url(plan.resource) is None,
{
    service_describes_itself();
    assert forall|i: int|
        0 <= i < pairs.len() && (forall|j: int|
            0 <= j < i ==> lower((#[trigger] pairs[j]).0) != lower(pairs[i].0)) implies metadata_entries(
        plan.metadata,
    ).contains_key(lower((#[trigger] pairs[i]).0)) && metadata_entries(plan.metadata)[lower(
        pairs[i].0,
    )] == seq![pairs[i].1] by {
        first_pair_wins(pairs, i);
    }
}

/// Plans for two collectors differ in their endpoints, and plans for two export kinds differ
/// in their kinds.
pub proof fn plans_tell_requests_apart(
    plan: ExporterPlan,
    other: ExporterPlan,
    url: Seq<char>,
    other_url: Seq<char>,
    pairs: Seq<(Seq<char>, Seq<char>)>,
    service: ServiceConfig,
    other_service: ServiceConfig,
)
    requires
        plans_export(plan, url, pairs, service),
        plans_export(other, other_url, pairs, other_service),
    ensures
        plan.endpoint@ == other.endpoint@ <==> url == other_url,
        plan.export_kind == other.export_kind <==> service.export_kind == other_service.export_kind,
{
}

/// The limits of a service configuration have no effect: of two configurations with the
/// same export kind, every plan for the one is a plan for the other.
pub proof fn limits_have_no_effect(
    plan: ExporterPlan,
    url: Seq<char>,
    pairs: Seq<(Seq<char>, Seq<char>)>,
    first: ServiceConfig,
    second: ServiceConfig,
)
    requires
        first.export_kind == second.export_kind,
    ensures
        plans_export(plan, url, pairs, first) <==> plans_export(plan, url, pairs, second),
{
}

/// Two configurations with the same export kind, whatever their limits, give plans with
/// the same settings for the same list of attributes.
pub proof fn same_kind_same_settings(
    first_plan: ExporterPlan,
    second_plan: ExporterPlan,
    url: Seq<char>,
    pairs: Seq<(Seq<char>, Seq<char>)>,
    first: ServiceConfig,
    second: ServiceConfig,
)
    requires
        first.export_kind == second.export_kind,
        plans_export(first_plan, url, pairs, first),
        plans_export(second_plan, url, pairs, second),
    ensures
        same_settings(first_plan, second_plan),
        first_plan.endpoint@ == second_plan.endpoint@,
        first_plan.protocol == second_plan.protocol,
        first_plan.export_kind == second_plan.export_kind,
        metadata_entries(first_plan.metadata) == metadata_entries(second_plan.metadata),
        resource_attributes(first_plan.resource) == resource_attributes(second_plan.resource),
        resource_schema_url(first_plan.resource) == resource_schema_url(second_plan.resource),
{
}

/// Where no two attributes have keys that differ in case only, the settings do not depend
/// on the order in which the attributes are listed either.
pub proof fn same_kind_same_settings_in_any_order(
    first_plan: ExporterPlan,
    second_plan: ExporterPlan,
    url: Seq<char>,
    attributes: Map<Seq<char>, Seq<char>>,
    first_pairs: Seq<(Seq<char>, Seq<char>)>,
    second_pairs: Seq<(Seq<char>, Seq<char>)>,
    first: ServiceConfig,
    second: ServiceConfig,
)
    requires
        first.export_kind == second.export_kind,
        lists(first_pairs, attributes),
        lists(second_pairs, attributes),
        distinct_in_lower_case(attributes),
        plans_export(first_plan, url, first_pairs, first),
        plans_export(second_plan, url, second_pairs, second),
    ensures
        same_settings(first_plan, second_plan),
        first_plan.endpoint@ == second_plan.endpoint@,
        first_plan.protocol == second_plan.protocol,
        first_plan.export_kind == second_plan.export_kind,
        metadata_entries(first_plan.metadata) == metadata_entries(second_plan.metadata),
        resource_attributes(first_plan.resource) == resource_attributes(second_plan.resource),
        resource_schema_url(first_plan.resource) == resource_schema_url(second_plan.resource),
{
    any_order_carries(first_pairs, attributes);
    any_order_carries(second_pairs, attributes);
    distinct_attributes_are_carried_alike(
        first_entries(first_pairs),
        first_entries(second_pairs),
        attributes,
    );
}

/// A plan's metadata carries the attributes, in whatever order they are listed.
pub proof fn plan_carries_attributes(
    plan: ExporterPlan,
    url: Seq<char>,
    attributes: Map<Seq<char>, Seq<char>>,
    pairs: Seq<(Seq<char>, Seq<char>)>,
    service: ServiceConfig,
)
    requires
        lists(pairs, attributes),
        plans_export(plan, url, pairs, service),
    ensures
        carries(metadata_entries(plan.metadata), attributes),
{
    any_order_carries(pairs, attributes);
}

/// Where no attributes are configured, as in the service's own configuration, there is
/// always an exporter, and it sends no metadata.
pub proof fn no_attributes_always_plan(entries: Map<Seq<char>, Seq<Seq<char>>>)
    ensures
        valid_attributes(attribute_texts(None)),
        attribute_texts(None).len() <= SURE_ATTRIBUTES,
        carries(entries, attribute_texts(None)) ==> entries == Map::<
            Seq<char>,
            Seq<Seq<char>>,
        >::empty(),
{
    if carries(entries, attribute_texts(None)) {
        no_attributes_no_entries(entries);
    }
}

} // verus!
