//! The entity that the telemetry is about.

use crate::metadata::keys_of;
use opentelemetry::sdk::Resource;
use opentelemetry::KeyValue;
use vstd::prelude::*;

verus! {

#[verifier::external_type_specification]
#[verifier::external_body]
pub struct ExResource(opentelemetry::sdk::Resource);

/// The attributes of a resource, each value in its textual form.
pub uninterp spec fn resource_attributes(resource: Resource) -> Map<Seq<char>, Seq<char>>;

/// The schema URL of a resource, if it has one.
pub uninterp spec fn resource_schema_url(resource: Resource) -> Option<Seq<char>>;

/// The texts of a list of pairs.
pub open spec fn text_pairs(pairs: Seq<(&'static str, &'static str)>) -> Seq<
    (Seq<char>, Seq<char>),
> {
    pairs.map_values(|pair: (&'static str, &'static str)| (pair.0@, pair.1@))
}

/// The map that binds each key of `pairs` to its value.
pub open spec fn bindings(pairs: Seq<(Seq<char>, Seq<char>)>) -> Map<Seq<char>, Seq<char>>
    decreases pairs.len(),
{
    if pairs.len() == 0 {
        Map::empty()
    } else {
        bindings(pairs.drop_last()).insert(pairs.last().0, pairs.last().1)
    }
}

/// `opentelemetry::sdk::Resource::new`: where no key comes twice, the resource has the
/// attributes of the list, and no others. What becomes of a key that comes twice is left
/// open. The resource has no schema URL.
#[verifier::external_body]
fn new_resource(pairs: Vec<(&'static str, &'static str)>) -> (resource: Resource)
    ensures
        keys_of(text_pairs(pairs@)).no_duplicates() ==> resource_attributes(resource) == bindings(
            text_pairs(pairs@),
        ),
        resource_schema_url(resource) is None,
{
    Resource::new(pairs.into_iter().map(|pair| KeyValue::new(pair.0, pair.1)))
}

/// The attributes of this service.
pub open spec fn service_attributes() -> Map<Seq<char>, Seq<char>> {
    map![
        "service.name"@ => "test-otlp"@,
        "service.namespace"@ => "test"@,
        "service.instance.id"@ => "development"@,
        "service.version"@ => "0.1.0"@,
    ]
}

/// The resource that describes this service.
pub fn get_resources() -> (resource: Resource)
    ensures
        resource_attributes(resource) == service_attributes(),
        resource_attributes(resource).dom() == set![
            "service.name"@,
            "service.namespace"@,
            "service.instance.id"@,
            "service.version"@,
        ],
        resource_attributes(resource)["service.name"@] == "test-otlp"@,
        resource_attributes(resource)["service.namespace"@] == "test"@,
        resource_attributes(resource)["service.instance.id"@] == "development"@,
        resource_attributes(resource)["service.version"@] == "0.1.0"@,
        resource_schema_url(resource) is None,
{
    let pairs: Vec<(&'static str, &'static str)> = vec![
        ("service.name", "test-otlp"),
        ("service.namespace", "test"),
        ("service.instance.id", "development"),
        ("service.version", "0.1.0"),
    ];
    proof {
        reveal_strlit("service.name");
        reveal_strlit("service.namespace");
        reveal_strlit("service.instance.id");
        reveal_strlit("service.version");
        let texts = text_pairs(pairs@);
        let keys = keys_of(texts);
        assert(keys =~= seq![
            "service.name"@,
            "service.namespace"@,
            "service.instance.id"@,
            "service.version"@,
        ]);
        assert(keys[0].len() == 12 && keys[1].len() == 17 && keys[2].len() == 19 && keys[3].len()
            == 15);
        assert(keys.no_duplicates());
        reveal_with_fuel(bindings, 5);
        assert(bindings(texts) =~= service_attributes());
    }
    proof {
        service_describes_itself();
    }
    new_resource(pairs)
}

/// Where no key comes twice, each pair is bound as it is listed, and nothing else is bound.
pub proof fn bindings_are_the_pairs(pairs: Seq<(Seq<char>, Seq<char>)>)
    requires
        forall|i: int, j: int|
            0 <= i < j < pairs.len() ==> (#[trigger] pairs[i]).0 != (#[trigger] pairs[j]).0,
    ensures
        forall|i: int|
            0 <= i < pairs.len() ==> bindings(pairs).contains_key((#[trigger] pairs[i]).0)
                && bindings(pairs)[pairs[i].0] == pairs[i].1,
        forall|key: Seq<char>| #[trigger]
            bindings(pairs).contains_key(key) ==> exists|i: int|
                0 <= i < pairs.len() && (#[trigger] pairs[i]).0 == key,
    decreases pairs.len(),
{
    if pairs.len() > 0 {
        let init = pairs.drop_last();
        assert forall|i: int, j: int| 0 <= i < j < init.len() implies (#[trigger] init[i]).0 != (
        #[trigger] init[j]).0 by {
            assert(pairs[i].0 != pairs[j].0);
        }
        bindings_are_the_pairs(init);
        assert forall|i: int| 0 <= i < pairs.len() implies bindings(pairs).contains_key(
            (#[trigger] pairs[i]).0,
        ) && bindings(pairs)[pairs[i].0] == pairs[i].1 by {
            if i < init.len() {
                assert(init[i] == pairs[i]);
                assert(pairs[i].0 != pairs[pairs.len() - 1].0);
            }
        }
        assert forall|key: Seq<char>| #[trigger] bindings(pairs).contains_key(key) implies exists|
            i: int,
        | 0 <= i < pairs.len() && (#[trigger] pairs[i]).0 == key by {
            if bindings(init).contains_key(key) {
                let i = choose|i: int| 0 <= i < init.len() && (#[trigger] init[i]).0 == key;
                assert(pairs[i].0 == key);
            } else {
                assert(pairs[pairs.len() - 1].0 == key);
            }
        }
    }
}

/// The texts of a list of pairs stand in the order of the list.
pub proof fn texts_of_the_pairs(pairs: Seq<(&'static str, &'static str)>)
    ensures
        text_pairs(pairs).len() == pairs.len(),
        forall|i: int|
            0 <= i < pairs.len() ==> #[trigger] text_pairs(pairs)[i] == (pairs[i].0@, pairs[i].1@),
{
}

/// The service has a name, a namespace, an instance and a version, and no other attribute.
pub proof fn service_describes_itself()
    ensures
        service_attributes().dom() == set![
            "service.name"@,
            "service.namespace"@,
            "service.instance.id"@,
            "service.version"@,
        ],
        service_attributes()["service.name"@] == "test-otlp"@,
        service_attributes()["service.namespace"@] == "test"@,
        service_attributes()["service.instance.id"@] == "development"@,
        service_attributes()["service.version"@] == "0.1.0"@,
{
    reveal_strlit("service.name");
    reveal_strlit("service.namespace");
    reveal_strlit("service.instance.id");
    reveal_strlit("service.version");
    assert("service.name"@.len() == 12 && "service.namespace"@.len() == 17
        && "service.instance.id"@.len() == 19 && "service.version"@.len() == 15);
    assert(service_attributes().dom() =~= set![
        "service.name"@,
        "service.namespace"@,
        "service.instance.id"@,
        "service.version"@,
    ]);
}

} // verus!
