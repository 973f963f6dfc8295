//! gRPC metadata that the exporter sends along with its requests.

use crate::text::ends_with;
use std::collections::HashMap;
use tonic::metadata::MetadataMap;
use vstd::prelude::*;
use vstd::string::*;

verus! {

/// The longest key that metadata can hold.
pub const MAX_KEY_LEN: usize = 65535;

/// The largest number of keys that a metadata map can be made for.
pub const MAX_CAPACITY: usize = 24576;

/// A number of attributes that always fits. The header table under a `MetadataMap` doubles
/// when its keys collide and never holds more than 32768 slots; up to this many keys, it
/// never has to outgrow them, whatever the keys are.
pub const SURE_ATTRIBUTES: usize = 6554;

/// A character that a key can hold.
pub open spec fn is_key_char(c: char) -> bool {
    ||| 'a' <= c <= 'z'
    ||| 'A' <= c <= 'Z'
    ||| '0' <= c <= '9'
    ||| '!' <= c <= '\''
    ||| '^' <= c <= '`'
    ||| c == '*' || c == '+' || c == '-' || c == '.' || c == '|' || c == '~'
}

/// A character that a value can hold: a tab, or anything that is no ASCII control
/// character.
pub open spec fn is_value_char(c: char) -> bool {
    c == '\t' || (' ' <= c && c != '\x7f')
}

/// A text that can be the key of a textual entry. Keys in `-bin` are those of binary
/// entries.
pub open spec fn valid_key(key: Seq<char>) -> bool {
    &&& 0 < key.len() <= MAX_KEY_LEN
    &&& forall|i: int| 0 <= i < key.len() ==> is_key_char(#[trigger] key[i])
    &&& !"-bin"@.is_suffix_of(key)
}

/// A text that can be the value of a textual entry.
pub open spec fn valid_value(value: Seq<char>) -> bool {
    forall|i: int| 0 <= i < value.len() ==> is_value_char(#[trigger] value[i])
}

/// An ASCII capital turned into the small letter; any other character unchanged.
pub open spec fn lower_char(c: char) -> char {
    if 'A' <= c <= 'Z' {
        (c as u32 + 32) as char
    } else {
        c
    }
}

/// The form in which metadata keeps a key.
pub open spec fn lower(key: Seq<char>) -> Seq<char> {
    key.map_values(|c: char| lower_char(c))
}

/// Whether `key` can be the key of a textual metadata entry.
pub fn is_metadata_key(key: &str) -> (valid: bool)
    ensures
        valid == valid_key(key@),
        valid <==> {
            &&& 0 < key@.len() <= 65535
            &&& !"-bin"@.is_suffix_of(key@)
            &&& forall|i: int|
                0 <= i < key@.len() ==> '!' <= #[trigger] key@[i] <= '~' && key@[i] != '('
                    && key@[i] != ')' && key@[i] != ',' && key@[i] != '/' && key@[i] != ':'
                    && key@[i] != ';' && key@[i] != '<' && key@[i] != '=' && key@[i] != '>'
                    && key@[i] != '?' && key@[i] != '@' && key@[i] != '[' && key@[i] != '\\'
                    && key@[i] != ']' && key@[i] != '{' && key@[i] != '}'
        },
{
    let len: usize = key.unicode_len();
    if len == 0 || len > MAX_KEY_LEN || ends_with(key, "-bin") {
        return false;
    }
    for c in it: key.chars()
        invariant
            it.seq() == key@,
            forall|i: int| 0 <= i < it.index() ==> is_key_char(#[trigger] key@[i]),
    {
        let letter: bool = ('a' <= c && c <= 'z') || ('A' <= c && c <= 'Z');
        let digit: bool = '0' <= c && c <= '9';
        let mark: bool = ('!' <= c && c <= '\'') || ('^' <= c && c <= '`') || c == '*' || c == '+'
            || c == '-' || c == '.' || c == '|' || c == '~';
        if !letter && !digit && !mark {
            return false;
        }
    }
    true
}

/// Whether `value` can be the value of a textual metadata entry.
pub fn is_metadata_value(value: &str) -> (valid: bool)
    ensures
        valid == valid_value(value@),
        valid <==> forall|i: int|
            0 <= i < value@.len() ==> #[trigger] value@[i] == '\t' || !(value@[i] < ' ' || value@[i]
                == '\x7f'),
{
    for c in it: value.chars()
        invariant
            it.seq() == value@,
            forall|i: int| 0 <= i < it.index() ==> is_value_char(#[trigger] value@[i]),
    {
        if c != '\t' && (c < ' ' || c == '\x7f') {
            return false;
        }
    }
    true
}

#[verifier::external_type_specification]
#[verifier::external_body]
pub struct ExMetadataMap(tonic::metadata::MetadataMap);

/// The entries of a metadata map: under every name that the map keeps, whatever it ends
/// in, the texts of the values, in order.
pub uninterp spec fn metadata_entries(map: MetadataMap) -> Map<Seq<char>, Seq<Seq<char>>>;

/// `tonic::metadata::MetadataMap::with_capacity`: a new map has no entries. The call
/// panics where the table for `capacity` keys would exceed 32768 slots.
#[verifier::external_body]
fn with_capacity(capacity: usize) -> (map: MetadataMap)
    requires
        capacity <= MAX_CAPACITY,
    ensures
        metadata_entries(map) == (Map::<Seq<char>, Seq<Seq<char>>>::empty()),
{
    MetadataMap::with_capacity(capacity)
}

/// `entries` with the one value `value` under the lower-case form of `key`, unless
/// something stands there already.
pub open spec fn with_first(
    entries: Map<Seq<char>, Seq<Seq<char>>>,
    key: Seq<char>,
    value: Seq<char>,
) -> Map<Seq<char>, Seq<Seq<char>>> {
    if entries.contains_key(lower(key)) {
        entries
    } else {
        entries.insert(lower(key), seq![value])
    }
}

/// A metadata map can look one more key up for entry: the table under it does not have to
/// outgrow its slots.
pub uninterp spec fn has_room(map: MetadataMap) -> bool;

/// `hyper::HeaderMap::try_entry`, on the headers that `tonic::metadata::MetadataMap` holds:
/// tells whether the map has room, and leaves the entries as they are. A map that
/// has room still has it afterwards, since the table has grown by then if it had to. A
/// map of fewer than `SURE_ATTRIBUTES` entries always has room.
#[verifier::external_body]
fn make_room(map: &mut MetadataMap, key: &String) -> (room: bool)
    requires
        valid_key(key@),
    ensures
        room == has_room(*old(map)),
        room ==> has_room(*final(map)),
        metadata_entries(*old(map)).len() < SURE_ATTRIBUTES ==> room,
        metadata_entries(*final(map)) == metadata_entries(*old(map)),
{
    let mut headers: hyper::HeaderMap = std::mem::take(map).into_headers();
    let room = headers.try_entry(key.as_str()).is_ok();
    *map = MetadataMap::from_headers(headers);
    room
}

/// `tonic::metadata::MetadataMap::entry` with `Entry::or_insert_with`: a valid key, taken
/// in lower case, gets the one value if the map has no entry under it; an entry that is
/// there stays, and so do all others. The call panics on an invalid key, an invalid
/// value, and a map without room.
#[verifier::external_body]
fn insert_if_absent(map: &mut MetadataMap, key: &String, value: &String)
    requires
        valid_key(key@),
        valid_value(value@),
        has_room(*old(map)),
    ensures
        metadata_entries(*final(map)) == with_first(metadata_entries(*old(map)), key@, value@),
{
    let parsed = value.parse().unwrap();
    map.entry(key).unwrap().or_insert_with(|| parsed);
}

/// The texts of a list of borrowed pairs.
pub open spec fn pair_views(pairs: Seq<(&String, &String)>) -> Seq<(Seq<char>, Seq<char>)> {
    pairs.map_values(|pair: (&String, &String)| (pair.0@, pair.1@))
}

/// The keys of a list of pairs.
pub open spec fn keys_of(pairs: Seq<(Seq<char>, Seq<char>)>) -> Seq<Seq<char>> {
    pairs.map_values(|pair: (Seq<char>, Seq<char>)| pair.0)
}

/// `pairs` holds each binding of `attributes` once, and nothing else.
pub open spec fn lists(
    pairs: Seq<(Seq<char>, Seq<char>)>,
    attributes: Map<Seq<char>, Seq<char>>,
) -> bool {
    &&& keys_of(pairs).no_duplicates()
    &&& keys_of(pairs).to_set() == attributes.dom()
    &&& forall|i: int| 0 <= i < pairs.len() ==> attributes[(#[trigger] pairs[i]).0] == pairs[i].1
}

/// `Vec::from_iter` on a borrowed `HashMap`: each binding of the map, once. The order is
/// left open: it differs from one process to the next.
#[verifier::external_body]
fn pairs_of<'a>(attributes: &'a HashMap<String, String>) -> (pairs: Vec<(&'a String, &'a String)>)
    ensures
        lists(pair_views(pairs@), attributes.deep_view()),
{
    Vec::from_iter(attributes)
}

/// The entries that come of adding `pairs` in their order: of the pairs whose keys
/// differ in case only, the first counts.
pub open spec fn first_entries(pairs: Seq<(Seq<char>, Seq<char>)>) -> Map<
    Seq<char>,
    Seq<Seq<char>>,
>
    decreases pairs.len(),
{
    if pairs.len() == 0 {
        Map::empty()
    } else {
        with_first(first_entries(pairs.drop_last()), pairs.last().0, pairs.last().1)
    }
}

/// Pairs that make up metadata.
pub open spec fn valid_pairs(pairs: Seq<(Seq<char>, Seq<char>)>) -> bool {
    forall|i: int|
        0 <= i < pairs.len() ==> valid_key((#[trigger] pairs[i]).0) && valid_value(pairs[i].1)
}

/// No more entries come of a list than it has pairs.
proof fn lemma_first_entries_len(pairs: Seq<(Seq<char>, Seq<char>)>)
    ensures
        first_entries(pairs).dom().finite(),
        first_entries(pairs).len() <= pairs.len(),
    decreases pairs.len(),
{
    if pairs.len() > 0 {
        lemma_first_entries_len(pairs.drop_last());
    }
}

/// `map` holds what comes of the first `i` pairs, and has no room for the next.
pub open spec fn refuses_at(
    map: MetadataMap,
    pairs: Seq<(Seq<char>, Seq<char>)>,
    i: int,
) -> bool {
    &&& 0 <= i < pairs.len()
    &&& metadata_entries(map) == first_entries(pairs.take(i))
    &&& !has_room(map)
}

/// The pairs do not fit into a metadata map: there are more than one can be made for, or
/// the table runs out of room on the way.
pub open spec fn too_many(pairs: Seq<(Seq<char>, Seq<char>)>) -> bool {
    ||| pairs.len() > MAX_CAPACITY
    ||| exists|map: MetadataMap, i: int| #[trigger] refuses_at(map, pairs, i)
}

/// Metadata out of a list of pairs; `None` where they do not fit. Up to `SURE_ATTRIBUTES`
/// pairs always fit, and more than `MAX_CAPACITY` never do. In between, it depends on how
/// the header table places the keys.
pub fn metadata_from_pairs(pairs: &Vec<(&String, &String)>) -> (map: Option<MetadataMap>)
    requires
        valid_pairs(pair_views(pairs@)),
    ensures
        map is Some ==> metadata_entries(map->0) == first_entries(pair_views(pairs@)),
        map is None ==> too_many(pair_views(pairs@)),
        pairs.len() <= SURE_ATTRIBUTES ==> map is Some,
        pairs.len() > MAX_CAPACITY ==> map is None,
        map is Some ==> forall|i: int|
            0 <= i < pairs@.len() ==> metadata_entries(map->0).contains_key(
                lower((#[trigger] pairs@[i]).0@),
            ),
        map is Some ==> forall|i: int|
            0 <= i < pairs@.len() && (forall|j: int|
                0 <= j < i ==> lower((#[trigger] pairs@[j]).0@) != lower(pairs@[i].0@))
                ==> metadata_entries(map->0)[lower((#[trigger] pairs@[i]).0@)] == seq![
                pairs@[i].1@,
            ],
        map is Some ==> forall|name: Seq<char>| #[trigger]
            metadata_entries(map->0).contains_key(name) ==> exists|i: int|
                0 <= i < pairs@.len() && lower((#[trigger] pairs@[i]).0@) == name,
        map is None ==> pairs.len() > 24576 || exists|full: MetadataMap, i: int|
            0 <= i < pairs@.len() && !has_room(full) && #[trigger] metadata_entries(full)
                == first_entries(pair_views(#[trigger] pairs@.take(i))),
        pairs.len() <= 6554 ==> map is Some,
        pairs.len() > 24576 ==> map is None,
{
    let ghost views = pair_views(pairs@);
    if pairs.len() > MAX_CAPACITY {
        return None;
    }
    let mut map = with_capacity(pairs.len());
    for i in 0..pairs.len()
        invariant
            views == pair_views(pairs@),
            valid_pairs(views),
            pairs.len() <= MAX_CAPACITY,
            metadata_entries(map) == first_entries(views.take(i as int)),
    {
        let (key, value) = pairs[i];
        let ghost before = map;
        proof {
            lemma_first_entries_len(views.take(i as int));
            assert(views[i as int] == (key@, value@));
            assert(views.take(i + 1).drop_last() =~= views.take(i as int));
        }
        if !make_room(&mut map, key) {
            assert(refuses_at(before, views, i as int));
            assert(pair_views(pairs@.take(i as int)) =~= views.take(i as int));
            return None;
        }
        insert_if_absent(&mut map, key, value);
    }
    assert(views.take(pairs.len() as int) =~= views);
    proof {
        lemma_entries_of_pairs(metadata_entries(map), pairs@);
    }
    Some(map)
}

/// Attributes that make up metadata.
pub open spec fn valid_attributes(attributes: Map<Seq<char>, Seq<char>>) -> bool {
    forall|key: Seq<char>| #[trigger]
        attributes.contains_key(key) ==> valid_key(key) && valid_value(attributes[key])
}

/// The texts of optional attributes: none at all stand for no bindings.
pub open spec fn attribute_texts(attributes: Option<&HashMap<String, String>>) -> Map<
    Seq<char>,
    Seq<char>,
> {
    match attributes {
        Some(map) => map.deep_view(),
        None => Map::empty(),
    }
}

/// `entries` holds, under the lower-case form of each attribute's key, one value, that of
/// an attribute with that lower-case form, and nothing else.
pub open spec fn carries(
    entries: Map<Seq<char>, Seq<Seq<char>>>,
    attributes: Map<Seq<char>, Seq<char>>,
) -> bool {
    &&& forall|key: Seq<char>| #[trigger]
        attributes.contains_key(key) ==> entries.contains_key(lower(key))
    &&& forall|name: Seq<char>| #[trigger]
        entries.contains_key(name) ==> exists|key: Seq<char>| #[trigger]
            attributes.contains_key(key) && lower(key) == name && entries[name] == seq![attributes[key]]
}

/// Of the pairs whose keys differ in case only, the first one gives the value.
pub proof fn first_pair_wins(pairs: Seq<(Seq<char>, Seq<char>)>, i: int)
    requires
        0 <= i < pairs.len(),
        forall|j: int| 0 <= j < i ==> lower((#[trigger] pairs[j]).0) != lower(pairs[i].0),
    ensures
        first_entries(pairs).contains_key(lower(pairs[i].0)),
        first_entries(pairs)[lower(pairs[i].0)] == seq![pairs[i].1],
    decreases pairs.len(),
{
    let init = pairs.drop_last();
    if i < init.len() {
        assert(init[i] == pairs[i]);
        assert forall|j: int| 0 <= j < i implies lower((#[trigger] init[j]).0) != lower(init[i].0) by {
            assert(init[j] == pairs[j]);
        }
        first_pair_wins(init, i);
    } else {
        lemma_first_entries_from_pairs(init);
        if first_entries(init).contains_key(lower(pairs[i].0)) {
            let j = choose|j: int|
                0 <= j < init.len() && lower((#[trigger] init[j]).0) == lower(pairs[i].0)
                    && first_entries(init)[lower(pairs[i].0)] == seq![init[j].1];
            assert(init[j] == pairs[j]);
        }
    }
}

/// A pair that comes later adds an entry only where none stands under its key, and changes
/// none that does. No pairs make no entries.
pub proof fn later_pair_changes_nothing(
    pairs: Seq<(Seq<char>, Seq<char>)>,
    key: Seq<char>,
    value: Seq<char>,
    name: Seq<char>,
)
    ensures
        first_entries(Seq::empty()) == Map::<Seq<char>, Seq<Seq<char>>>::empty(),
        first_entries(pairs).contains_key(name) ==> first_entries(
            pairs.push((key, value)),
        ).contains_key(name),
        first_entries(pairs).contains_key(name) ==> first_entries(pairs.push((key, value)))[name]
            == first_entries(pairs)[name],
        first_entries(pairs.push((key, value))).contains_key(name) <==> (first_entries(
            pairs,
        ).contains_key(name) || name == lower(key)),
{
    assert(pairs.push((key, value)).drop_last() =~= pairs);
}

/// Putting an entry in leaves what stands there, and gives a key that is new the one value.
pub proof fn standing_entry_stays(
    entries: Map<Seq<char>, Seq<Seq<char>>>,
    key: Seq<char>,
    value: Seq<char>,
    name: Seq<char>,
)
    ensures
        entries.contains_key(name) ==> with_first(entries, key, value)[name] == entries[name],
        !entries.contains_key(lower(key)) ==> with_first(entries, key, value)[lower(key)] == seq![
            value,
        ],
        with_first(entries, key, value).contains_key(name) <==> (entries.contains_key(name) || name
            == lower(key)),
{
}

/// What comes of pairs, read off the pairs themselves.
proof fn lemma_entries_of_pairs(
    entries: Map<Seq<char>, Seq<Seq<char>>>,
    pairs: Seq<(&String, &String)>,
)
    requires
        entries == first_entries(pair_views(pairs)),
    ensures
        forall|i: int|
            0 <= i < pairs.len() ==> entries.contains_key(lower((#[trigger] pairs[i]).0@)),
        forall|i: int|
            0 <= i < pairs.len() && (forall|j: int|
                0 <= j < i ==> lower((#[trigger] pairs[j]).0@) != lower(pairs[i].0@))
                ==> entries[lower((#[trigger] pairs[i]).0@)] == seq![pairs[i].1@],
        forall|name: Seq<char>| #[trigger]
            entries.contains_key(name) ==> exists|i: int|
                0 <= i < pairs.len() && lower((#[trigger] pairs[i]).0@) == name,
{
    let views = pair_views(pairs);
    lemma_first_entries_from_pairs(views);
    assert forall|i: int| 0 <= i < pairs.len() implies entries.contains_key(
        lower((#[trigger] pairs[i]).0@),
    ) by {
        assert(views[i].0 == pairs[i].0@);
    }
    assert forall|i: int|
        0 <= i < pairs.len() && (forall|j: int|
            0 <= j < i ==> lower((#[trigger] pairs[j]).0@) != lower(pairs[i].0@)) implies entries[lower(
        (#[trigger] pairs[i]).0@,
    )] == seq![pairs[i].1@] by {
        assert(views[i] == (pairs[i].0@, pairs[i].1@));
        assert forall|j: int| 0 <= j < i implies lower((#[trigger] views[j]).0) != lower(
            views[i].0,
        ) by {
            assert(views[j].0 == pairs[j].0@);
        }
        first_pair_wins(views, i);
    }
    assert forall|name: Seq<char>| #[trigger] entries.contains_key(name) implies exists|i: int|
        0 <= i < pairs.len() && lower((#[trigger] pairs[i]).0@) == name by {
        let i = choose|i: int|
            0 <= i < views.len() && lower((#[trigger] views[i]).0) == name && first_entries(
                views,
            )[name] == seq![views[i].1];
        assert(views[i].0 == pairs[i].0@);
    }
}

/// Each entry is that of some pair, and each pair's key has an entry.
proof fn lemma_first_entries_from_pairs(pairs: Seq<(Seq<char>, Seq<char>)>)
    ensures
        forall|i: int|
            0 <= i < pairs.len() ==> first_entries(pairs).contains_key(lower((#[trigger] pairs[i]).0)),
        forall|name: Seq<char>| #[trigger]
            first_entries(pairs).contains_key(name) ==> exists|i: int|
                0 <= i < pairs.len() && lower((#[trigger] pairs[i]).0) == name && first_entries(
                    pairs,
                )[name] == seq![pairs[i].1],
    decreases pairs.len(),
{
    if pairs.len() > 0 {
        let init = pairs.drop_last();
        lemma_first_entries_from_pairs(init);
        assert forall|i: int| 0 <= i < pairs.len() implies first_entries(pairs).contains_key(
            lower((#[trigger] pairs[i]).0),
        ) by {
            if i < init.len() {
                assert(init[i] == pairs[i]);
            }
        }
        assert forall|name: Seq<char>| #[trigger]
            first_entries(pairs).contains_key(name) implies exists|i: int|
            0 <= i < pairs.len() && lower((#[trigger] pairs[i]).0) == name && first_entries(
                pairs,
            )[name] == seq![pairs[i].1] by {
            if first_entries(init).contains_key(name) {
                let i = choose|i: int|
                    0 <= i < init.len() && lower((#[trigger] init[i]).0) == name && first_entries(
                        init,
                    )[name] == seq![init[i].1];
                assert(pairs[i] == init[i]);
            } else {
                assert(pairs[pairs.len() - 1] == pairs.last());
            }
        }
    }
}

/// A list of attributes is as long as there are attributes, and valid when they are.
pub(crate) proof fn lemma_lists(pairs: Seq<(Seq<char>, Seq<char>)>, attributes: Map<Seq<char>, Seq<char>>)
    requires
        lists(pairs, attributes),
    ensures
        pairs.len() == attributes.len(),
        valid_pairs(pairs) == valid_attributes(attributes),
        forall|i: int|
            0 <= i < pairs.len() ==> attributes.contains_key((#[trigger] pairs[i]).0),
        forall|key: Seq<char>| #[trigger]
            attributes.contains_key(key) ==> exists|i: int|
                0 <= i < pairs.len() && (#[trigger] pairs[i]).0 == key,
{
    let keys = keys_of(pairs);
    keys.unique_seq_to_set();
    assert forall|i: int| 0 <= i < pairs.len() implies attributes.contains_key(
        (#[trigger] pairs[i]).0,
    ) by {
        assert(keys[i] == pairs[i].0);
        assert(keys.to_set().contains(keys[i]));
    }
    assert forall|key: Seq<char>| #[trigger] attributes.contains_key(key) implies exists|i: int|
        0 <= i < pairs.len() && (#[trigger] pairs[i]).0 == key by {
        assert(keys.to_set().contains(key));
        let i = keys.index_of(key);
        assert(keys[i] == pairs[i].0);
    }
    if valid_pairs(pairs) {
        assert forall|key: Seq<char>| #[trigger] attributes.contains_key(key) implies valid_key(key)
            && valid_value(attributes[key]) by {
            let i = choose|i: int| 0 <= i < pairs.len() && (#[trigger] pairs[i]).0 == key;
            assert(valid_key(pairs[i].0));
        }
    }
}

/// A list of attributes, read off the pairs themselves.
proof fn lemma_listed(pairs: Seq<(&String, &String)>, attributes: Map<Seq<char>, Seq<char>>)
    requires
        lists(pair_views(pairs), attributes),
    ensures
        pairs.len() == attributes.len(),
        forall|i: int|
            0 <= i < pairs.len() ==> attributes.contains_key((#[trigger] pairs[i]).0@)
                && attributes[pairs[i].0@] == pairs[i].1@,
        forall|key: Seq<char>| #[trigger]
            attributes.contains_key(key) ==> exists|i: int|
                0 <= i < pairs.len() && (#[trigger] pairs[i]).0@ == key,
        forall|i: int, j: int|
            0 <= i < j < pairs.len() ==> (#[trigger] pairs[i]).0@ != (#[trigger] pairs[j]).0@,
{
    let views = pair_views(pairs);
    lemma_lists(views, attributes);
    assert forall|i: int| 0 <= i < pairs.len() implies attributes.contains_key(
        (#[trigger] pairs[i]).0@,
    ) && attributes[pairs[i].0@] == pairs[i].1@ by {
        assert(views[i] == (pairs[i].0@, pairs[i].1@));
    }
    assert forall|key: Seq<char>| #[trigger] attributes.contains_key(key) implies exists|i: int|
        0 <= i < pairs.len() && (#[trigger] pairs[i]).0@ == key by {
        let i = choose|i: int| 0 <= i < views.len() && (#[trigger] views[i]).0 == key;
        assert(views[i].0 == pairs[i].0@);
    }
    assert forall|i: int, j: int| 0 <= i < j < pairs.len() implies (#[trigger] pairs[i]).0@ != (
    #[trigger] pairs[j]).0@ by {
        let keys = keys_of(views);
        assert(keys[i] == pairs[i].0@ && keys[j] == pairs[j].0@);
    }
}

/// Pairs list attributes exactly when no key comes twice, each pair is a binding of the
/// attributes, and each key of the attributes has its pair.
pub proof fn listing_is_one_pair_each(
    pairs: Seq<(Seq<char>, Seq<char>)>,
    attributes: Map<Seq<char>, Seq<char>>,
)
    ensures
        lists(pairs, attributes) <==> {
            &&& forall|i: int, j: int|
                0 <= i < j < pairs.len() ==> (#[trigger] pairs[i]).0 != (#[trigger] pairs[j]).0
            &&& forall|i: int|
                0 <= i < pairs.len() ==> attributes.contains_key((#[trigger] pairs[i]).0)
                    && attributes[pairs[i].0] == pairs[i].1
            &&& forall|key: Seq<char>| #[trigger]
                attributes.contains_key(key) ==> exists|i: int|
                    0 <= i < pairs.len() && (#[trigger] pairs[i]).0 == key
        },
{
    let keys = keys_of(pairs);
    assert forall|i: int| 0 <= i < pairs.len() implies keys[i] == (#[trigger] pairs[i]).0 by {}
    if lists(pairs, attributes) {
        lemma_lists(pairs, attributes);
        assert forall|i: int, j: int| 0 <= i < j < pairs.len() implies (#[trigger] pairs[i]).0 != (
        #[trigger] pairs[j]).0 by {
            assert(keys[i] != keys[j]);
        }
    } else if (forall|i: int, j: int|
        0 <= i < j < pairs.len() ==> (#[trigger] pairs[i]).0 != (#[trigger] pairs[j]).0) && (forall|
        i: int,
    |
        0 <= i < pairs.len() ==> attributes.contains_key((#[trigger] pairs[i]).0)
            && attributes[pairs[i].0] == pairs[i].1) && (forall|key: Seq<char>| #[trigger]
        attributes.contains_key(key) ==> exists|i: int|
            0 <= i < pairs.len() && (#[trigger] pairs[i]).0 == key) {
        assert forall|i: int, j: int|
            0 <= i < keys.len() && 0 <= j < keys.len() && i != j implies keys[i] != keys[j] by {
            let low = if i < j {
                i
            } else {
                j
            };
            let high = if i < j {
                j
            } else {
                i
            };
            assert(pairs[low].0 != pairs[high].0);
        }
        assert forall|key: Seq<char>| keys.to_set().contains(key) <==> attributes.dom().contains(
            key,
        ) by {
            if attributes.contains_key(key) {
                let i = choose|i: int| 0 <= i < pairs.len() && (#[trigger] pairs[i]).0 == key;
                assert(keys[i] == key);
            }
            if keys.to_set().contains(key) {
                let i = keys.index_of(key);
                assert(pairs[i].0 == key);
            }
        }
        assert(keys.to_set() =~= attributes.dom());
    }
}

/// In whatever order attributes are listed, the entries that come of them carry them.
pub proof fn any_order_carries(
    pairs: Seq<(Seq<char>, Seq<char>)>,
    attributes: Map<Seq<char>, Seq<char>>,
)
    requires
        lists(pairs, attributes),
    ensures
        carries(first_entries(pairs), attributes),
{
    lemma_lists(pairs, attributes);
    lemma_first_entries_from_pairs(pairs);
    let entries = first_entries(pairs);
    assert forall|key: Seq<char>| #[trigger]
        attributes.contains_key(key) implies entries.contains_key(lower(key)) by {
        let i = choose|i: int| 0 <= i < pairs.len() && (#[trigger] pairs[i]).0 == key;
        assert(entries.contains_key(lower(pairs[i].0)));
    }
    assert forall|name: Seq<char>| #[trigger] entries.contains_key(name) implies exists|
        key: Seq<char>,
    | #[trigger]
        attributes.contains_key(key) && lower(key) == name && entries[name] == seq![attributes[key]] by {
        let i = choose|i: int|
            0 <= i < pairs.len() && lower((#[trigger] pairs[i]).0) == name && entries[name]
                == seq![pairs[i].1];
        assert(attributes.contains_key(pairs[i].0));
    }
}

/// Whether the keys and values of the attributes can be those of metadata.
pub fn accepts_attributes(attributes: Option<&HashMap<String, String>>) -> (accepted: bool)
    ensures
        accepted == valid_attributes(attribute_texts(attributes)),
        attributes is None ==> accepted,
        attributes is Some ==> (accepted <==> forall|key: Seq<char>| #[trigger]
            attributes->0.deep_view().contains_key(key) ==> valid_key(key) && valid_value(
                attributes->0.deep_view()[key],
            )),
{
    let map = match attributes {
        Some(map) => map,
        None => return true,
    };
    let pairs = pairs_of(map);
    let ghost views = pair_views(pairs@);
    proof {
        lemma_lists(views, map.deep_view());
    }
    for i in 0..pairs.len()
        invariant
            views == pair_views(pairs@),
            valid_pairs(views) == valid_attributes(map.deep_view()),
            Some(map) == attributes,
            forall|j: int|
                0 <= j < i ==> valid_key((#[trigger] views[j]).0) && valid_value(views[j].1),
    {
        let (key, value) = pairs[i];
        assert(views[i as int] == (key@, value@));
        if !is_metadata_key(key.as_str()) || !is_metadata_value(value.as_str()) {
            assert(!valid_attributes(attributes->0.deep_view()));
            return false;
        }
    }
    true
}

/// The bindings of optional attributes, in the order in which a `HashMap` gives them.
pub fn attribute_pairs<'a>(attributes: Option<&'a HashMap<String, String>>) -> (pairs: Vec<
    (&'a String, &'a String),
>)
    ensures
        lists(pair_views(pairs@), attribute_texts(attributes)),
        attributes is None ==> pairs.len() == 0,
        attributes is Some ==> pairs.len() == attributes->0.deep_view().len(),
        attributes is Some ==> forall|i: int|
            0 <= i < pairs@.len() ==> attributes->0.deep_view().contains_key(
                (#[trigger] pairs@[i]).0@,
            ) && attributes->0.deep_view()[pairs@[i].0@] == pairs@[i].1@,
        attributes is Some ==> forall|key: Seq<char>| #[trigger]
            attributes->0.deep_view().contains_key(key) ==> exists|i: int|
                0 <= i < pairs@.len() && (#[trigger] pairs@[i]).0@ == key,
        forall|i: int, j: int|
            0 <= i < j < pairs@.len() ==> (#[trigger] pairs@[i]).0@ != (#[trigger] pairs@[j]).0@,
{
    match attributes {
        Some(bindings) => {
            let pairs = pairs_of(bindings);
            proof {
                lemma_listed(pairs@, bindings.deep_view());
            }
            pairs
        },
        None => {
            let pairs: Vec<(&'a String, &'a String)> = Vec::new();
            proof {
                let keys = keys_of(pair_views(pairs@));
                assert(keys.to_set() =~= attribute_texts(attributes).dom());
            }
            pairs
        },
    }
}

/// The metadata that carries `attributes`, empty where there are none; `None` where they do
/// not fit, as `metadata_from_pairs` says. Which of two attributes counts whose keys differ
/// in case only is left open, as is the order in which a `HashMap` gives its bindings.
pub fn get_metadata(attributes: Option<&HashMap<String, String>>) -> (map: Option<MetadataMap>)
    requires
        valid_attributes(attribute_texts(attributes)),
    ensures
        map is Some ==> carries(metadata_entries(map->0), attribute_texts(attributes)),
        map is None ==> exists|pairs: Seq<(Seq<char>, Seq<char>)>| #[trigger]
            lists(pairs, attribute_texts(attributes)) && too_many(pairs),
        attribute_texts(attributes).len() <= SURE_ATTRIBUTES ==> map is Some,
        attribute_texts(attributes).len() > MAX_CAPACITY ==> map is None,
        attributes is None ==> map is Some && metadata_entries(map->0) == (Map::<
            Seq<char>,
            Seq<Seq<char>>,
        >::empty()),
        map is Some && attributes is Some ==> forall|key: Seq<char>| #[trigger]
            attributes->0.deep_view().contains_key(key) ==> metadata_entries(map->0).contains_key(
                lower(key),
            ),
        map is Some && attributes is Some ==> forall|name: Seq<char>| #[trigger]
            metadata_entries(map->0).contains_key(name) ==> exists|key: Seq<char>| #[trigger]
                attributes->0.deep_view().contains_key(key) && lower(key) == name
                    && metadata_entries(map->0)[name] == seq![attributes->0.deep_view()[key]],
        map is None ==> attributes->0.deep_view().len() > 24576 || exists|
            full: MetadataMap,
            pairs: Seq<(Seq<char>, Seq<char>)>,
            i: int,
        |
            lists(pairs, attributes->0.deep_view()) && 0 <= i < pairs.len() && !has_room(full)
                && #[trigger] metadata_entries(full) == first_entries(#[trigger] pairs.take(i)),
        attributes is Some && attributes->0.deep_view().len() <= 6554 ==> map is Some,
        attributes is Some && attributes->0.deep_view().len() > 24576 ==> map is None,
{
    let pairs = attribute_pairs(attributes);
    let ghost views = pair_views(pairs@);
    proof {
        lemma_lists(views, attribute_texts(attributes));
        any_order_carries(views, attribute_texts(attributes));
    }
    let map = metadata_from_pairs(&pairs);
    proof {
        if attributes is None {
            no_attributes_no_entries(first_entries(views));
        }
        if map is None && views.len() <= MAX_CAPACITY {
            let (full, i) = choose|full: MetadataMap, i: int| #[trigger] refuses_at(full, views, i);
            assert(metadata_entries(full) == first_entries(views.take(i)));
        }
    }
    map
}

/// No two attributes have keys that differ in case only.
pub open spec fn distinct_in_lower_case(attributes: Map<Seq<char>, Seq<char>>) -> bool {
    forall|a: Seq<char>, b: Seq<char>| #[trigger]
        attributes.contains_key(a) && #[trigger] attributes.contains_key(b) && lower(a) == lower(b)
            ==> a == b
}

/// Where no two keys differ in case only, metadata gives back the value of each
/// attribute.
pub proof fn distinct_attributes_are_all_carried(
    entries: Map<Seq<char>, Seq<Seq<char>>>,
    attributes: Map<Seq<char>, Seq<char>>,
    key: Seq<char>,
)
    requires
        carries(entries, attributes),
        distinct_in_lower_case(attributes),
        attributes.contains_key(key),
    ensures
        entries.contains_key(lower(key)),
        entries[lower(key)] == seq![attributes[key]],
{
}

/// Where no two keys differ in case only, there is only one way to carry the attributes:
/// whatever metadata carries them, it has the same entries.
pub proof fn distinct_attributes_are_carried_alike(
    first: Map<Seq<char>, Seq<Seq<char>>>,
    second: Map<Seq<char>, Seq<Seq<char>>>,
    attributes: Map<Seq<char>, Seq<char>>,
)
    requires
        carries(first, attributes),
        carries(second, attributes),
        distinct_in_lower_case(attributes),
    ensures
        first == second,
{
    assert(first.dom() =~= second.dom());
    assert(first =~= second);
}

/// Where every key is in lower case already, metadata is the attributes as they are, with
/// one value under each key.
pub proof fn lower_case_attributes_are_unchanged(
    entries: Map<Seq<char>, Seq<Seq<char>>>,
    attributes: Map<Seq<char>, Seq<char>>,
)
    requires
        carries(entries, attributes),
        forall|key: Seq<char>| #[trigger] attributes.contains_key(key) ==> lower(key) == key,
    ensures
        entries == attributes.map_values(|value: Seq<char>| seq![value]),
{
    assert(entries.dom() =~= attributes.dom());
    assert(entries =~= attributes.map_values(|value: Seq<char>| seq![value]));
}

/// Without attributes there is no metadata.
pub proof fn no_attributes_no_entries(entries: Map<Seq<char>, Seq<Seq<char>>>)
    requires
        carries(entries, attribute_texts(None)),
    ensures
        entries == Map::<Seq<char>, Seq<Seq<char>>>::empty(),
{
    assert(entries.dom() =~= Set::empty());
    assert(entries =~= Map::empty());
}

/// Attributes that are there are taken as they are, all of them. Where there are none, there
/// are no bindings.
pub proof fn all_attributes_are_taken(attributes: &HashMap<String, String>)
    ensures
        attribute_texts(Some(attributes)) == attributes.deep_view(),
        attribute_texts(None) == Map::<Seq<char>, Seq<char>>::empty(),
{
}

/// Metadata that carries the bindings of a `HashMap` has an entry for each of them, and none
/// besides. The entry under a name is the value of an attribute whose key differs from the
/// name in case only.
pub proof fn no_attribute_is_lost(
    entries: Map<Seq<char>, Seq<Seq<char>>>,
    attributes: &HashMap<String, String>,
)
    requires
        carries(entries, attribute_texts(Some(attributes))),
    ensures
        forall|key: Seq<char>| #[trigger]
            attributes.deep_view().contains_key(key) ==> entries.contains_key(lower(key)),
        forall|name: Seq<char>| #[trigger]
            entries.contains_key(name) ==> exists|key: Seq<char>| #[trigger]
                attributes.deep_view().contains_key(key) && lower(key) == name && entries[name]
                    == seq![attributes.deep_view()[key]],
{
}

/// Attributes make up metadata exactly when each key and each value does, however many there
/// are: one more attribute that is valid changes nothing.
pub proof fn attributes_are_valid_one_by_one(
    attributes: Map<Seq<char>, Seq<char>>,
    key: Seq<char>,
    value: Seq<char>,
)
    requires
        !attributes.contains_key(key),
    ensures
        valid_attributes(Map::empty()),
        valid_attributes(attributes.insert(key, value)) <==> (valid_attributes(attributes)
            && valid_key(key) && valid_value(value)),
{
    let more = attributes.insert(key, value);
    if valid_attributes(more) {
        assert(more.contains_key(key));
        assert forall|k: Seq<char>| #[trigger] attributes.contains_key(k) implies valid_key(k)
            && valid_value(attributes[k]) by {
            assert(more.contains_key(k) && more[k] == attributes[k]);
        }
    }
}

/// Pairs make up metadata exactly when each of them does.
pub proof fn pairs_are_valid_one_by_one(
    first: Seq<(Seq<char>, Seq<char>)>,
    second: Seq<(Seq<char>, Seq<char>)>,
    key: Seq<char>,
    value: Seq<char>,
)
    ensures
        valid_pairs(Seq::empty()),
        valid_pairs(seq![(key, value)]) <==> valid_key(key) && valid_value(value),
        valid_pairs(first + second) <==> valid_pairs(first) && valid_pairs(second),
{
    let whole = first + second;
    let one = seq![(key, value)];
    assert(one[0] == (key, value));
    if valid_pairs(whole) {
        assert forall|i: int| 0 <= i < first.len() implies valid_key((#[trigger] first[i]).0)
            && valid_value(first[i].1) by {
            assert(whole[i] == first[i]);
        }
        assert forall|i: int| 0 <= i < second.len() implies valid_key((#[trigger] second[i]).0)
            && valid_value(second[i].1) by {
            assert(whole[first.len() + i] == second[i]);
        }
    }
}

/// Pairs are too many only where there are more than 24576, or where a map that holds what
/// came of the first ones has no room for the next.
pub proof fn too_many_means_no_room(pairs: Seq<(Seq<char>, Seq<char>)>)
    ensures
        too_many(pairs) <==> (pairs.len() > 24576 || exists|full: MetadataMap, i: int|
            0 <= i < pairs.len() && !has_room(full) && #[trigger] metadata_entries(full)
                == first_entries(#[trigger] pairs.take(i))),
{
    if exists|full: MetadataMap, i: int| #[trigger] refuses_at(full, pairs, i) {
        let (full, i) = choose|full: MetadataMap, i: int| #[trigger] refuses_at(full, pairs, i);
        assert(metadata_entries(full) == first_entries(pairs.take(i)));
    }
    if exists|full: MetadataMap, i: int|
        0 <= i < pairs.len() && !has_room(full) && #[trigger] metadata_entries(full)
            == first_entries(#[trigger] pairs.take(i)) {
        let (full, i) = choose|full: MetadataMap, i: int|
            0 <= i < pairs.len() && !has_room(full) && #[trigger] metadata_entries(full)
                == first_entries(#[trigger] pairs.take(i));
        assert(refuses_at(full, pairs, i));
    }
}

/// A value is as good as its parts, however long it is: joining two texts makes a value
/// exactly when both are values. The empty text is one.
pub proof fn values_join(first: Seq<char>, second: Seq<char>)
    ensures
        valid_value(Seq::empty()),
        valid_value(first + second) <==> valid_value(first) && valid_value(second),
{
    let whole = first + second;
    if valid_value(whole) {
        assert forall|i: int| 0 <= i < first.len() implies is_value_char(#[trigger] first[i]) by {
            assert(whole[i] == first[i]);
        }
        assert forall|i: int| 0 <= i < second.len() implies is_value_char(#[trigger] second[i]) by {
            assert(whole[first.len() + i] == second[i]);
        }
    }
}

/// A single character is a value exactly when it is a tab or no ASCII control character.
pub proof fn only_control_characters_are_barred(c: char)
    ensures
        valid_value(seq![c]) <==> (c == '\t' || !(c < ' ' || c == '\x7f')),
{
    assert(seq![c][0] == c);
}

/// A single character is a key exactly when it is visible ASCII and none of the separators
/// of a header.
pub proof fn separators_are_barred_from_keys(c: char)
    ensures
        valid_key(seq![c]) <==> ('!' <= c <= '~' && c != '(' && c != ')' && c != ',' && c != '/' && c
            != ':' && c != ';' && c != '<' && c != '=' && c != '>' && c != '?' && c != '@' && c != '['
            && c != '\\' && c != ']' && c != '{' && c != '}'),
{
    reveal_strlit("-bin");
    assert(seq![c][0] == c);
    assert("-bin"@.len() == 4);
}

/// A text is a key exactly when it is neither empty nor longer than 65535 characters, each
/// of its characters is a key by itself, and it does not end in `-bin`.
pub proof fn keys_are_valid_by_character(key: Seq<char>)
    ensures
        valid_key(key) <==> {
            &&& 0 < key.len() <= 65535
            &&& !"-bin"@.is_suffix_of(key)
            &&& forall|i: int| 0 <= i < key.len() ==> valid_key(seq![#[trigger] key[i]])
        },
{
    reveal_strlit("-bin");
    assert("-bin"@.len() == 4);
    assert forall|i: int| 0 <= i < key.len() implies valid_key(seq![#[trigger] key[i]]) == is_key_char(
        key[i],
    ) by {
        assert(seq![key[i]][0] == key[i]);
    }
}

/// Taking the lower case of a key keeps its length, moves each ASCII capital to the small
/// letter 32 places on, and leaves every other character as it is.
pub proof fn lower_moves_capitals_only(key: Seq<char>)
    ensures
        lower(key).len() == key.len(),
        forall|i: int|
            0 <= i < key.len() && 'A' <= #[trigger] key[i] <= 'Z' ==> lower(key)[i] as u32
                == key[i] as u32 + 32,
        forall|i: int|
            0 <= i < key.len() && !('A' <= #[trigger] key[i] <= 'Z') ==> lower(key)[i] == key[i],
{
}

/// The texts of borrowed pairs stand in the order of the pairs.
pub proof fn views_of_the_pairs(pairs: Seq<(&String, &String)>)
    ensures
        pair_views(pairs).len() == pairs.len(),
        forall|i: int|
            0 <= i < pairs.len() ==> #[trigger] pair_views(pairs)[i] == (pairs[i].0@, pairs[i].1@),
{
}

/// The form in which metadata keeps a key is in lower case: taking it again changes
/// nothing.
pub proof fn lower_is_idempotent(key: Seq<char>)
    ensures
        lower(lower(key)) == lower(key),
{
    assert forall|i: int| 0 <= i < key.len() implies lower(lower(key))[i] == lower(key)[i] by {
        assert(!('A' <= lower_char(key[i]) <= 'Z'));
    }
    assert(lower(lower(key)) =~= lower(key));
}

} // verus!
