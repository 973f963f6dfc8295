//! What one request records, and how it is answered.

use crate::instrument::{
    instruments, operation_of, service_instruments, Instrument, InstrumentKind, NumberKind,
    Operation,
};
use vstd::prelude::*;

verus! {

/// The value of an attribute.
#[derive(Debug, PartialEq, Eq)]
pub enum AttributeValue {
    Text(String),
    Whole(i64),
    Flag(bool),
}

/// Something that is said of a request.
#[derive(Debug, PartialEq, Eq)]
pub struct Attribute {
    pub key: String,
    pub value: AttributeValue,
}

/// The value of an attribute, as a value of the mathematics.
pub ghost enum AttributeValueView {
    Text(Seq<char>),
    Whole(int),
    Flag(bool),
}

impl View for AttributeValue {
    type V = AttributeValueView;

    open spec fn view(&self) -> AttributeValueView {
        match self {
            AttributeValue::Text(text) => AttributeValueView::Text(text@),
            AttributeValue::Whole(number) => AttributeValueView::Whole(*number as int),
            AttributeValue::Flag(flag) => AttributeValueView::Flag(*flag),
        }
    }
}

impl View for Attribute {
    type V = (Seq<char>, AttributeValueView);

    open spec fn view(&self) -> (Seq<char>, AttributeValueView) {
        (self.key@, self.value@)
    }
}

/// The number that an instrument takes: a whole one, or the sample of the request.
#[derive(Debug, PartialEq, Eq)]
pub enum Amount<V> {
    Whole(u64),
    Sample(V),
}

/// One number for one instrument.
#[derive(Debug, PartialEq, Eq)]
pub struct Measurement<V> {
    pub instrument: Instrument,
    pub operation: Operation,
    pub amount: Amount<V>,
}

/// Everything that comes of a request.
#[derive(Debug, PartialEq, Eq)]
pub struct Handled<V> {
    /// What is said of the request with each measurement.
    pub attributes: Vec<Attribute>,
    /// What the instruments take, in order.
    pub measurements: Vec<Measurement<V>>,
    /// The status of the answer.
    pub status: u16,
    /// The body of the answer.
    pub body: String,
}

/// The status of every answer.
pub const STATUS: u16 = 200;

/// What is said of a request for `path` by `method`.
pub open spec fn request_attributes(method: Seq<char>, path: Seq<char>) -> Seq<
    (Seq<char>, AttributeValueView),
> {
    seq![
        ("method"@, AttributeValueView::Text(method)),
        ("path"@, AttributeValueView::Text(path)),
        ("status"@, AttributeValueView::Whole(STATUS as int)),
        ("failed"@, AttributeValueView::Flag(false)),
    ]
}

/// What an instrument takes from a request: one that counts whole numbers takes 1, any
/// other takes the sample.
pub open spec fn measurement<V>(instrument: Instrument, sample: V) -> Measurement<V> {
    Measurement {
        instrument,
        operation: operation_of(instrument.kind),
        amount: match instrument.number {
            NumberKind::U64 => Amount::Whole(1),
            NumberKind::F64 => Amount::Sample(sample),
        },
    }
}

/// What all the instruments take from a request.
pub open spec fn request_measurements<V>(sample: V) -> Seq<Measurement<V>> {
    service_instruments().map_values(|instrument: Instrument| measurement(instrument, sample))
}

/// The texts of attributes.
pub open spec fn attribute_views(attributes: Seq<Attribute>) -> Seq<
    (Seq<char>, AttributeValueView),
> {
    attributes.map_values(|attribute: Attribute| attribute@)
}

/// Handles a request for `path` by `method`. `sample` is the number drawn for it. The
/// status that is said of the request is that of the answer.
pub fn hello<V: Copy>(method: &str, path: &str, sample: V) -> (handled: Handled<V>)
    ensures
        attribute_views(handled.attributes@) == request_attributes(method@, path@),
        handled.measurements@ == request_measurements(sample),
        handled.status == 200,
        attribute_views(handled.attributes@).contains(
            ("status"@, AttributeValueView::Whole(handled.status as int)),
        ),
        handled.body@ == "Hello World!"@,
        handled.attributes.len() == 4,
        handled.attributes@[0].key@ == "method"@,
        handled.attributes@[0].value is Text,
        handled.attributes@[0].value->Text_0@ == method@,
        handled.attributes@[1].key@ == "path"@,
        handled.attributes@[1].value is Text,
        handled.attributes@[1].value->Text_0@ == path@,
        handled.attributes@[2].key@ == "status"@,
        handled.attributes@[2].value == AttributeValue::Whole(200),
        handled.attributes@[3].key@ == "failed"@,
        handled.attributes@[3].value == AttributeValue::Flag(false),
        handled.measurements.len() == 30,
        forall|i: int|
            0 <= i < 30 ==> (#[trigger] handled.measurements@[i]).instrument
                == service_instruments()[i],
        forall|i: int|
            0 <= i < 30 ==> (#[trigger] handled.measurements@[i]).operation == (
            match handled.measurements@[i].instrument.kind {
                InstrumentKind::Counter => Operation::Add,
                InstrumentKind::UpDownCounter => Operation::Add,
                InstrumentKind::Histogram => Operation::Record,
                InstrumentKind::ObservableCounter => Operation::Observe,
                InstrumentKind::ObservableGauge => Operation::Observe,
                InstrumentKind::ObservableUpDownCounter => Operation::Observe,
            }),
        forall|i: int|
            0 <= i < 12 ==> (#[trigger] handled.measurements@[i]).amount == Amount::<V>::Whole(1),
        forall|i: int|
            12 <= i < 30 ==> (#[trigger] handled.measurements@[i]).amount == Amount::Sample(sample),
{
    let attributes: Vec<Attribute> = vec![
        Attribute { key: "method".to_owned(), value: AttributeValue::Text(method.to_owned()) },
        Attribute { key: "path".to_owned(), value: AttributeValue::Text(path.to_owned()) },
        Attribute { key: "status".to_owned(), value: AttributeValue::Whole(STATUS as i64) },
        Attribute { key: "failed".to_owned(), value: AttributeValue::Flag(false) },
    ];
    assert(attribute_views(attributes@) =~= request_attributes(method@, path@));
    assert(attribute_views(attributes@)[2] == ("status"@, AttributeValueView::Whole(STATUS as int)));

    let instruments = instruments();
    let mut measurements: Vec<Measurement<V>> = Vec::new();
    for i in 0..instruments.len()
        invariant
            instruments@ == service_instruments(),
            measurements@ == request_measurements(sample).take(i as int),
    {
        let instrument = instruments[i];
        measurements.push(
            Measurement {
                instrument,
                operation: instrument.operation(),
                amount: match instrument.number {
                    NumberKind::U64 => Amount::Whole(1),
                    NumberKind::F64 => Amount::Sample(sample),
                },
            },
        );
        assert(measurements@ =~= request_measurements(sample).take(i + 1));
    }
    assert(measurements@ =~= request_measurements(sample));
    proof {
        attributes_say_what_was_asked(attributes@, method@, path@);
    }

    Handled { attributes, measurements, status: STATUS, body: "Hello World!".to_owned() }
}

/// Whatever the request, four things are said of it, in this order: its method and its path,
/// each as it is, the status 200, and that it has not failed.
pub proof fn attributes_say_what_was_asked(
    attributes: Seq<Attribute>,
    method: Seq<char>,
    path: Seq<char>,
)
    requires
        attribute_views(attributes) == request_attributes(method, path),
    ensures
        attributes.len() == 4,
        attributes[0].key@ == "method"@,
        attributes[0].value is Text,
        attributes[0].value->Text_0@ == method,
        attributes[1].key@ == "path"@,
        attributes[1].value is Text,
        attributes[1].value->Text_0@ == path,
        attributes[2].key@ == "status"@,
        attributes[2].value == AttributeValue::Whole(200),
        attributes[3].key@ == "failed"@,
        attributes[3].value == AttributeValue::Flag(false),
{
    let views = attribute_views(attributes);
    assert(views.len() == 4);
    assert(views[0] == attributes[0]@ && views[1] == attributes[1]@);
    assert(views[2] == attributes[2]@ && views[3] == attributes[3]@);
}

/// What is said of two requests differs exactly where they differ.
pub proof fn attributes_tell_requests_apart(
    method: Seq<char>,
    path: Seq<char>,
    other_method: Seq<char>,
    other_path: Seq<char>,
)
    ensures
        request_attributes(method, path) == request_attributes(other_method, other_path) <==> (
        method == other_method && path == other_path),
{
    let said = request_attributes(method, path);
    let other = request_attributes(other_method, other_path);
    if said == other {
        assert(said[0] == other[0] && said[1] == other[1]);
    }
}

/// An instrument takes by the operation of its kind: 1 where it counts whole numbers, and
/// the sample as it is where it takes floating-point numbers.
pub proof fn measurement_follows_instrument<V>(instrument: Instrument, sample: V)
    ensures
        measurement(instrument, sample).instrument == instrument,
        measurement(instrument, sample).operation == operation_of(instrument.kind),
        instrument.number == NumberKind::U64 ==> measurement(instrument, sample).amount == Amount::<
            V,
        >::Whole(1),
        instrument.number == NumberKind::F64 ==> measurement(instrument, sample).amount
            == Amount::Sample(sample),
{
}

/// A request reaches every instrument of the service once, in order.
pub proof fn request_reaches_every_instrument<V>(sample: V, i: int)
    requires
        0 <= i < service_instruments().len(),
    ensures
        request_measurements(sample).len() == service_instruments().len(),
        request_measurements(sample)[i].instrument == service_instruments()[i],
{
}

/// The instruments that count whole numbers take the same from every request, whatever
/// the sample; the others take the sample itself.
pub proof fn sample_reaches_float_instruments_only<V>(sample: V, other: V, i: int)
    requires
        0 <= i < request_measurements(sample).len(),
    ensures
        request_measurements(sample)[i].instrument.number == NumberKind::U64 ==> {
            request_measurements(sample)[i] == request_measurements(other)[i]
        },
        request_measurements(sample)[i].instrument.number == NumberKind::F64 ==> {
            request_measurements(sample)[i].amount == Amount::Sample(sample)
        },
{
}

} // verus!
