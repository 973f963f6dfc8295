//! The instruments of the service.

use crate::aggregation::{
    aggregation_named, ending, ending_decides, three_endings_decide, Aggregation,
};
use vstd::prelude::*;
use vstd::string::*;

verus! {

/// The numbers that an instrument takes.
#[derive(Copy, Clone, Debug, PartialEq, Eq, Structural)]
pub enum NumberKind {
    U64,
    F64,
}

/// The kinds of instruments.
#[derive(Copy, Clone, Debug, PartialEq, Eq, Structural)]
pub enum InstrumentKind {
    Counter,
    Histogram,
    ObservableCounter,
    ObservableGauge,
    ObservableUpDownCounter,
    UpDownCounter,
}

/// The call by which an instrument takes a number.
#[derive(Copy, Clone, Debug, PartialEq, Eq, Structural)]
pub enum Operation {
    Add,
    Record,
    Observe,
}

/// An instrument, and the aggregation that its name asks for.
#[derive(Copy, Clone, Debug, PartialEq, Eq, Structural)]
pub struct Instrument {
    pub number: NumberKind,
    pub kind: InstrumentKind,
    pub aggregation: Aggregation,
}

/// How names write a number kind.
pub open spec fn number_word(number: NumberKind) -> Seq<char> {
    match number {
        NumberKind::U64 => "u64"@,
        NumberKind::F64 => "f64"@,
    }
}

/// How names write an instrument kind.
pub open spec fn kind_word(kind: InstrumentKind) -> Seq<char> {
    match kind {
        InstrumentKind::Counter => "counter"@,
        InstrumentKind::Histogram => "histogram"@,
        InstrumentKind::ObservableCounter => "observable_counter"@,
        InstrumentKind::ObservableGauge => "observable_gauge"@,
        InstrumentKind::ObservableUpDownCounter => "observable_up_down_counter"@,
        InstrumentKind::UpDownCounter => "up_down_counter"@,
    }
}

/// The name of an instrument: its number kind, its kind and its aggregation, with dots
/// between them.
pub open spec fn instrument_name(instrument: Instrument) -> Seq<char> {
    number_word(instrument.number) + "."@ + kind_word(instrument.kind) + ending(
        instrument.aggregation,
    )
}

/// The operation of an instrument kind.
pub open spec fn operation_of(kind: InstrumentKind) -> Operation {
    match kind {
        InstrumentKind::Counter | InstrumentKind::UpDownCounter => Operation::Add,
        InstrumentKind::Histogram => Operation::Record,
        InstrumentKind::ObservableCounter
        | InstrumentKind::ObservableGauge
        | InstrumentKind::ObservableUpDownCounter => Operation::Observe,
    }
}

impl Instrument {
    /// The name under which the instrument is registered.
    pub fn name(&self) -> (name: String)
        ensures
            name@ == instrument_name(*self),
            name@[3] == '.',
            name@.take(3) == "u64"@ <==> self.number == NumberKind::U64,
            name@.take(3) == "f64"@ <==> self.number == NumberKind::F64,
            self.kind == InstrumentKind::Counter ==> "counter"@.is_prefix_of(name@.skip(4)),
            self.kind == InstrumentKind::Histogram ==> "histogram"@.is_prefix_of(name@.skip(4)),
            self.kind == InstrumentKind::ObservableCounter
                ==> "observable_counter"@.is_prefix_of(name@.skip(4)),
            self.kind == InstrumentKind::ObservableGauge
                ==> "observable_gauge"@.is_prefix_of(name@.skip(4)),
            self.kind == InstrumentKind::ObservableUpDownCounter
                ==> "observable_up_down_counter"@.is_prefix_of(name@.skip(4)),
            self.kind == InstrumentKind::UpDownCounter
                ==> "up_down_counter"@.is_prefix_of(name@.skip(4)),
            ".sum"@.is_suffix_of(name@) <==> self.aggregation == Aggregation::Sum,
            ".last"@.is_suffix_of(name@) <==> self.aggregation == Aggregation::LastValue,
            ".histogram"@.is_suffix_of(name@) <==> self.aggregation == Aggregation::Histogram,
            name@.len() == 4 + (match self.kind {
                InstrumentKind::Counter => 7int,
                InstrumentKind::Histogram => 9,
                InstrumentKind::ObservableCounter => 18,
                InstrumentKind::ObservableGauge => 16,
                InstrumentKind::ObservableUpDownCounter => 26,
                InstrumentKind::UpDownCounter => 15,
            }) + (match self.aggregation {
                Aggregation::Sum => 4int,
                Aggregation::LastValue => 5,
                Aggregation::Histogram => 10,
            }),
    {
        proof {
            name_spells_the_instrument(*self);
        }
        let number = match self.number {
            NumberKind::U64 => "u64",
            NumberKind::F64 => "f64",
        };
        let kind = match self.kind {
            InstrumentKind::Counter => "counter",
            InstrumentKind::Histogram => "histogram",
            InstrumentKind::ObservableCounter => "observable_counter",
            InstrumentKind::ObservableGauge => "observable_gauge",
            InstrumentKind::ObservableUpDownCounter => "observable_up_down_counter",
            InstrumentKind::UpDownCounter => "up_down_counter",
        };
        let ending = match self.aggregation {
            Aggregation::Sum => ".sum",
            Aggregation::LastValue => ".last",
            Aggregation::Histogram => ".histogram",
        };
        number.to_owned().concat(".").concat(kind).concat(ending)
    }

    /// The description under which the instrument is registered.
    pub fn description(&self) -> (description: &'static str)
        ensures
            description@ == "Request hit counter"@,
    {
        "Request hit counter"
    }

    /// The unit under which the instrument is registered.
    pub fn unit(&self) -> (unit: &'static str)
        ensures
            unit@ == "r"@,
    {
        "r"
    }

    /// The call by which the instrument takes a number.
    pub fn operation(&self) -> (operation: Operation)
        ensures
            operation == operation_of(self.kind),
            operation == Operation::Add <==> (self.kind == InstrumentKind::Counter || self.kind
                == InstrumentKind::UpDownCounter),
            operation == Operation::Record <==> self.kind == InstrumentKind::Histogram,
            operation == Operation::Observe <==> (self.kind == InstrumentKind::ObservableCounter
                || self.kind == InstrumentKind::ObservableGauge || self.kind
                == InstrumentKind::ObservableUpDownCounter),
    {
        match self.kind {
            InstrumentKind::Counter => Operation::Add,
            InstrumentKind::Histogram => Operation::Record,
            InstrumentKind::ObservableCounter => Operation::Observe,
            InstrumentKind::ObservableGauge => Operation::Observe,
            InstrumentKind::ObservableUpDownCounter => Operation::Observe,
            InstrumentKind::UpDownCounter => Operation::Add,
        }
    }
}

/// The number kinds and instrument kinds that the service has, in the order in which a
/// request reaches them.
pub open spec fn families() -> Seq<(NumberKind, InstrumentKind)> {
    seq![
        (NumberKind::U64, InstrumentKind::Counter),
        (NumberKind::U64, InstrumentKind::Histogram),
        (NumberKind::U64, InstrumentKind::ObservableCounter),
        (NumberKind::U64, InstrumentKind::ObservableGauge),
        (NumberKind::F64, InstrumentKind::Counter),
        (NumberKind::F64, InstrumentKind::Histogram),
        (NumberKind::F64, InstrumentKind::ObservableCounter),
        (NumberKind::F64, InstrumentKind::ObservableGauge),
        (NumberKind::F64, InstrumentKind::ObservableUpDownCounter),
        (NumberKind::F64, InstrumentKind::UpDownCounter),
    ]
}

/// The aggregations, in the order in which a request reaches them.
pub open spec fn aggregations() -> Seq<Aggregation> {
    seq![Aggregation::Sum, Aggregation::LastValue, Aggregation::Histogram]
}

/// The instruments of the service, in the order in which a request reaches them: those
/// of a family, one for each aggregation, and then those of the next.
pub open spec fn service_instruments() -> Seq<Instrument> {
    Seq::new(
        30,
        |i: int|
            Instrument {
                number: families()[i / 3].0,
                kind: families()[i / 3].1,
                aggregation: aggregations()[i % 3],
            },
    )
}

/// The instruments of the service.
pub fn instruments() -> (instruments: Vec<Instrument>)
    ensures
        instruments@ == service_instruments(),
        instruments.len() == 30,
        forall|i: int|
            0 <= i < 30 ==> (#[trigger] instruments@[i]).number == (if i < 12 {
                NumberKind::U64
            } else {
                NumberKind::F64
            }),
        forall|i: int|
            0 <= i < 30 ==> (#[trigger] instruments@[i]).kind == (if i < 3 || 12 <= i < 15 {
                InstrumentKind::Counter
            } else if i < 6 || 15 <= i < 18 {
                InstrumentKind::Histogram
            } else if i < 9 || 18 <= i < 21 {
                InstrumentKind::ObservableCounter
            } else if i < 12 || 21 <= i < 24 {
                InstrumentKind::ObservableGauge
            } else if i < 27 {
                InstrumentKind::ObservableUpDownCounter
            } else {
                InstrumentKind::UpDownCounter
            }),
        forall|i: int|
            0 <= i < 30 ==> (#[trigger] instruments@[i]).aggregation == (if i % 3 == 0 {
                Aggregation::Sum
            } else if i % 3 == 1 {
                Aggregation::LastValue
            } else {
                Aggregation::Histogram
            }),
{
    let families: Vec<(NumberKind, InstrumentKind)> = vec![
        (NumberKind::U64, InstrumentKind::Counter),
        (NumberKind::U64, InstrumentKind::Histogram),
        (NumberKind::U64, InstrumentKind::ObservableCounter),
        (NumberKind::U64, InstrumentKind::ObservableGauge),
        (NumberKind::F64, InstrumentKind::Counter),
        (NumberKind::F64, InstrumentKind::Histogram),
        (NumberKind::F64, InstrumentKind::ObservableCounter),
        (NumberKind::F64, InstrumentKind::ObservableGauge),
        (NumberKind::F64, InstrumentKind::ObservableUpDownCounter),
        (NumberKind::F64, InstrumentKind::UpDownCounter),
    ];
    assert(families@ =~= self::families());
    let mut instruments: Vec<Instrument> = Vec::new();
    for i in 0..families.len()
        invariant
            families@ == self::families(),
            instruments@ == service_instruments().take(3 * i),
    {
        let (number, kind) = families[i];
        instruments.push(Instrument { number, kind, aggregation: Aggregation::Sum });
        instruments.push(Instrument { number, kind, aggregation: Aggregation::LastValue });
        instruments.push(Instrument { number, kind, aggregation: Aggregation::Histogram });
        assert(instruments@ =~= service_instruments().take(3 * (i + 1)));
    }
    assert(instruments@ =~= service_instruments());
    instruments
}

/// The name of an instrument asks for the aggregation that the instrument is meant to
/// have. So the selector has an aggregator for every instrument.
pub proof fn name_asks_for_aggregation(instrument: Instrument)
    ensures
        aggregation_named(instrument_name(instrument)) == Some(instrument.aggregation),
{
    let name = instrument_name(instrument);
    let end = ending(instrument.aggregation);
    assert(end =~= name.subrange(name.len() - end.len(), name.len() as int));
    ending_decides(name, instrument.aggregation);
}

/// The words of names, by their lengths and the letters that tell them apart.
proof fn lemma_words(number: NumberKind, kind: InstrumentKind, aggregation: Aggregation)
    ensures
        "."@.len() == 1,
        number_word(number).len() == 3,
        number_word(number)[0] == (if number == NumberKind::U64 {
            'u'
        } else {
            'f'
        }),
        kind_word(kind).len() == (match kind {
            InstrumentKind::Counter => 7nat,
            InstrumentKind::Histogram => 9,
            InstrumentKind::ObservableCounter => 18,
            InstrumentKind::ObservableGauge => 16,
            InstrumentKind::ObservableUpDownCounter => 26,
            InstrumentKind::UpDownCounter => 15,
        }),
        ending(aggregation).len() == (match aggregation {
            Aggregation::Sum => 4nat,
            Aggregation::LastValue => 5,
            Aggregation::Histogram => 10,
        }),
{
    reveal_strlit(".");
    reveal_strlit("u64");
    reveal_strlit("f64");
    reveal_strlit("counter");
    reveal_strlit("histogram");
    reveal_strlit("observable_counter");
    reveal_strlit("observable_gauge");
    reveal_strlit("observable_up_down_counter");
    reveal_strlit("up_down_counter");
    reveal_strlit(".sum");
    reveal_strlit(".last");
    reveal_strlit(".histogram");
}

/// The name of an instrument says in turn what numbers it takes, of what kind it is and how
/// it is aggregated, and nothing else.
pub proof fn name_spells_the_instrument(instrument: Instrument)
    ensures
        instrument_name(instrument).take(3) == "u64"@ <==> instrument.number == NumberKind::U64,
        instrument_name(instrument).take(3) == "f64"@ <==> instrument.number == NumberKind::F64,
        instrument_name(instrument)[3] == '.',
        instrument.kind == InstrumentKind::Counter ==> "counter"@.is_prefix_of(
            instrument_name(instrument).skip(4),
        ),
        instrument.kind == InstrumentKind::Histogram ==> "histogram"@.is_prefix_of(
            instrument_name(instrument).skip(4),
        ),
        instrument.kind == InstrumentKind::ObservableCounter ==> "observable_counter"@.is_prefix_of(
            instrument_name(instrument).skip(4),
        ),
        instrument.kind == InstrumentKind::ObservableGauge ==> "observable_gauge"@.is_prefix_of(
            instrument_name(instrument).skip(4),
        ),
        instrument.kind == InstrumentKind::ObservableUpDownCounter
            ==> "observable_up_down_counter"@.is_prefix_of(instrument_name(instrument).skip(4)),
        instrument.kind == InstrumentKind::UpDownCounter ==> "up_down_counter"@.is_prefix_of(
            instrument_name(instrument).skip(4),
        ),
        ".sum"@.is_suffix_of(instrument_name(instrument)) <==> instrument.aggregation
            == Aggregation::Sum,
        ".last"@.is_suffix_of(instrument_name(instrument)) <==> instrument.aggregation
            == Aggregation::LastValue,
        ".histogram"@.is_suffix_of(instrument_name(instrument)) <==> instrument.aggregation
            == Aggregation::Histogram,
        instrument_name(instrument).len() == 4 + (match instrument.kind {
            InstrumentKind::Counter => 7int,
            InstrumentKind::Histogram => 9,
            InstrumentKind::ObservableCounter => 18,
            InstrumentKind::ObservableGauge => 16,
            InstrumentKind::ObservableUpDownCounter => 26,
            InstrumentKind::UpDownCounter => 15,
        }) + (match instrument.aggregation {
            Aggregation::Sum => 4int,
            Aggregation::LastValue => 5,
            Aggregation::Histogram => 10,
        }),
{
    let name = instrument_name(instrument);
    let word = kind_word(instrument.kind);
    lemma_words(instrument.number, instrument.kind, instrument.aggregation);
    name_asks_for_aggregation(instrument);
    three_endings_decide(name);
    reveal_strlit(".");
    reveal_strlit("u64");
    reveal_strlit("f64");
    assert(name.take(3) =~= number_word(instrument.number));
    assert("u64"@[0] != "f64"@[0]);
    assert(word =~= name.skip(4).take(word.len() as int));
}

/// No two instruments share a name.
pub proof fn names_tell_instruments_apart(a: Instrument, b: Instrument)
    requires
        instrument_name(a) == instrument_name(b),
    ensures
        a == b,
{
    name_asks_for_aggregation(a);
    name_asks_for_aggregation(b);
    lemma_words(a.number, a.kind, a.aggregation);
    lemma_words(b.number, b.kind, b.aggregation);
    assert(instrument_name(a)[0] == number_word(a.number)[0]);
    assert(instrument_name(b)[0] == number_word(b.number)[0]);
}

/// The service has no instrument twice, and so registers no name twice.
pub proof fn service_names_are_distinct(i: int, j: int)
    requires
        0 <= i < j < service_instruments().len(),
    ensures
        service_instruments()[i] != service_instruments()[j],
        instrument_name(service_instruments()[i]) != instrument_name(service_instruments()[j]),
{
    let a = service_instruments()[i];
    let b = service_instruments()[j];
    if a == b {
        assert(i % 3 == j % 3);
        assert(families()[i / 3] == families()[j / 3]);
        assert(i / 3 == j / 3);
    }
    if instrument_name(a) == instrument_name(b) {
        names_tell_instruments_apart(a, b);
    }
}

/// Every family of instruments has one for every aggregation.
pub proof fn families_have_every_aggregation(family: int, aggregation: Aggregation)
    requires
        0 <= family < families().len(),
    ensures
        service_instruments().contains(
            Instrument {
                number: families()[family].0,
                kind: families()[family].1,
                aggregation,
            },
        ),
{
    let place: int = match aggregation {
        Aggregation::Sum => 0,
        Aggregation::LastValue => 1,
        Aggregation::Histogram => 2,
    };
    let i = 3 * family + place;
    assert(i / 3 == family && i % 3 == place);
    assert(service_instruments()[i].aggregation == aggregation);
}

/// Each of the six kinds has an operation: what counts adds, what is observed is observed,
/// and a histogram records.
pub proof fn operation_follows_kind(kind: InstrumentKind)
    ensures
        operation_of(kind) == Operation::Add <==> (kind == InstrumentKind::Counter || kind
            == InstrumentKind::UpDownCounter),
        operation_of(kind) == Operation::Record <==> kind == InstrumentKind::Histogram,
        operation_of(kind) == Operation::Observe <==> (kind == InstrumentKind::ObservableCounter
            || kind == InstrumentKind::ObservableGauge || kind
            == InstrumentKind::ObservableUpDownCounter),
{
}

/// The service has every instrument there is, except those that would go both up and down on
/// whole numbers.
pub proof fn service_has_all_but_unsigned_up_and_down(instrument: Instrument)
    ensures
        service_instruments().contains(instrument) <==> !(instrument.number == NumberKind::U64 && (
        instrument.kind == InstrumentKind::UpDownCounter || instrument.kind
            == InstrumentKind::ObservableUpDownCounter)),
{
    let family: int = match (instrument.number, instrument.kind) {
        (NumberKind::U64, InstrumentKind::Counter) => 0,
        (NumberKind::U64, InstrumentKind::Histogram) => 1,
        (NumberKind::U64, InstrumentKind::ObservableCounter) => 2,
        (NumberKind::U64, InstrumentKind::ObservableGauge) => 3,
        (NumberKind::U64, _) => -1,
        (NumberKind::F64, InstrumentKind::Counter) => 4,
        (NumberKind::F64, InstrumentKind::Histogram) => 5,
        (NumberKind::F64, InstrumentKind::ObservableCounter) => 6,
        (NumberKind::F64, InstrumentKind::ObservableGauge) => 7,
        (NumberKind::F64, InstrumentKind::ObservableUpDownCounter) => 8,
        (NumberKind::F64, InstrumentKind::UpDownCounter) => 9,
    };
    if family >= 0 {
        families_have_every_aggregation(family, instrument.aggregation);
    }
}

/// The instruments of a family stand together: three in a row take the same numbers and are
/// of the same kind, and differ in their aggregation, which comes in the same order in every
/// family. Those for whole numbers come first.
pub proof fn families_stand_together(i: int)
    requires
        0 <= i < 10,
    ensures
        service_instruments().len() == 30,
        service_instruments()[3 * i].aggregation == Aggregation::Sum,
        service_instruments()[3 * i + 1] == (Instrument {
            aggregation: Aggregation::LastValue,
            ..service_instruments()[3 * i]
        }),
        service_instruments()[3 * i + 2] == (Instrument {
            aggregation: Aggregation::Histogram,
            ..service_instruments()[3 * i]
        }),
        service_instruments()[3 * i].number == NumberKind::U64 <==> i < 4,
{
}

/// The instruments that go both up and down take floating-point numbers.
pub proof fn up_and_down_takes_floats(i: int)
    requires
        0 <= i < service_instruments().len(),
        service_instruments()[i].kind == InstrumentKind::UpDownCounter
            || service_instruments()[i].kind == InstrumentKind::ObservableUpDownCounter,
    ensures
        service_instruments()[i].number == NumberKind::F64,
{
}

} // verus!
