use therock_metrics::aggregation::{Aggregation, AggregatorPlan, AggregatorSelector};
use therock_metrics::instrument::{
    instruments, Instrument, InstrumentKind, NumberKind, Operation,
};
use therock_metrics::request::{hello, Amount, Attribute, AttributeValue};
use therock_metrics::text::{ends_with, same_text};

const NAMES: [&str; 30] = [
    "u64.counter.sum",
    "u64.counter.last",
    "u64.counter.histogram",
    "u64.histogram.sum",
    "u64.histogram.last",
    "u64.histogram.histogram",
    "u64.observable_counter.sum",
    "u64.observable_counter.last",
    "u64.observable_counter.histogram",
    "u64.observable_gauge.sum",
    "u64.observable_gauge.last",
    "u64.observable_gauge.histogram",
    "f64.counter.sum",
    "f64.counter.last",
    "f64.counter.histogram",
    "f64.histogram.sum",
    "f64.histogram.last",
    "f64.histogram.histogram",
    "f64.observable_counter.sum",
    "f64.observable_counter.last",
    "f64.observable_counter.histogram",
    "f64.observable_gauge.sum",
    "f64.observable_gauge.last",
    "f64.observable_gauge.histogram",
    "f64.observable_up_down_counter.sum",
    "f64.observable_up_down_counter.last",
    "f64.observable_up_down_counter.histogram",
    "f64.up_down_counter.sum",
    "f64.up_down_counter.last",
    "f64.up_down_counter.histogram",
];

#[test]
fn text_endings() {
    assert!(ends_with("a.sum", ".sum"));
    assert!(ends_with(".sum", ".sum"));
    assert!(!ends_with("sum", ".sum"));
    assert!(!ends_with("a.sums", ".sum"));
    assert!(ends_with("\u{e9}.sum", ".sum"));
    assert!(ends_with("a", ""));
    assert!(same_text("a", "a"));
    assert!(!same_text("a", "A"));
}

#[test]
fn instrument_names_in_order() {
    let names: Vec<String> = instruments().iter().map(|instrument| instrument.name()).collect();
    assert_eq!(names, NAMES);
}

#[test]
fn up_down_counters_are_floats() {
    for instrument in instruments() {
        if instrument.kind == InstrumentKind::UpDownCounter
            || instrument.kind == InstrumentKind::ObservableUpDownCounter
        {
            assert_eq!(instrument.number, NumberKind::F64);
        }
    }
}

#[test]
fn instrument_settings() {
    for instrument in instruments() {
        assert_eq!(instrument.description(), "Request hit counter");
        assert_eq!(instrument.unit(), "r");
    }
}

#[test]
fn every_instrument_has_its_aggregator() {
    for instrument in instruments() {
        let name = instrument.name();
        assert_eq!(Aggregation::of_name(&name), Some(instrument.aggregation));
        let plan = AggregatorSelector.aggregator_for(&name).unwrap();
        match instrument.aggregation {
            Aggregation::Sum => assert!(matches!(plan, AggregatorPlan::Sum)),
            Aggregation::LastValue => assert!(matches!(plan, AggregatorPlan::LastValue)),
            Aggregation::Histogram => {
                assert!(matches!(plan, AggregatorPlan::Histogram { .. }))
            }
        }
    }
}

#[test]
fn names_that_ask_for_no_aggregation() {
    assert_eq!(Aggregation::of_name(""), None);
    assert_eq!(Aggregation::of_name("u64.counter"), None);
    assert_eq!(Aggregation::of_name("u64.counter.SUM"), None);
    assert_eq!(Aggregation::of_name("u64.counter.sum.disabled"), None);
    assert_eq!(Aggregation::of_name("histogram"), None);
}

#[test]
fn only_the_ending_counts() {
    assert_eq!(Aggregation::of_name(".sum.last"), Some(Aggregation::LastValue));
    assert_eq!(Aggregation::of_name(".last.sum"), Some(Aggregation::Sum));
    assert_eq!(Aggregation::of_name(".sum.histogram"), Some(Aggregation::Histogram));
}

#[test]
fn histogram_boundaries_rise_by_tenths() {
    let plan = AggregatorSelector.aggregator_for("latency.histogram").unwrap();
    match plan {
        AggregatorPlan::Histogram { boundaries } => {
            assert_eq!(boundaries.len(), 100);
            for (i, tenths) in boundaries.iter().enumerate() {
                assert_eq!(*tenths as usize, i);
            }
        }
        other => panic!("{other:?}"),
    }
}

#[test]
fn operations_by_kind() {
    let operation = |kind: InstrumentKind| {
        Instrument { number: NumberKind::F64, kind, aggregation: Aggregation::Sum }.operation()
    };
    assert_eq!(operation(InstrumentKind::Counter), Operation::Add);
    assert_eq!(operation(InstrumentKind::UpDownCounter), Operation::Add);
    assert_eq!(operation(InstrumentKind::Histogram), Operation::Record);
    assert_eq!(operation(InstrumentKind::ObservableCounter), Operation::Observe);
    assert_eq!(operation(InstrumentKind::ObservableGauge), Operation::Observe);
    assert_eq!(operation(InstrumentKind::ObservableUpDownCounter), Operation::Observe);
}

#[test]
fn request_is_described_and_answered() {
    let handled = hello("GET", "/status", 0.5f64);
    assert_eq!(handled.body, "Hello World!");
    assert_eq!(handled.status, 200);
    let expected = vec![
        Attribute {
            key: "method".to_string(),
            value: AttributeValue::Text("GET".to_string()),
        },
        Attribute {
            key: "path".to_string(),
            value: AttributeValue::Text("/status".to_string()),
        },
        Attribute { key: "status".to_string(), value: AttributeValue::Whole(200) },
        Attribute { key: "failed".to_string(), value: AttributeValue::Flag(false) },
    ];
    assert_eq!(handled.attributes, expected);
}

#[test]
fn request_reaches_the_instruments_in_order() {
    let handled = hello("POST", "/", 0.25f64);
    let all = instruments();
    assert_eq!(handled.measurements.len(), all.len());
    for (measurement, instrument) in handled.measurements.iter().zip(all.iter()) {
        assert_eq!(measurement.instrument, *instrument);
        assert_eq!(measurement.operation, instrument.operation());
    }
}

#[test]
fn whole_instruments_take_one_and_others_the_sample() {
    let handled = hello("GET", "/", 0.25f64);
    for (i, measurement) in handled.measurements.iter().enumerate() {
        if i < 12 {
            assert_eq!(measurement.amount, Amount::Whole(1));
        } else {
            assert_eq!(measurement.amount, Amount::Sample(0.25));
        }
    }
}

#[test]
fn instrument_names_are_distinct() {
    let names: std::collections::HashSet<String> =
        instruments().iter().map(|instrument| instrument.name()).collect();
    assert_eq!(names.len(), 30);
}

#[test]
fn every_family_has_every_aggregation() {
    let all = instruments();
    for instrument in &all {
        for aggregation in [Aggregation::Sum, Aggregation::LastValue, Aggregation::Histogram] {
            let sibling = Instrument { aggregation, ..*instrument };
            assert!(all.contains(&sibling));
        }
    }
}

#[test]
fn sample_does_not_change_whole_measurements() {
    let one = hello("GET", "/", 0.25f64);
    let other = hello("GET", "/", 0.75f64);
    assert_eq!(one.measurements[..12], other.measurements[..12]);
    assert_ne!(one.measurements[12], other.measurements[12]);
}
