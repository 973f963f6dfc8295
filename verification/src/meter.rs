//! The meter that the service's instruments belong to.

use opentelemetry::metrics::Meter;
use vstd::prelude::*;

verus! {

#[verifier::external_type_specification]
#[verifier::external_body]
pub struct ExMeter(opentelemetry::metrics::Meter);

/// The name of the service's meter.
pub open spec fn meter_name() -> Seq<char> {
    "therock.metrics"@
}

/// `meter` is one that `opentelemetry::global::meter` gave when it was asked for `name`.
pub uninterp spec fn given_for(name: Seq<char>, meter: Meter) -> bool;

/// `opentelemetry::global::meter`: the meter that comes back is one given for `name`. The
/// provider that the process has installed by then makes it, so nothing is said of how
/// the meter records, nor that two calls give the same one.
#[verifier::external_body]
fn global_meter(name: &'static str) -> (meter: Meter)
    ensures
        given_for(name@, meter),
{
    opentelemetry::global::meter(name)
}

/// Where the service's meter is kept once it has been asked for.
pub struct MeterSlot {
    meter: Option<Meter>,
}

impl MeterSlot {
    /// A meter that is kept was given for the service's name.
    #[verifier::type_invariant]
    spec fn holds_the_service_meter(self) -> bool {
        self.meter is Some ==> given_for(meter_name(), self.meter->0)
    }

    /// The meter that is kept, if one is.
    pub closed spec fn kept(self) -> Option<Meter> {
        self.meter
    }

    /// A slot that keeps no meter yet.
    pub fn new() -> (slot: MeterSlot)
        ensures
            slot.kept() is None,
    {
        MeterSlot { meter: None }
    }
}

/// The meter that the service's instruments belong to. The first call asks the provider
/// that the process has installed by then; the meter that it gives is kept, and every
/// later call gives that one, whatever provider is installed in the meantime.
pub fn get_meter(slot: &mut MeterSlot) -> (meter: &Meter)
    ensures
        given_for(meter_name(), *meter),
        given_for("therock.metrics"@, *meter),
        final(slot).kept() == Some(*meter),
        old(slot).kept() is Some ==> final(slot).kept() == old(slot).kept(),
{
    proof {
        use_type_invariant(&*slot);
    }
    if slot.meter.is_none() {
        let meter = global_meter("therock.metrics");
        slot.meter = Some(meter);
    }
    slot.meter.as_ref().unwrap()
}

} // verus!
