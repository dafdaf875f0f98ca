use vstd::prelude::*;

use crate::key::Key;

verus! {

/// What a metrics backend offers: attach attributes to a metric name, and
/// register counters, gauges and histograms under a key, each giving back a
/// handle.
pub trait Recorder {
    /// What can be attached to a metric name, such as a description.
    type Attribute;
    type Counter;
    type Gauge;
    type Histogram;

    fn set_counter_attribute(&self, key: &str, attribute: Self::Attribute);

    fn set_gauge_attribute(&self, key: &str, attribute: Self::Attribute);

    fn set_histogram_attribute(&self, key: &str, attribute: Self::Attribute);

    fn register_counter(&self, key: &Key) -> Self::Counter;

    fn register_gauge(&self, key: &Key) -> Self::Gauge;

    fn register_histogram(&self, key: &Key) -> Self::Histogram;
}

/// A recorder that keeps nothing: every call is accepted and has no effect.
pub struct NoopRecorder;

impl Recorder for NoopRecorder {
    type Attribute = ();
    type Counter = ();
    type Gauge = ();
    type Histogram = ();

    fn set_counter_attribute(&self, key: &str, attribute: ()) {
    }

    fn set_gauge_attribute(&self, key: &str, attribute: ()) {
    }

    fn set_histogram_attribute(&self, key: &str, attribute: ()) {
    }

    fn register_counter(&self, key: &Key) {
    }

    fn register_gauge(&self, key: &Key) {
    }

    fn register_histogram(&self, key: &Key) {
    }
}

} // verus!
