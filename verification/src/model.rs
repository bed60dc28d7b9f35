//! The metric data that a collector hands to a registry: families of metrics,
//! each metric a list of label pairs. Plain values, converted to the registry's
//! wire types at the edge.

use vstd::prelude::*;

verus! {

/// The kind of a metric family.
#[derive(Clone, Copy, Debug, PartialEq, Eq, Structural)]
pub enum MetricType {
    Counter,
    Gauge,
    Summary,
    Untyped,
    Histogram,
}

/// One label of a metric: a name and a value.
#[derive(Clone, Debug)]
pub struct LabelPair {
    pub name: String,
    pub value: String,
}

impl View for LabelPair {
    type V = (Seq<char>, Seq<char>);

    open spec fn view(&self) -> (Seq<char>, Seq<char>) {
        (self.name@, self.value@)
    }
}

/// One metric of a family, described by its labels.
#[derive(Clone, Debug)]
pub struct Metric {
    pub label: Vec<LabelPair>,
}

/// The labels of a list of label pairs, as (name, value) pairs.
pub open spec fn labels_view(labels: Seq<LabelPair>) -> Seq<(Seq<char>, Seq<char>)> {
    labels.map_values(|l: LabelPair| l@)
}

impl View for Metric {
    type V = Seq<(Seq<char>, Seq<char>)>;

    open spec fn view(&self) -> Seq<(Seq<char>, Seq<char>)> {
        labels_view(self.label@)
    }
}

/// A family of metrics: a name, a help text, a kind and its metrics.
#[derive(Clone, Debug)]
pub struct MetricFamily {
    pub name: String,
    pub help: String,
    pub field_type: MetricType,
    pub metric: Vec<Metric>,
}

/// A metric family as plain mathematical values.
pub struct MetricFamilyView {
    pub name: Seq<char>,
    pub help: Seq<char>,
    pub field_type: MetricType,
    pub metric: Seq<Seq<(Seq<char>, Seq<char>)>>,
}

impl View for MetricFamily {
    type V = MetricFamilyView;

    open spec fn view(&self) -> MetricFamilyView {
        MetricFamilyView {
            name: self.name@,
            help: self.help@,
            field_type: self.field_type,
            metric: self.metric@.map_values(|m: Metric| m@),
        }
    }
}

impl LabelPair {
    /// A label pair whose name and value are both empty.
    pub fn new() -> (pair: LabelPair)
        ensures
            pair@ == (Seq::<char>::empty(), Seq::<char>::empty()),
    {
        LabelPair { name: String::new(), value: String::new() }
    }
}

impl Metric {
    /// A metric without labels.
    pub fn new() -> (metric: Metric)
        ensures
            metric@ == Seq::<(Seq<char>, Seq<char>)>::empty(),
    {
        let metric = Metric { label: Vec::new() };
        assert(metric@ =~= Seq::<(Seq<char>, Seq<char>)>::empty());
        metric
    }
}

impl MetricFamily {
    /// A family with an empty name and help text, of kind counter, without
    /// metrics.
    pub fn new() -> (family: MetricFamily)
        ensures
            family@.name == Seq::<char>::empty(),
            family@.help == Seq::<char>::empty(),
            family@.field_type == MetricType::Counter,
            family@.metric == Seq::<Seq<(Seq<char>, Seq<char>)>>::empty(),
    {
        let family = MetricFamily {
            name: String::new(),
            help: String::new(),
            field_type: MetricType::Counter,
            metric: Vec::new(),
        };
        assert(family@.metric =~= Seq::<Seq<(Seq<char>, Seq<char>)>>::empty());
        family
    }
}

} // verus!
