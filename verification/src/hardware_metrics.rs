//! The hardware description of the machine, and the metric family that its
//! collector reports.

use vstd::prelude::*;
use crate::model::{LabelPair, Metric, MetricFamily, MetricType};
use crate::slug::{Slug, slug_of_lowercase_spec, slugify_spec};
use crate::text::spec_to_lowercase;

verus! {

/// The registry's error type, carried through unread.
#[verifier::external_type_specification]
#[verifier::external_body]
pub struct ExPrometheusError(prometheus::Error);

/// Why hardware metrics could not be set up.
#[derive(Debug)]
pub enum HardwareMetricsErr {
    /// A metric could not be created.
    ErrCreateMetric(prometheus::Error),
    /// The registry refused the hardware collector.
    ErrRegisterHardwareMetrics(prometheus::Error),
}

impl HardwareMetricsErr {
    /// The message that describes the error.
    pub fn message(&self) -> (m: &'static str)
        ensures
            m@ == (match self {
                HardwareMetricsErr::ErrCreateMetric(_) => "Failed creating metric"@,
                HardwareMetricsErr::ErrRegisterHardwareMetrics(_) =>
                    "Failed registering hardware metrics onto RegistryService"@,
            }),
    {
        match self {
            HardwareMetricsErr::ErrCreateMetric(_) => "Failed creating metric",
            HardwareMetricsErr::ErrRegisterHardwareMetrics(_) =>
                "Failed registering hardware metrics onto RegistryService",
        }
    }
}

/// The answer to registering the hardware collector: success, or the registry's
/// refusal wrapped as `ErrRegisterHardwareMetrics`.
pub fn register_hardware_metrics(registration: Result<(), prometheus::Error>) -> (r: Result<
    (),
    HardwareMetricsErr,
>)
    ensures
        match registration {
            Ok(()) => r is Ok,
            Err(e) => r == Err::<(), HardwareMetricsErr>(
                HardwareMetricsErr::ErrRegisterHardwareMetrics(e),
            ),
        },
{
    match registration {
        Ok(()) => Ok(()),
        Err(e) => Err(HardwareMetricsErr::ErrRegisterHardwareMetrics(e)),
    }
}

/// What the system reports of one CPU.
#[derive(Clone, Debug)]
pub struct CpuIdentity {
    pub vendor_id: String,
    pub brand: String,
}

/// The hardware description of a machine.
#[derive(Debug)]
pub struct HardwareSpecs {
    pub cpu_brand: String,
    pub cpu_vendor_id: String,
    pub cpu_core_count: usize,
    pub memory_total_bytes: u64,
    pub disk_total_bytes: u64,
}

/// The total space of the largest disk, or 0 when there is no disk.
pub open spec fn is_largest_disk(spaces: Seq<u64>, largest: u64) -> bool {
    &&& spaces.len() == 0 ==> largest == 0
    &&& spaces.len() > 0 ==> spaces.contains(largest)
    &&& forall|i: int| 0 <= i < spaces.len() ==> #[trigger] spaces[i] <= largest
}

/// The name of the label that carries the CPU brand.
pub open spec fn cpu_brand_label_name() -> Seq<char> {
    "something_something"@
}

/// The labels of the CPU metric of a machine whose CPU brand is `brand`.
pub open spec fn cpu_labels(brand: Seq<char>) -> Seq<(Seq<char>, Seq<char>)> {
    seq![(cpu_brand_label_name(), slugify_spec(brand)), ("cpu_vendor_id"@, "hello"@)]
}

/// The CPU metric carries two labels: `something_something`, whose value is the
/// whole slug of the lowercased CPU brand, and `cpu_vendor_id` with value
/// `hello`.
pub proof fn lemma_cpu_labels(brand: Seq<char>)
    ensures
        cpu_labels(brand).len() == 2,
        cpu_labels(brand)[0] == ("something_something"@, slug_of_lowercase_spec(
            spec_to_lowercase(brand),
        )),
        cpu_labels(brand)[1] == ("cpu_vendor_id"@, "hello"@),
{
}

impl HardwareSpecs {
    /// The hardware description built from what the system reports: the vendor
    /// and brand of the first CPU (`unknown_cpu_vendor_id` and
    /// `unknown_cpu_model` when there is none), the number of physical cores (0
    /// when unknown), the total memory, and the total space of the largest disk
    /// (0 when there is none).
    pub fn new(
        cpus: &Vec<CpuIdentity>,
        physical_core_count: Option<usize>,
        total_memory: u64,
        disk_total_spaces: &Vec<u64>,
    ) -> (specs: HardwareSpecs)
        ensures
            specs.cpu_vendor_id@ == (if cpus@.len() > 0 {
                cpus@[0].vendor_id@
            } else {
                "unknown_cpu_vendor_id"@
            }),
            specs.cpu_brand@ == (if cpus@.len() > 0 {
                cpus@[0].brand@
            } else {
                "unknown_cpu_model"@
            }),
            specs.cpu_core_count == (match physical_core_count {
                Some(n) => n,
                None => 0,
            }),
            specs.memory_total_bytes == total_memory,
            is_largest_disk(disk_total_spaces@, specs.disk_total_bytes),
    {
        let cpu_vendor_id = if cpus.len() > 0 {
            cpus[0].vendor_id.clone()
        } else {
            "unknown_cpu_vendor_id".to_owned()
        };
        let cpu_brand = if cpus.len() > 0 {
            cpus[0].brand.clone()
        } else {
            "unknown_cpu_model".to_owned()
        };
        let cpu_core_count = match physical_core_count {
            Some(n) => n,
            None => 0,
        };
        let mut disk_total_bytes: u64 = 0;
        let mut i: usize = 0;
        while i < disk_total_spaces.len()
            invariant
                0 <= i <= disk_total_spaces@.len(),
                is_largest_disk(disk_total_spaces@.take(i as int), disk_total_bytes),
            decreases disk_total_spaces@.len() - i,
        {
            let space = disk_total_spaces[i];
            let ghost before = disk_total_spaces@.take(i as int);
            assert(disk_total_spaces@.take(i + 1) == before.push(space));
            if i == 0 || space > disk_total_bytes {
                disk_total_bytes = space;
            }
            i = i + 1;
            assert(disk_total_spaces@.take(i as int)[i - 1] == space);
        }
        assert(disk_total_spaces@.take(i as int) == disk_total_spaces@);
        HardwareSpecs {
            cpu_brand,
            cpu_vendor_id,
            cpu_core_count,
            memory_total_bytes: total_memory,
            disk_total_bytes,
        }
    }

    /// A label pair with the given name and value.
    pub fn label(name: &str, value: &str) -> (pair: LabelPair)
        ensures
            pair@ == (name@, value@),
    {
        let mut pair = LabelPair::new();
        pair.name = name.to_owned();
        pair.value = value.to_owned();
        pair
    }

    /// The CPU metric: the slug of the CPU brand and the vendor label.
    pub fn cpu_metric(&self) -> (metric: Metric)
        ensures
            metric@ == cpu_labels(self.cpu_brand@),
            metric@.len() == 2,
            metric@[0].0 == "something_something"@,
            metric@[0].1 == slug_of_lowercase_spec(spec_to_lowercase(self.cpu_brand@)),
            metric@[0].1.len() == slugify_spec(self.cpu_brand@).len(),
            metric@[1] == ("cpu_vendor_id"@, "hello"@),
    {
        let mut metric = Metric::new();
        let brand_slug = self.cpu_brand.to_slug();
        metric.label = vec![
            Self::label("something_something", brand_slug.as_str()),
            Self::label("cpu_vendor_id", "hello"),
        ];
        assert(metric@ =~= cpu_labels(self.cpu_brand@));
        metric
    }

    /// The CPU family: `cpu_specs`, a counter holding the CPU metric.
    pub fn cpu_metric_family(&self) -> (family: MetricFamily)
        ensures
            family@.name == "cpu_specs"@,
            family@.help == "CPU specs (brand,vendor,cores)"@,
            family@.field_type == MetricType::Counter,
            family@.metric == seq![cpu_labels(self.cpu_brand@)],
    {
        let mut family = MetricFamily::new();
        family.name = "cpu_specs".to_owned();
        family.help = "CPU specs (brand,vendor,cores)".to_owned();
        family.field_type = MetricType::Counter;
        family.metric = vec![self.cpu_metric()];
        assert(family@.metric =~= seq![cpu_labels(self.cpu_brand@)]);
        family
    }

    /// The memory metric: one label pair with an empty name and value.
    pub fn mem_metric(&self) -> (metric: Metric)
        ensures
            metric@ == seq![(Seq::<char>::empty(), Seq::<char>::empty())],
    {
        let mut metric = Metric::new();
        let label = LabelPair::new();
        metric.label = vec![label];
        assert(metric@ =~= seq![(Seq::<char>::empty(), Seq::<char>::empty())]);
        metric
    }

    /// The memory family: an empty counter family.
    pub fn mem_metric_family(&self) -> (family: MetricFamily)
        ensures
            family@.name == Seq::<char>::empty(),
            family@.help == Seq::<char>::empty(),
            family@.field_type == MetricType::Counter,
            family@.metric == Seq::<Seq<(Seq<char>, Seq<char>)>>::empty(),
    {
        MetricFamily::new()
    }

    /// What the collector reports: the CPU family alone.
    pub fn collect(&self) -> (families: Vec<MetricFamily>)
        ensures
            families@.len() == 1,
            families@[0]@.name == "cpu_specs"@,
            families@[0]@.help == "CPU specs (brand,vendor,cores)"@,
            families@[0]@.field_type == MetricType::Counter,
            families@[0]@.metric == seq![cpu_labels(self.cpu_brand@)],
    {
        let mut families = Vec::new();
        families.push(self.cpu_metric_family());
        families
    }
}

} // verus!
