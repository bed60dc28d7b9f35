use sysinfo::{CpuRefreshKind, Disks, MemoryRefreshKind, RefreshKind, System};
use iota_metrics::hardware_metrics::{register_hardware_metrics, CpuIdentity, HardwareMetricsErr, HardwareSpecs};
use iota_metrics::model::{LabelPair, Metric, MetricFamily, MetricType};

fn cpu(vendor: &str, brand: &str) -> CpuIdentity {
    CpuIdentity { vendor_id: vendor.to_string(), brand: brand.to_string() }
}

fn labels(metric: &Metric) -> Vec<(String, String)> {
    metric.label.iter().map(|l| (l.name.clone(), l.value.clone())).collect()
}

#[test]
fn new_takes_first_cpu_and_largest_disk() {
    let cpus = vec![cpu("GenuineIntel", "Intel Xeon"), cpu("AuthenticAMD", "AMD EPYC")];
    let specs = HardwareSpecs::new(&cpus, Some(8), 16_000_000_000, &vec![100, 5000, 300, 5000, 7]);
    assert_eq!(specs.cpu_vendor_id, "GenuineIntel");
    assert_eq!(specs.cpu_brand, "Intel Xeon");
    assert_eq!(specs.cpu_core_count, 8);
    assert_eq!(specs.memory_total_bytes, 16_000_000_000);
    assert_eq!(specs.disk_total_bytes, 5000);
}

#[test]
fn new_without_cpus_or_disks() {
    let specs = HardwareSpecs::new(&vec![], None, 0, &vec![]);
    assert_eq!(specs.cpu_vendor_id, "unknown_cpu_vendor_id");
    assert_eq!(specs.cpu_brand, "unknown_cpu_model");
    assert_eq!(specs.cpu_core_count, 0);
    assert_eq!(specs.memory_total_bytes, 0);
    assert_eq!(specs.disk_total_bytes, 0);
}

#[test]
fn new_with_one_disk_of_zero_and_max_value() {
    let specs = HardwareSpecs::new(&vec![], Some(1), 1, &vec![0]);
    assert_eq!(specs.disk_total_bytes, 0);
    let specs = HardwareSpecs::new(&vec![], Some(1), 1, &vec![3, u64::MAX, 2]);
    assert_eq!(specs.disk_total_bytes, u64::MAX);
}

#[test]
fn label_pair() {
    let pair: LabelPair = HardwareSpecs::label("name", "value");
    assert_eq!(pair.name, "name");
    assert_eq!(pair.value, "value");
    let empty = LabelPair::new();
    assert_eq!(empty.name, "");
    assert_eq!(empty.value, "");
}

#[test]
fn cpu_metric_family_holds_brand_slug() {
    let specs = HardwareSpecs::new(&vec![cpu("AuthenticAMD", "AMD Ryzen 7 PRO 4750U")], Some(8), 1, &vec![1]);
    let metric = specs.cpu_metric();
    assert_eq!(
        labels(&metric),
        vec![
            ("something_something".to_string(), "amd-ryzen-7-pro-4750u".to_string()),
            ("cpu_vendor_id".to_string(), "hello".to_string()),
        ]
    );
    let family: MetricFamily = specs.cpu_metric_family();
    assert_eq!(family.name, "cpu_specs");
    assert_eq!(family.help, "CPU specs (brand,vendor,cores)");
    assert_eq!(family.field_type, MetricType::Counter);
    assert_eq!(family.metric.len(), 1);
    assert_eq!(labels(&family.metric[0]), labels(&metric));
}

#[test]
fn collect_reports_cpu_family_only() {
    let specs = HardwareSpecs::new(&vec![], None, 0, &vec![]);
    let families = specs.collect();
    assert_eq!(families.len(), 1);
    assert_eq!(families[0].name, "cpu_specs");
    assert_eq!(
        labels(&families[0].metric[0]),
        vec![
            ("something_something".to_string(), "unknown-cpu-model".to_string()),
            ("cpu_vendor_id".to_string(), "hello".to_string()),
        ]
    );
}

#[test]
fn memory_metric_and_family() {
    let specs = HardwareSpecs::new(&vec![], None, 0, &vec![]);
    let metric = specs.mem_metric();
    assert_eq!(labels(&metric), vec![(String::new(), String::new())]);
    let family = specs.mem_metric_family();
    assert_eq!(family.name, "");
    assert_eq!(family.help, "");
    assert_eq!(family.field_type, MetricType::Counter);
    assert!(family.metric.is_empty());
    assert!(Metric::new().label.is_empty());
}

#[test]
fn register_passes_success_through() {
    assert!(register_hardware_metrics(Ok(())).is_ok());
}

#[test]
fn register_wraps_refusal() {
    let r = register_hardware_metrics(Err(prometheus::Error::AlreadyReg));
    assert!(matches!(
        r,
        Err(HardwareMetricsErr::ErrRegisterHardwareMetrics(prometheus::Error::AlreadyReg))
    ));
}

#[test]
fn test_hardware_specs() {
    let mut system = System::new_with_specifics(
        RefreshKind::nothing()
            .with_cpu(CpuRefreshKind::nothing())
            .with_memory(MemoryRefreshKind::nothing().with_ram()),
    );
    system.refresh_all();
    let cpus: Vec<CpuIdentity> = system.cpus().iter().map(|c| cpu(c.vendor_id(), c.brand())).collect();
    let disks = Disks::new_with_refreshed_list();
    let spaces: Vec<u64> = disks.iter().map(|d| d.total_space()).collect();
    let hardware_specs = HardwareSpecs::new(&cpus, system.physical_core_count(), system.total_memory(), &spaces);
    let collected = hardware_specs.collect();
    assert_eq!(collected.len(), 1);
    assert_eq!(collected[0].name, "cpu_specs");
}

#[test]
fn error_messages() {
    assert_eq!(
        HardwareMetricsErr::ErrCreateMetric(prometheus::Error::AlreadyReg).message(),
        "Failed creating metric"
    );
    assert_eq!(
        HardwareMetricsErr::ErrRegisterHardwareMetrics(prometheus::Error::AlreadyReg).message(),
        "Failed registering hardware metrics onto RegistryService"
    );
}
