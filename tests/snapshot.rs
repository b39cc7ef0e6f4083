use sysmon::snapshot::{
    build_snapshot, gpu_sample, response_status, GpuCounter, GpuReadings, MemoryCounters,
    SamplingError, Usage,
};

const GIB: u64 = 1073741824;

#[test]
fn one_gib_renders_in_iec_units() {
    let u = Usage::measure(0, GIB);
    assert_eq!(u.total_text, "1.0 GiB");
    assert_eq!(u.used_text, "0 B");
}

#[test]
fn sizes_round_to_one_decimal() {
    assert_eq!(Usage::measure(512, 1536).used_text, "512 B");
    assert_eq!(Usage::measure(512, 1536).total_text, "1.5 KiB");
    assert_eq!(Usage::measure(1023, 1024).used_text, "1023 B");
    assert_eq!(Usage::measure(1023, 1024).total_text, "1.0 KiB");
    assert_eq!(Usage::measure(10 * 1024 * 1024, 0).used_text, "10.0 MiB");
    assert_eq!(Usage::measure(536870912, 0).used_text, "512.0 MiB");
}

#[test]
fn ratio_terms_are_the_counters() {
    let u = Usage::measure(3, 4);
    assert_eq!(u.ratio(), Some((3, 4)));
    assert_eq!(u.used_bytes, 3);
    assert_eq!(u.total_bytes, 4);
}

#[test]
fn no_ratio_without_total() {
    assert_eq!(Usage::measure(0, 0).ratio(), None);
    assert_eq!(Usage::measure(5, 0).ratio(), None);
}

#[test]
fn gpu_sample_all_reads_succeed() {
    let g = gpu_sample(Ok(8 * GIB), Ok(GIB), Ok(37)).unwrap_or_else(|_| panic!("sample failed"));
    assert_eq!(g, GpuReadings { vram_total: 8 * GIB, vram_used: GIB, busy_percent: 37 });
}

#[test]
fn gpu_busy_percent_is_bounded() {
    let g = gpu_sample(Ok(1), Ok(1), Ok(250)).unwrap_or_else(|_| panic!("sample failed"));
    assert_eq!(g.busy_percent, 100);
    let g = gpu_sample(Ok(1), Ok(1), Ok(100)).unwrap_or_else(|_| panic!("sample failed"));
    assert_eq!(g.busy_percent, 100);
    let g = gpu_sample(Ok(1), Ok(1), Ok(0)).unwrap_or_else(|_| panic!("sample failed"));
    assert_eq!(g.busy_percent, 0);
}

fn failed(r: Result<GpuReadings, SamplingError>) -> SamplingError {
    match r {
        Ok(_) => panic!("sample should have failed"),
        Err(e) => e,
    }
}

#[test]
fn gpu_total_vram_failure() {
    let e = failed(gpu_sample(Err("permission denied".to_string()), Err("x".to_string()), Ok(5)));
    assert_eq!(e.counter, GpuCounter::VramTotal);
    assert_eq!(e.detail, "permission denied");
    assert_eq!(e.message(), "cannot read total VRAM: permission denied");
}

#[test]
fn gpu_used_vram_failure() {
    let e = failed(gpu_sample(Ok(1), Err("no such file".to_string()), Err("y".to_string())));
    assert_eq!(e.counter, GpuCounter::VramUsed);
    assert_eq!(e.message(), "cannot read used VRAM: no such file");
}

#[test]
fn gpu_busy_percent_failure() {
    let e = failed(gpu_sample(Ok(1), Ok(1), Err("bad value".to_string())));
    assert_eq!(e.counter, GpuCounter::BusyPercent);
    assert_eq!(e.message(), "cannot read GPU busy percent: bad value");
    assert_eq!(e.status(), 500);
}

#[test]
fn device_failure_message() {
    let e = SamplingError { counter: GpuCounter::Device, detail: "not a GPU".to_string() };
    assert_eq!(e.message(), "cannot open GPU device: not a GPU");
}

fn memory() -> MemoryCounters {
    MemoryCounters { ram_total: 16 * GIB, ram_used: 4 * GIB, swap_total: 0, swap_used: 0 }
}

#[test]
fn snapshot_takes_every_figure_from_its_sample() {
    let gpu = GpuReadings { vram_total: 8 * GIB, vram_used: 2 * GIB, busy_percent: 42 };
    let outcome = build_snapshot(memory(), Ok(gpu));
    assert_eq!(response_status(&outcome), 200);
    let s = outcome.unwrap_or_else(|_| panic!("snapshot failed"));
    assert_eq!((s.ram.used_bytes, s.ram.total_bytes), (4 * GIB, 16 * GIB));
    assert_eq!(s.ram.used_text, "4.0 GiB");
    assert_eq!(s.ram.total_text, "16.0 GiB");
    assert_eq!(s.ram.ratio(), Some((4 * GIB, 16 * GIB)));
    assert_eq!(s.swap.total_text, "0 B");
    assert_eq!(s.swap.ratio(), None);
    assert_eq!(s.gpu_vram.used_text, "2.0 GiB");
    assert_eq!(s.gpu_vram.total_text, "8.0 GiB");
    assert_eq!(s.gpu_busy_percent, 42);
}

#[test]
fn snapshots_of_two_samples_stay_apart() {
    let a = build_snapshot(memory(), Ok(GpuReadings { vram_total: 4, vram_used: 1, busy_percent: 10 }));
    let other = MemoryCounters { ram_total: 8, ram_used: 2, swap_total: 6, swap_used: 3 };
    let b = build_snapshot(other, Ok(GpuReadings { vram_total: 9, vram_used: 7, busy_percent: 90 }));
    let a = a.unwrap_or_else(|_| panic!("snapshot failed"));
    let b = b.unwrap_or_else(|_| panic!("snapshot failed"));
    assert_eq!(a.ram.total_bytes, 16 * GIB);
    assert_eq!(a.gpu_busy_percent, 10);
    assert_eq!(b.ram.ratio(), Some((2, 8)));
    assert_eq!(b.swap.ratio(), Some((3, 6)));
    assert_eq!(b.gpu_vram.ratio(), Some((7, 9)));
    assert_eq!(b.gpu_busy_percent, 90);
}

#[test]
fn failed_gpu_read_fails_the_request() {
    let gpu = gpu_sample(Ok(1), Err("driver busy".to_string()), Ok(1));
    let outcome = build_snapshot(memory(), gpu);
    assert_eq!(response_status(&outcome), 500);
    let e = outcome.err().unwrap_or_else(|| panic!("request should have failed"));
    assert_eq!(e.counter, GpuCounter::VramUsed);
    assert_eq!(e.detail, "driver busy");
}

#[test]
fn service_answers_again_after_a_failure() {
    let bad = build_snapshot(memory(), gpu_sample(Err("gone".to_string()), Ok(1), Ok(1)));
    assert_eq!(response_status(&bad), 500);
    let good = build_snapshot(memory(), gpu_sample(Ok(2), Ok(1), Ok(50)));
    assert_eq!(response_status(&good), 200);
}
