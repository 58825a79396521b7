use flops_bench::backend::BackendType;
use flops_bench::config::{FlopsTest, DEFAULT_MATRIX_SIZE, DEFAULT_REPEAT_TIMES};
use flops_bench::gflops::{gflops_hundredths, total_flops};
use flops_bench::render::{benchmark_line, decimal_string, format_gflops, result_line};

#[test]
fn backend_names() {
    assert_eq!(BackendType::Cpu.name(), "cpu");
    assert_eq!(BackendType::Ndarray.name(), "ndarray");
    assert_eq!(BackendType::Wgpu.name(), "wgpu");
    assert_eq!(BackendType::Vulkan.name(), "vulkan");
    assert_eq!(BackendType::Cuda.name(), "cuda");
}

#[test]
fn backend_from_name_round_trip() {
    let all = [
        BackendType::Cpu,
        BackendType::Ndarray,
        BackendType::Wgpu,
        BackendType::Vulkan,
        BackendType::Cuda,
    ];
    for b in all {
        assert_eq!(BackendType::from_name(b.name()), Some(b));
    }
}

#[test]
fn backend_from_name_rejects_unknown() {
    assert_eq!(BackendType::from_name("metal"), None);
    assert_eq!(BackendType::from_name(""), None);
    assert_eq!(BackendType::from_name("CPU"), None);
    assert_eq!(BackendType::from_name("cpu "), None);
    assert_eq!(BackendType::from_name("ndarra"), None);
    assert_eq!(BackendType::from_name("ndarrayy"), None);
}

#[test]
fn default_values() {
    assert_eq!(DEFAULT_MATRIX_SIZE, 1024);
    assert_eq!(DEFAULT_REPEAT_TIMES, 100);
    let cfg = FlopsTest::with_defaults(BackendType::Ndarray);
    assert_eq!(cfg.matrix_size, 1024);
    assert_eq!(cfg.repeat_times, 100);
    assert_eq!(cfg.backend, BackendType::Ndarray);
}

#[test]
fn config_rejects_zero_counts() {
    assert_eq!(FlopsTest::new(0, 100, BackendType::Cpu), None);
    assert_eq!(FlopsTest::new(1024, 0, BackendType::Cpu), None);
    assert_eq!(FlopsTest::new(0, 0, BackendType::Cpu), None);
    let cfg = FlopsTest::new(16, 2, BackendType::Wgpu).unwrap();
    assert_eq!(cfg.matrix_size, 16);
    assert_eq!(cfg.repeat_times, 2);
    assert_eq!(cfg.backend, BackendType::Wgpu);
}

#[test]
fn total_flops_exact() {
    // 2 * 2^3 * 3 = 48
    assert_eq!(total_flops(2, 3), Some(48));
    // The default configuration: 2 * 1024^3 * 100.
    assert_eq!(total_flops(1024, 100), Some(214_748_364_800));
    assert_eq!(total_flops(1, 1), Some(2));
}

#[test]
fn total_flops_zero_work() {
    assert_eq!(total_flops(0, 100), Some(0));
    assert_eq!(total_flops(1024, 0), Some(0));
}

#[test]
fn total_flops_overflow() {
    assert_eq!(total_flops(usize::MAX, usize::MAX), None);
    assert_eq!(total_flops(usize::MAX, 2), None);
}

#[test]
fn gflops_formula_exact() {
    // 2 GFLOPS on the nose: 2e9 operations in one second.
    assert_eq!(gflops_hundredths(2_000_000_000, 1_000_000_000), Some(200));
    // The default run in exactly one second: 214.7483648 GFLOPS, which
    // rounds to 214.75.
    assert_eq!(gflops_hundredths(214_748_364_800, 1_000_000_000), Some(21_475));
    // 1234 operations in 1000 nanoseconds: 1.234 GFLOPS, rounds to 1.23.
    assert_eq!(gflops_hundredths(1_234, 1_000), Some(123));
    // 1235 operations in 1000 nanoseconds: 1.235 GFLOPS, ties round up.
    assert_eq!(gflops_hundredths(1_235, 1_000), Some(124));
    // Slow run: far below one hundredth of a GFLOPS renders as zero.
    assert_eq!(gflops_hundredths(1, 1_000_000_000), Some(0));
}

#[test]
fn gflops_overflow() {
    assert_eq!(gflops_hundredths(u128::MAX, 1_000_000_000), None);
    assert_eq!(gflops_hundredths(u128::MAX / 100, u128::MAX), None);
}

#[test]
fn decimal_rendering() {
    assert_eq!(decimal_string(0), "0");
    assert_eq!(decimal_string(7), "7");
    assert_eq!(decimal_string(10), "10");
    assert_eq!(decimal_string(1024), "1024");
    assert_eq!(
        decimal_string(u128::MAX),
        "340282366920938463463374607431768211455"
    );
}

#[test]
fn gflops_rendering() {
    assert_eq!(format_gflops(21_475), "214.75");
    assert_eq!(format_gflops(200), "2.00");
    assert_eq!(format_gflops(5), "0.05");
    assert_eq!(format_gflops(0), "0.00");
    assert_eq!(format_gflops(99), "0.99");
    assert_eq!(format_gflops(100), "1.00");
}

#[test]
fn result_line_template() {
    assert_eq!(
        result_line(1024, "1.5s", 21_475),
        "Matrix size: 1024x1024, Time: 1.5s, GFLOPS: 214.75"
    );
    assert_eq!(
        result_line(2, "10ns", 0),
        "Matrix size: 2x2, Time: 10ns, GFLOPS: 0.00"
    );
}

#[test]
fn benchmark_line_end_to_end() {
    let cfg = FlopsTest::with_defaults(BackendType::Ndarray);
    let line = benchmark_line(&cfg, 1_000_000_000, "1s").unwrap();
    assert_eq!(line, "Matrix size: 1024x1024, Time: 1s, GFLOPS: 214.75");
}

#[test]
fn benchmark_line_overflow() {
    let cfg = FlopsTest {
        matrix_size: usize::MAX,
        repeat_times: usize::MAX,
        backend: BackendType::Cpu,
    };
    assert_eq!(benchmark_line(&cfg, 1, "0ns"), None);
}
