use gpu_quantum_annealing::binary::decode_le_words;
use gpu_quantum_annealing::buffers::StateBuffers;
use gpu_quantum_annealing::compile_options::nvrtc_options;
use gpu_quantum_annealing::config::{is_linear, use_warp, AnalysisConfig, DevelopTimeMethod, KernelConfig};
use gpu_quantum_annealing::objective::{build_diagonal, objective_function};

#[test]
fn words_are_read_little_endian() {
    let mut bytes = Vec::new();
    bytes.extend_from_slice(&1.5f64.to_le_bytes());
    bytes.extend_from_slice(&(-2.25f64).to_le_bytes());
    bytes.extend_from_slice(&0x0102_0304_0506_0708u64.to_le_bytes());
    let words = decode_le_words(&bytes).unwrap();
    assert_eq!(words.len(), 3);
    assert_eq!(f64::from_bits(words[0]), 1.5);
    assert_eq!(f64::from_bits(words[1]), -2.25);
    assert_eq!(words[2], 0x0102_0304_0506_0708);
    assert_eq!(decode_le_words(&[]), Some(vec![]));
}

#[test]
fn ragged_input_is_rejected() {
    assert_eq!(decode_le_words(&[1, 2, 3, 4, 5, 6, 7]), None);
    assert_eq!(decode_le_words(&[0; 9]), None);
}

#[test]
fn buffers_rotate() {
    let mut b = StateBuffers { current: 1, previous: 2, developed: 3 };
    b.swap();
    assert_eq!((b.current, b.previous, b.developed), (3, 1, 2));
    b.swap();
    b.swap();
    assert_eq!((b.current, b.previous, b.developed), (1, 2, 3));
}

#[test]
fn compiler_options() {
    let o = nvrtc_options("kernels");
    assert_eq!(o, vec!["--include-path=kernels".to_string(), "--gpu-architecture=compute_86".to_string()]);
}

#[test]
fn methods() {
    let cfg = |m, t| KernelConfig { threads_x: t, norm_interval: 10, develop_time_method: m };
    assert!(!use_warp(&cfg(DevelopTimeMethod::DevelopTime, 16)));
    assert!(use_warp(&cfg(DevelopTimeMethod::DevelopTimeWarp, 256)));
    assert!(use_warp(&cfg(DevelopTimeMethod::QuadraticDevelopTimeWarp, 256)));
    assert!(use_warp(&cfg(DevelopTimeMethod::Default, 31)));
    assert!(!use_warp(&cfg(DevelopTimeMethod::Default, 32)));
    assert!(is_linear(&cfg(DevelopTimeMethod::DevelopTime, 16)));
    assert!(is_linear(&cfg(DevelopTimeMethod::DevelopTimeWarp, 16)));
    assert!(!is_linear(&cfg(DevelopTimeMethod::QuadraticDevelopTimeWarp, 16)));
    assert!(!is_linear(&cfg(DevelopTimeMethod::Default, 16)));
    assert_eq!(AnalysisConfig::default().round, 5);
}

#[test]
fn partition_objective() {
    let nums = [1, 2, 3];
    assert_eq!(objective_function(&nums, 0), 11);
    assert_eq!(objective_function(&nums, 1), -7);
    assert_eq!(objective_function(&nums, 4), 1);
    assert_eq!(objective_function(&nums, 7), 11);
    assert_eq!(objective_function(&nums, 8), 11);
    let ten: Vec<i32> = (1..=10).collect();
    assert_eq!(objective_function(&ten, 0), 1320);
}

#[test]
fn partition_diagonal() {
    assert_eq!(build_diagonal(&[1, 2, 3]), vec![11, -7, -5, 1, 1, -5, -7, 11]);
    assert_eq!(build_diagonal(&[]), vec![0]);
    let d = build_diagonal(&[4, 5, 6, 7]);
    assert_eq!(d.len(), 16);
    for i in 0..16 {
        assert_eq!(d[i], d[15 - i]);
    }
}

#[test]
fn kernel_defaults() {
    let k = KernelConfig::default();
    assert_eq!(k, KernelConfig { threads_x: 128, norm_interval: 10, develop_time_method: DevelopTimeMethod::Default });
}
