use gpu_quantum_annealing::standalone_plan::plan_standalone;
use gpu_quantum_annealing::annealer_plan::{bit_count, develop_time_kernel, plan_launches};
use gpu_quantum_annealing::config::{DevelopTimeMethod, KernelConfig};
use gpu_quantum_annealing::dilemma::dilemma_launch;
use gpu_quantum_annealing::error::AnnealingError;
use gpu_quantum_annealing::launch_config::{create_launch_config, is_power_of_two, KernelLayout};
use gpu_quantum_annealing::square_launch;

#[test]
fn powers_of_two_are_recognised() {
    assert!(is_power_of_two(1));
    assert!(is_power_of_two(2));
    assert!(is_power_of_two(128));
    assert!(is_power_of_two(0x8000_0000));
    assert!(!is_power_of_two(0));
    assert!(!is_power_of_two(3));
    assert!(!is_power_of_two(100));
    assert!(!is_power_of_two(u32::MAX));
}

#[test]
fn vector_layout_uses_one_thread_per_element() {
    let g = create_launch_config(1000, 128, KernelLayout::Vector2D).ok().unwrap();
    assert_eq!(g.block_dim, (128, 1, 1));
    assert_eq!(g.grid_dim, (8, 1, 1));
    assert_eq!(g.shared_mem_bytes, 0);
}

#[test]
fn warp_layout_uses_one_warp_per_element() {
    let g = create_launch_config(1000, 128, KernelLayout::Warp).ok().unwrap();
    assert_eq!(g.block_dim, (128, 1, 1));
    assert_eq!(g.grid_dim, (250, 1, 1));
}

#[test]
fn empty_vector_needs_no_block() {
    let g = create_launch_config(0, 32, KernelLayout::Warp).ok().unwrap();
    assert_eq!(g.grid_dim, (0, 1, 1));
}

#[test]
fn element_count_is_taken_modulo_two_to_the_32() {
    let n: u64 = (1u64 << 32) + 5;
    let g = create_launch_config(n as usize, 4, KernelLayout::Vector2D).ok().unwrap();
    assert_eq!(g.grid_dim, (2, 1, 1));
}

#[test]
fn thread_count_must_be_a_power_of_two() {
    match create_launch_config(1000, 100, KernelLayout::Vector2D) {
        Err(AnnealingError::InvalidThreadCount(100)) => {}
        _ => panic!("expected InvalidThreadCount"),
    }
    match create_launch_config(1000, 96, KernelLayout::Warp) {
        Err(AnnealingError::InvalidThreadCount(96)) => {}
        _ => panic!("expected InvalidThreadCount"),
    }
}

#[test]
fn warp_layout_needs_a_full_warp() {
    match create_launch_config(1000, 16, KernelLayout::Warp) {
        Err(AnnealingError::InvalidThreadCountForWarp(16)) => {}
        _ => panic!("expected InvalidThreadCountForWarp"),
    }
    assert!(create_launch_config(1000, 16, KernelLayout::Vector2D).is_ok());
}

#[test]
fn square_layouts() {
    let v = square_launch::create_launch_config(9, 2, square_launch::KernelLayout::Vector2D);
    assert_eq!(v.block_dim, (2, 1, 1));
    assert_eq!(v.grid_dim, (5, 1, 1));
    let m = square_launch::create_launch_config(9, 2, square_launch::KernelLayout::Matrix2D);
    assert_eq!(m.block_dim, (2, 2, 1));
    assert_eq!(m.grid_dim, (5, 5, 1));
    assert_eq!(m.shared_mem_bytes, 0);
}

#[test]
fn bit_count_is_the_floor_of_log2() {
    assert_eq!(bit_count(0), 0);
    assert_eq!(bit_count(1), 0);
    assert_eq!(bit_count(2), 1);
    assert_eq!(bit_count(8), 3);
    assert_eq!(bit_count(1023), 9);
    assert_eq!(bit_count(1024), 10);
    assert_eq!(bit_count(u32::MAX), 31);
}

#[test]
fn develop_kernel_follows_the_method() {
    let cfg = |m, t| KernelConfig { threads_x: t, norm_interval: 10, develop_time_method: m };
    assert_eq!(develop_time_kernel(&cfg(DevelopTimeMethod::DevelopTime, 128)), "develop_time_warp");
    assert_eq!(develop_time_kernel(&cfg(DevelopTimeMethod::DevelopTimeWarp, 128)), "develop_time");
    assert_eq!(
        develop_time_kernel(&cfg(DevelopTimeMethod::QuadraticDevelopTimeWarp, 128)),
        "develop_time"
    );
    assert_eq!(develop_time_kernel(&cfg(DevelopTimeMethod::Default, 128)), "develop_time_warp");
    assert_eq!(develop_time_kernel(&cfg(DevelopTimeMethod::Default, 16)), "develop_time");
}

#[test]
fn annealer_launches() {
    let l = plan_launches(1024, 128).ok().unwrap();
    assert_eq!(l.cfg_for_vec.grid_dim, (8, 1, 1));
    assert_eq!(l.cfg_for_vec.block_dim, (128, 1, 1));
    assert_eq!(l.cfg_for_develop_time.grid_dim, (256, 1, 1));
    assert_eq!(l.cfg_for_develop_time.shared_mem_bytes, 0);
    assert_eq!(l.cfg_for_norm.grid_dim, (256, 1, 1));
    assert_eq!(l.cfg_for_norm.shared_mem_bytes, 1024);
}

#[test]
fn annealer_launch_errors() {
    match plan_launches(1024, 100) {
        Err(AnnealingError::InvalidThreadCount(100)) => {}
        _ => panic!("expected InvalidThreadCount"),
    }
    match plan_launches(1024, 16) {
        Err(AnnealingError::InvalidThreadCountForWarp(16)) => {}
        _ => panic!("expected InvalidThreadCountForWarp"),
    }
}

#[test]
fn dilemma_sizes() {
    let (k, n, g) = dilemma_launch(3, 2, 2);
    assert_eq!(k, 7);
    assert_eq!(n, 128);
    assert_eq!(g.block_dim, (256, 1, 1));
    assert_eq!(g.grid_dim, (1, 1, 1));
    let (k, n, g) = dilemma_launch(20, 1, 11);
    assert_eq!(k, 31);
    assert_eq!(n, 1 << 31);
    assert_eq!(g.grid_dim, ((1 << 31) / 256, 1, 1));
    let (k, n, g) = dilemma_launch(0x8000_0000, 0, 0);
    assert_eq!(k, 0x8000_0000);
    assert_eq!(n, 0);
    assert_eq!(g.grid_dim, (0, 1, 1));
}

#[test]
fn grids_cover_every_element_with_less_than_a_block_to_spare() {
    for &t in &[1u32, 2, 32, 64, 128, 1024] {
        for &n in &[0usize, 1, 31, 32, 33, 1000, 4096, 100_000] {
            for layout in [KernelLayout::Vector2D, KernelLayout::Warp] {
                if layout == KernelLayout::Warp && t < 32 {
                    continue;
                }
                let per_block = if layout == KernelLayout::Warp { t / 32 } else { t } as u64;
                let g = create_launch_config(n, t, layout).ok().unwrap();
                let blocks = g.grid_dim.0 as u64;
                assert!(blocks * per_block >= n as u64);
                assert!(blocks == 0 || (blocks - 1) * per_block < n as u64);
            }
        }
    }
}

#[test]
fn bit_count_brackets_the_length() {
    for n in [1u32, 2, 3, 5, 100, 65535, 65536, 1 << 31, u32::MAX] {
        let k = bit_count(n);
        assert!((1u64 << k) <= n as u64);
        assert!((n as u64) < (1u64 << (k + 1)));
    }
}

#[test]
fn standalone_plans() {
    let p = plan_standalone(1024, 2).ok().unwrap();
    assert_eq!(p.develop_time_kernel, "develop_time");
    assert_eq!(p.cfg_for_vector.grid_dim, (512, 1, 1));
    assert_eq!(p.cfg_for_develop_time, p.cfg_for_vector);
    assert_eq!(p.cfg_for_norm.grid_dim, (512, 1, 1));
    assert_eq!(p.cfg_for_norm.shared_mem_bytes, 16);

    let p = plan_standalone(1024, 128).ok().unwrap();
    assert_eq!(p.develop_time_kernel, "develop_time_warp");
    assert_eq!(p.cfg_for_vector.grid_dim, (8, 1, 1));
    assert_eq!(p.cfg_for_develop_time.grid_dim, (256, 1, 1));
    assert_eq!(p.cfg_for_develop_time.block_dim, (128, 1, 1));
    assert_eq!(p.cfg_for_norm.shared_mem_bytes, 1024);

    let p = plan_standalone(1024, 3).ok().unwrap();
    assert_eq!(p.cfg_for_vector.grid_dim, (342, 1, 1));

    match plan_standalone(1024, 96) {
        Err(AnnealingError::InvalidThreadCount(96)) => {}
        _ => panic!("expected InvalidThreadCount"),
    }
}
