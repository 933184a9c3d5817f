use vstd::prelude::*;

verus! {

/// Which time-development kernel the annealer runs.
#[derive(Copy, Clone, Debug, PartialEq, Eq, Structural)]
pub enum DevelopTimeMethod {
    DevelopTime,
    DevelopTimeWarp,
    QuadraticDevelopTimeWarp,
    Default,
}

/// The integer settings of an annealing run that decide which kernels run,
/// how they are laid out and how often the state is renormalised.
#[derive(Copy, Clone, Debug, PartialEq, Eq, Structural)]
pub struct KernelConfig {
    /// Threads per block.
    pub threads_x: u32,
    /// The state vector is renormalised on every step whose index is a
    /// multiple of this.
    pub norm_interval: u64,
    /// The time-development method.
    pub develop_time_method: DevelopTimeMethod,
}

impl Default for KernelConfig {
    /// 128 threads per block, renormalisation every 10 steps, default method.
    fn default() -> (r: Self)
        ensures
            r == (KernelConfig {
                threads_x: 128,
                norm_interval: 10,
                develop_time_method: DevelopTimeMethod::Default,
            }),
    {
        KernelConfig { threads_x: 128, norm_interval: 10, develop_time_method: DevelopTimeMethod::Default }
    }
}

/// Whether the configuration asks for the warp-cooperative kernel layout.
pub open spec fn spec_use_warp(config: KernelConfig) -> bool {
    match config.develop_time_method {
        DevelopTimeMethod::DevelopTime => false,
        DevelopTimeMethod::DevelopTimeWarp => true,
        DevelopTimeMethod::QuadraticDevelopTimeWarp => true,
        DevelopTimeMethod::Default => config.threads_x < 32,
    }
}

/// Whether the run uses the first-order (linear) time development.
pub open spec fn spec_is_linear(config: KernelConfig) -> bool {
    match config.develop_time_method {
        DevelopTimeMethod::DevelopTime => true,
        DevelopTimeMethod::DevelopTimeWarp => true,
        DevelopTimeMethod::QuadraticDevelopTimeWarp => false,
        DevelopTimeMethod::Default => false,
    }
}

pub fn use_warp(config: &KernelConfig) -> (r: bool)
    ensures
        r == spec_use_warp(*config),
{
    match config.develop_time_method {
        DevelopTimeMethod::DevelopTime => false,
        DevelopTimeMethod::DevelopTimeWarp => true,
        DevelopTimeMethod::QuadraticDevelopTimeWarp => true,
        DevelopTimeMethod::Default => config.threads_x < 32,
    }
}

pub fn is_linear(config: &KernelConfig) -> (r: bool)
    ensures
        r == spec_is_linear(*config),
{
    match config.develop_time_method {
        DevelopTimeMethod::DevelopTime => true,
        DevelopTimeMethod::DevelopTimeWarp => true,
        DevelopTimeMethod::QuadraticDevelopTimeWarp => false,
        DevelopTimeMethod::Default => false,
    }
}

/// Settings of the analysis of the final state vector.
#[derive(Debug)]
pub struct AnalysisConfig {
    /// Number of decimal digits probabilities are rounded to.
    pub round: u32,
}

impl Default for AnalysisConfig {
    fn default() -> (r: Self)
        ensures
            r.round == 5,
    {
        AnalysisConfig { round: 5 }
    }
}

/// The method alone decides the layout, except for `Default`, which picks
/// the per-thread layout from 32 threads per block up: `DevelopTimeWarp` and
/// `QuadraticDevelopTimeWarp` always take the warp branch, `DevelopTime`
/// never does, whatever the thread count.
pub proof fn lemma_use_warp_by_method(config: KernelConfig)
    ensures
        config.develop_time_method == DevelopTimeMethod::DevelopTimeWarp ==> spec_use_warp(config),
        config.develop_time_method == DevelopTimeMethod::QuadraticDevelopTimeWarp ==> spec_use_warp(config),
        config.develop_time_method == DevelopTimeMethod::DevelopTime ==> !spec_use_warp(config),
        config.develop_time_method == DevelopTimeMethod::Default ==> (spec_use_warp(config) <==> config.threads_x < 32),
{
}

/// Only the two first-order methods run linearly, whatever the thread count
/// or renormalisation interval.
pub proof fn lemma_is_linear_by_method(config: KernelConfig)
    ensures
        spec_is_linear(config) <==> (config.develop_time_method == DevelopTimeMethod::DevelopTime
            || config.develop_time_method == DevelopTimeMethod::DevelopTimeWarp),
{
}

} // verus!
