//! Scheduling, launch geometry and progress bookkeeping for a GPU
//! quantum-annealing simulator, with the decisions verified.

pub mod config;
pub mod error;
pub mod launch_config;
pub mod square_launch;
pub mod progress;
pub mod schedule;
pub mod annealer_plan;
pub mod objective;
pub mod binary;
pub mod buffers;
pub mod compile_options;
pub mod dilemma;
pub mod standalone_plan;

pub use config::{AnalysisConfig, DevelopTimeMethod};
pub use progress::{ObserverState, ProgressData};

