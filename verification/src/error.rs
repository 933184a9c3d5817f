use vstd::prelude::*;
use cudarc::driver::DriverError;

verus! {

/// The error a CUDA driver call reports.
#[verifier::external_type_specification]
#[verifier::external_body]
pub struct ExDriverError(DriverError);

/// Why setting up or running the annealer failed.
#[derive(Debug)]
pub enum AnnealingError {
    /// A kernel could not be loaded from the compiled module.
    KernelNotFound { kernel: &'static str, e: DriverError },
    /// A kernel launch was refused by the driver.
    KernelLaunchFailed { kernel: &'static str, e: DriverError },
    /// The thread count per block is not a power of two.
    InvalidThreadCount(u32),
    /// The warp layout needs at least one full warp (32 threads) per block.
    InvalidThreadCountForWarp(u32),
    /// Any other driver failure.
    CudaDriverError(DriverError),
}

/// Labels a driver failure with the kernel it concerns.
pub trait ResultExt<T>: Sized {
    /// Turns a failed kernel lookup into `KernelNotFound` for `kernel`.
    fn kernel_not_found_err(self, kernel: &'static str) -> Result<T, AnnealingError>;

    /// Turns a failed kernel launch into `KernelLaunchFailed` for `kernel`.
    fn kernel_process_err(self, kernel: &'static str) -> Result<T, AnnealingError>;
}

impl<T> ResultExt<T> for Result<T, DriverError> {
    fn kernel_not_found_err(self, kernel: &'static str) -> (r: Result<T, AnnealingError>)
        ensures
            match self {
                Ok(v) => r == Ok::<T, AnnealingError>(v),
                Err(e) => r == Err::<T, AnnealingError>(AnnealingError::KernelNotFound { kernel, e }),
            },
    {
        match self {
            Ok(v) => Ok(v),
            Err(e) => Err(AnnealingError::KernelNotFound { kernel, e }),
        }
    }

    fn kernel_process_err(self, kernel: &'static str) -> (r: Result<T, AnnealingError>)
        ensures
            match self {
                Ok(v) => r == Ok::<T, AnnealingError>(v),
                Err(e) => r == Err::<T, AnnealingError>(AnnealingError::KernelLaunchFailed { kernel, e }),
            },
    {
        match self {
            Ok(v) => Ok(v),
            Err(e) => Err(AnnealingError::KernelLaunchFailed { kernel, e }),
        }
    }
}

} // verus!
