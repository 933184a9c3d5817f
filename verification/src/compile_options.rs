use vstd::prelude::*;
use cudarc::nvrtc::{compile_ptx_with_opts, CompileError, CompileOptions};

verus! {

/// The error the runtime compiler reports.
#[verifier::external_type_specification]
#[verifier::external_body]
pub struct ExCompileError(CompileError);

/// Whether `s` holds no NUL character (the compiler takes C strings).
pub open spec fn nul_free(s: Seq<char>) -> bool {
    !s.contains('\0')
}

/// The options handed to the runtime compiler for the simulator's kernels:
/// the include directory of the kernel sources, and the target architecture.
pub fn nvrtc_options(include_dir: &str) -> (r: Vec<String>)
    ensures
        r@.len() == 2,
        r@[0]@ == "--include-path="@ + include_dir@,
        r@[1]@ == "--gpu-architecture=compute_86"@,
{
    let mut path_option = String::from_str("--include-path=");
    path_option.append(include_dir);
    let arch = String::from_str("--gpu-architecture=compute_86");
    let mut options: Vec<String> = Vec::new();
    options.push(path_option);
    options.push(arch);
    options
}

/// Compiles CUDA source `src` to PTX text with NVRTC, through
/// `cudarc::nvrtc::compile_ptx_with_opts`, with the given extra `options` and
/// `include_paths` and no other setting.
///
/// Nothing is claimed of the result: whether compilation succeeds, and the
/// PTX it yields, depend on the NVRTC library installed on the machine. The
/// call panics on a NUL character in the source or in an option, so those
/// inputs are left out. It also panics when the NVRTC library cannot be
/// loaded, when NVRTC fails to hand back its log after a failed
/// compilation, or when the PTX it hands back is not UTF-8 text; those
/// depend on the machine and are not ruled out here.
#[verifier::external_body]
pub fn nvrtc_compile(src: &str, options: Vec<String>, include_paths: Vec<String>) -> (r: Result<String, CompileError>)
    requires
        nul_free(src@),
        forall|k: int| 0 <= k < options@.len() ==> nul_free(#[trigger] options@[k]@),
        forall|k: int| 0 <= k < include_paths@.len() ==> nul_free(#[trigger] include_paths@[k]@),
{
    match compile_ptx_with_opts(src, CompileOptions { options, include_paths, ..Default::default() }) {
        Ok(ptx) => Ok(ptx.to_src()),
        Err(e) => Err(e),
    }
}

/// Compiles a kernel source of the simulator to PTX text: the options are
/// `nvrtc_options(include_dir)`, and the header search paths are
/// `include_paths`. What comes back is NVRTC's answer, on which nothing is
/// claimed.
pub fn compile_kernel_source(src: &str, include_dir: &str, include_paths: Vec<String>) -> (r: Result<
    String,
    CompileError,
>)
    requires
        nul_free(src@),
        nul_free(include_dir@),
        forall|k: int| 0 <= k < include_paths@.len() ==> nul_free(#[trigger] include_paths@[k]@),
{
    let options = nvrtc_options(include_dir);
    proof {
        reveal_strlit("--include-path=");
        reveal_strlit("--gpu-architecture=compute_86");
        let a = "--include-path="@;
        let b = include_dir@;
        assert(nul_free(options@[0]@)) by {
            if (a + b).contains('\0') {
                let i = choose|i: int| 0 <= i < (a + b).len() && (a + b)[i] == '\0';
                if i < a.len() {
                    assert(a[i] == (a + b)[i]);
                } else {
                    assert(b[i - a.len()] == (a + b)[i]);
                }
            }
        }
        let c = "--gpu-architecture=compute_86"@;
        assert(nul_free(options@[1]@)) by {
            if c.contains('\0') {
                let i = choose|i: int| 0 <= i < c.len() && c[i] == '\0';
            }
        }
    }
    nvrtc_compile(src, options, include_paths)
}

} // verus!
