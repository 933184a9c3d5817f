# gpu_quantum_annealing

A GPU simulator of quantum annealing. The state vector is developed in time
by CUDA kernels; this crate holds the decisions around that work, verified
with Verus, and `app/` holds the device work, the floating-point parts and
the programs.

`src/` (verified):

- `config`: development methods, the integer run settings and the
  analysis settings; which kernel layout and which development order a
  configuration selects.
- `error`: the annealing error type and the mapping of driver failures onto it.
- `launch_config`, `square_launch`: block and grid dimensions of kernel
  launches, with the thread-count checks.
- `annealer_plan`: qubit count, kernel choice and launch geometries of the
  annealers.
- `schedule`: the step-by-step plan of a run (develop, renormalise,
  publish progress, finish) as a state machine.
- `progress`: progress snapshots and the observer's notify/stop decision.
- `buffers`: the rotation of the three state vectors of second-order runs.
- `objective`: the number-partitioning energy and the diagonal it fills.
- `binary`: decoding files of little-endian 8-byte words.
- `compile_options`: the options handed to the kernel compiler, and the
  compilation of kernel sources to PTX through NVRTC.
- `standalone_plan`: kernel choice and launch geometries of the stand-alone
  simulation.
- `dilemma`: sizes and launch of the prisoner's-dilemma diagonal kernel.

`app/` drives the GPU through `cudarc`, runs the observer thread, analyses
the final amplitudes and writes results.
