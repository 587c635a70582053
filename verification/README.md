# opal_lib

Chooses a scheduling priority for a process from its CPU and memory load,
and provides frame-level helpers (workload classification, a chunk pool,
culling and level of detail, a frame profiler).

The library in `src/` is verified with Verus. It works in integer units:
loads and thresholds in thousandths of a percent, fractions in millionths,
positions and distances in thousandths of a world unit. It never touches
the operating system: functions that change the process priority take the
function that performs the change as an argument.

`app/` is the program around it: the C interface (`repr(C)` structs with
floating-point fields, converted to and from the library's units), the
calls into the Windows API, the worker-thread pool, and the sampling loops
that read system load.

Modules of `src/`:

- `priority`: priorities, configuration presets, normalization, selection.
- `apply`: one optimization step, reports and status codes.
- `advanced`: frame-rate and safety estimates on top of a step.
- `controller`: smoothing and cool-down between steps.
- `basic`: the selection rule without normalization.
- `scheduler`: a fixed-configuration runner.
- `workload`, `memory`, `gpu`, `profiler`, `chunks`, `text`: helpers.
- `laws`: properties that span functions, proved.
