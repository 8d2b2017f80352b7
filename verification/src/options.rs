use vstd::prelude::*;

verus! {

/// Handle to a set of shared performance counters.
///
/// The counters themselves live outside this layer and are independently
/// thread-safe; the device only stores the handle and hands it out. Cloning
/// the handle yields a handle to the same counters.
#[derive(Clone, Copy, Debug, PartialEq, Eq, Structural)]
pub struct TensorMetrics {}

impl Default for TensorMetrics {
    fn default() -> (r: Self)
        ensures
            r == (TensorMetrics {}),
    {
        TensorMetrics {}
    }
}

/// Configuration of a CPU tensor device, fully determined before the device
/// is constructed. The chainable mutators each set exactly one field and
/// leave the others untouched, so calls that touch independent fields
/// commute.
#[derive(Clone, Copy, Debug, PartialEq, Eq, Structural)]
pub struct CpuTensorDeviceOptions {
    /// When enabled, every tensor captured with a name is recorded in the
    /// device's debug store. Only used in tests.
    pub debug_named_tensors: bool,

    pub metrics: TensorMetrics,

    pub thread_num: usize,
}

impl Default for CpuTensorDeviceOptions {
    fn default() -> (r: Self)
        ensures
            r == CpuTensorDeviceOptions::spec_default(),
    {
        CpuTensorDeviceOptions { debug_named_tensors: false, metrics: TensorMetrics {}, thread_num: 1 }
    }
}

impl CpuTensorDeviceOptions {
    /// The default configuration: debug capture off, default metrics handle,
    /// one worker thread.
    pub open spec fn spec_default() -> Self {
        CpuTensorDeviceOptions { debug_named_tensors: false, metrics: TensorMetrics {}, thread_num: 1 }
    }

    pub open spec fn spec_with_thread_num(self, thread_num: usize) -> Self {
        CpuTensorDeviceOptions { thread_num, ..self }
    }

    pub open spec fn spec_with_debug_named_tensors(self, debug_named_tensors: bool) -> Self {
        CpuTensorDeviceOptions { debug_named_tensors, ..self }
    }

    pub open spec fn spec_with_metrics(self, metrics: TensorMetrics) -> Self {
        CpuTensorDeviceOptions { metrics, ..self }
    }

    pub fn with_thread_num(self, thread_num: usize) -> (r: Self)
        ensures
            r == self.spec_with_thread_num(thread_num),
    {
        CpuTensorDeviceOptions { thread_num, ..self }
    }

    pub fn with_debug_named_tensors(self, debug_named_tensors: bool) -> (r: Self)
        ensures
            r == self.spec_with_debug_named_tensors(debug_named_tensors),
    {
        CpuTensorDeviceOptions { debug_named_tensors, ..self }
    }

    pub fn with_metrics(self, metrics: TensorMetrics) -> (r: Self)
        ensures
            r == self.spec_with_metrics(metrics),
    {
        CpuTensorDeviceOptions { metrics, ..self }
    }
}

/// Law: mutators of distinct configuration fields commute — applying two of
/// them in either order yields the same configuration.
pub proof fn lemma_option_mutators_commute(
    opts: CpuTensorDeviceOptions,
    thread_num: usize,
    debug_named_tensors: bool,
    metrics: TensorMetrics,
)
    ensures
        opts.spec_with_thread_num(thread_num).spec_with_debug_named_tensors(debug_named_tensors)
            == opts.spec_with_debug_named_tensors(debug_named_tensors).spec_with_thread_num(thread_num),
        opts.spec_with_thread_num(thread_num).spec_with_metrics(metrics)
            == opts.spec_with_metrics(metrics).spec_with_thread_num(thread_num),
        opts.spec_with_debug_named_tensors(debug_named_tensors).spec_with_metrics(metrics)
            == opts.spec_with_metrics(metrics).spec_with_debug_named_tensors(debug_named_tensors),
{
}

} // verus!
