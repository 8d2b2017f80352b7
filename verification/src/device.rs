use std::sync::Arc;
use vstd::prelude::*;
use vstd::rwlock::RwLock;

use crate::cache::build_exp_table;
use crate::cache::build_gelu_table;
use crate::cache::is_exp_table;
use crate::cache::is_gelu_table;
use crate::options::CpuTensorDeviceOptions;
use crate::options::TensorMetrics;
use crate::store::DebugTensors;

verus! {

#[verifier::external_type_specification]
#[verifier::external_body]
pub struct ExThreadPool(threadpool::ThreadPool);

#[verifier::external_type_specification]
#[verifier::external_body]
#[verifier::reject_recursive_types(T)]
pub struct ExMutex<T: ?Sized>(std::sync::Mutex<T>);

#[verifier::external_type_specification]
#[verifier::external_body]
#[verifier::reject_recursive_types(T)]
pub struct ExOnceLock<T>(std::sync::OnceLock<T>);

/// Relies on `threadpool::ThreadPool::new`: builds a pool of `num_threads`
/// worker threads, usable for submitting jobs for the life of the pool.
/// `ThreadPool::new` panics when `num_threads` is zero, so that input is
/// excluded here.
#[verifier::external_body]
fn pool_new(num_threads: usize) -> threadpool::ThreadPool
    requires
        num_threads >= 1,
{
    threadpool::ThreadPool::new(num_threads)
}

/// Relies on `std::sync::Mutex::new`: wraps a value in a new unlocked mutex.
#[verifier::external_body]
fn mutex_new<T>(value: T) -> std::sync::Mutex<T> {
    std::sync::Mutex::new(value)
}

/// Relies on `std::sync::OnceLock::new`: creates an empty slot; a value is
/// only ever stored in it by its first `get_or_init`.
#[verifier::external_body]
fn once_lock_new<T>() -> std::sync::OnceLock<T> {
    std::sync::OnceLock::new()
}

/// What the debug capture store reads from a tensor value: its optional name
/// and its contents as full-precision values, each carried as the bit
/// pattern of the number it stands for.
pub struct CapturedTensor {
    pub name: Option<String>,
    pub values: Vec<u32>,
}

/// The invariant the device's capture store lock maintains on the value it
/// guards: the store stays well-formed across every capture.
pub struct StoreInv {}

impl vstd::rwlock::RwLockPredicate<DebugTensors> for StoreInv {
    open spec fn inv(self, s: DebugTensors) -> bool {
        s.wf()
    }
}

/// The shared execution context of CPU tensor computation: it owns the
/// precomputed lookup tables for the exponential and GELU functions, a
/// synchronized handle to the worker pool, and the debug capture store. One
/// device is created per computation context and shared, read-mostly, by
/// every tensor and worker thread of that context.
pub struct CpuTensorDevice {
    opts: CpuTensorDeviceOptions,
    metrics: TensorMetrics,
    exp_cache: Vec<u16>,
    gelu_cache: std::sync::OnceLock<Vec<u16>>,
    thread_pool: std::sync::Mutex<threadpool::ThreadPool>,
    debug_tensors: RwLock<DebugTensors, StoreInv>,
}

/// A shared handle to a device: the device is dropped when the last handle
/// is released.
pub type CpuTensorDeviceRef = Arc<CpuTensorDevice>;

impl CpuTensorDevice {
    /// The configuration the device was constructed with; it never changes
    /// over the device's life.
    pub closed spec fn spec_opts(&self) -> CpuTensorDeviceOptions {
        self.opts
    }

    pub closed spec fn spec_metrics(&self) -> TensorMetrics {
        self.metrics
    }

    /// Established by construction and preserved for the device's life: the
    /// eagerly built exponential table is in place, the metrics handle is
    /// the configured one, and the capture store lock maintains the store's
    /// invariant.
    pub closed spec fn wf(&self) -> bool {
        &&& is_exp_table(self.exp_cache@)
        &&& self.metrics == self.opts.metrics
    }

    /// Builds a device from the default configuration.
    pub fn new() -> (r: CpuTensorDeviceRef)
        ensures
            (*r).wf(),
            (*r).spec_opts() == CpuTensorDeviceOptions::spec_default(),
    {
        let opts = CpuTensorDeviceOptions::default();
        Self::with_options(opts)
    }

    /// Builds a device from `opts`: clones the metrics handle out of the
    /// configuration, sizes the worker pool to the configured thread count
    /// (a count of zero is treated as one worker, so construction never
    /// fails), eagerly builds the exponential table, leaves the GELU table
    /// slot unbuilt until first use, and starts with an empty capture store.
    pub fn with_options(opts: CpuTensorDeviceOptions) -> (r: CpuTensorDeviceRef)
        ensures
            (*r).wf(),
            (*r).spec_opts() == opts,
    {
        let metrics = opts.metrics.clone();
        let worker_count: usize = if opts.thread_num == 0 {
            1
        } else {
            opts.thread_num
        };
        let thread_pool = mutex_new(pool_new(worker_count));
        let device = CpuTensorDevice {
            opts,
            metrics,
            exp_cache: build_exp_table(),
            gelu_cache: once_lock_new(),
            thread_pool,
            debug_tensors: RwLock::new(DebugTensors::new(), Ghost(StoreInv {})),
        };
        Arc::new(device)
    }

    /// The shared metrics handle held by the device.
    pub fn metrics(&self) -> (r: &TensorMetrics)
        ensures
            *r == self.spec_metrics(),
    {
        &self.metrics
    }

    /// The configured worker thread count, exactly as configured — a zero
    /// stays visible here even though the pool itself is sized to one.
    pub fn thread_num(&self) -> (r: usize)
        ensures
            r == self.spec_opts().thread_num,
    {
        self.opts.thread_num
    }

    /// The synchronized handle to the worker pool. A caller locks the handle
    /// to submit a batch of parallel work and releases it once submission
    /// completes; the lock serializes submission only, not execution. A
    /// panic while the handle is held poisons the lock, and every later
    /// acquire fails rather than proceed on possibly inconsistent state.
    pub fn thread_pool(&self) -> &std::sync::Mutex<threadpool::ThreadPool> {
        &self.thread_pool
    }

    /// The eagerly built exponential lookup table: entry `i` holds the
    /// half-precision rounding of the exponential of the half-precision
    /// value with bit pattern `i`. Shared and read-only; no synchronization
    /// is needed after construction.
    pub fn exp_cache(&self) -> (r: &Vec<u16>)
        requires
            self.wf(),
        ensures
            is_exp_table(r@),
    {
        &self.exp_cache
    }

    /// The lazily built GELU lookup table, with the same layout as the
    /// exponential table.
    ///
    /// Relies on `std::sync::OnceLock::get_or_init`: the first caller runs
    /// the builder and stores its result; concurrent first callers block
    /// until that single run completes; every call returns a reference to
    /// the one stored value, with no recomputation. The slot is created
    /// empty by the constructor and written nowhere else, so the stored
    /// value is always a result of the verified builder.
    #[verifier::external_body]
    pub fn gelu_cache(&self) -> (r: &Vec<u16>)
        ensures
            is_gelu_table(r@),
    {
        self.gelu_cache.get_or_init(build_gelu_table)
    }

    /// Captures the tensor's contents in the debug store under the tensor's
    /// name, replacing any earlier snapshot under that name. The tensor must
    /// carry a non-empty name — an unnamed capture is a precondition
    /// violation, never silently skipped. The store's lock serializes this
    /// insert against concurrent captures and lookups; which of two racing
    /// operations on one name happens first is up to the callers' own
    /// ordering. Invoked by kernels when `debug_named_tensors` is set, not
    /// by end users.
    pub fn add_debug_tensor(&self, tensor: &CapturedTensor)
        requires
            self.wf(),
            tensor.name is Some,
            tensor.name->0@.len() > 0,
    {
        let name: String = match &tensor.name {
            Some(n) => n.clone(),
            None => {
                // unreachable: the precondition demands a named tensor
                proof {
                    assert(false);
                }
                String::new()
            },
        };
        let values = clone_values(&tensor.values);
        let (mut store, handle) = self.debug_tensors.acquire_write();
        store.insert(name, values);
        handle.release_write(store);
    }

    /// The snapshot last captured under `name`, or `None` when `name` was
    /// never captured — a captured empty snapshot comes back as an empty
    /// vector, distinct from "never captured". The store's lock serializes
    /// this lookup against concurrent captures.
    pub fn dump_debug_tensor(&self, name: &str) -> (r: Option<Vec<u32>>)
        requires
            self.wf(),
    {
        let read_handle = self.debug_tensors.acquire_read();
        let result = match read_handle.borrow().get(name) {
            Some(values) => Some(clone_values(values)),
            None => None,
        };
        read_handle.release_read();
        result
    }
}

fn clone_values(values: &Vec<u32>) -> (r: Vec<u32>)
    ensures
        r@ == values@,
{
    let mut out: Vec<u32> = Vec::new();
    let n = values.len();
    let mut i: usize = 0;
    while i < n
        invariant
            i <= n,
            n == values@.len(),
            out@ == values@.subrange(0, i as int),
        decreases n - i,
    {
        out.push(values[i]);
        proof {
            assert(out@ =~= values@.subrange(0, i + 1));
        }
        i = i + 1;
    }
    proof {
        assert(out@ =~= values@);
    }
    out
}

} // verus!
