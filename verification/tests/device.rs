use std::sync::atomic::AtomicUsize;
use std::sync::atomic::Ordering;
use std::sync::mpsc::channel;
use std::sync::Arc;

use crabml_core::CapturedTensor;
use crabml_core::CpuTensorDevice;
use crabml_core::CpuTensorDeviceOptions;
use crabml_core::TensorMetrics;

#[test]
fn default_configuration_values() {
    let opts = CpuTensorDeviceOptions::default();
    assert_eq!(opts.thread_num, 1);
    assert!(!opts.debug_named_tensors);
    assert_eq!(opts.metrics, TensorMetrics::default());
    let device = CpuTensorDevice::new();
    assert_eq!(device.thread_num(), 1);
    assert_eq!(device.metrics(), &TensorMetrics::default());
}

#[test]
fn option_mutators_commute() {
    let a = CpuTensorDeviceOptions::default().with_thread_num(4).with_debug_named_tensors(true);
    let b = CpuTensorDeviceOptions::default().with_debug_named_tensors(true).with_thread_num(4);
    assert_eq!(a, b);
    assert_eq!(a.thread_num, 4);
    assert!(a.debug_named_tensors);
    let c = CpuTensorDeviceOptions::default().with_metrics(TensorMetrics::default());
    assert_eq!(c.thread_num, 1);
    let device = CpuTensorDevice::with_options(a);
    assert_eq!(device.thread_num(), 4);
}

#[test]
fn gelu_cache_same_contents_on_every_call() {
    let device = CpuTensorDevice::new();
    let first: Vec<u16> = device.gelu_cache().clone();
    let second = device.gelu_cache();
    assert_eq!(second.len(), 65536);
    assert_eq!(&first, second);
}

#[test]
fn gelu_cache_concurrent_first_calls_agree() {
    let device = CpuTensorDevice::with_options(
        CpuTensorDeviceOptions::default().with_thread_num(4),
    );
    let pool = threadpool::ThreadPool::new(4);
    let (tx, rx) = channel();
    for _ in 0..4 {
        let dev = device.clone();
        let tx = tx.clone();
        pool.execute(move || {
            tx.send(dev.gelu_cache().clone()).unwrap();
        });
    }
    drop(tx);
    let mut tables: Vec<Vec<u16>> = rx.iter().collect();
    assert_eq!(tables.len(), 4);
    let first = tables.pop().unwrap();
    for t in &tables {
        assert_eq!(&first, t);
    }
}

#[test]
fn debug_capture_overwrites_and_reports_absence() {
    let device = CpuTensorDevice::with_options(
        CpuTensorDeviceOptions::default().with_debug_named_tensors(true),
    );
    assert_eq!(device.dump_debug_tensor("x"), None);
    let first = CapturedTensor {
        name: Some("x".to_string()),
        values: vec![1.0f32.to_bits(), 2.5f32.to_bits()],
    };
    device.add_debug_tensor(&first);
    assert_eq!(
        device.dump_debug_tensor("x"),
        Some(vec![1.0f32.to_bits(), 2.5f32.to_bits()])
    );
    let second = CapturedTensor { name: Some("x".to_string()), values: vec![7.25f32.to_bits()] };
    device.add_debug_tensor(&second);
    assert_eq!(device.dump_debug_tensor("x"), Some(vec![7.25f32.to_bits()]));
    assert_eq!(device.dump_debug_tensor("y"), None);
    let empty = CapturedTensor { name: Some("empty".to_string()), values: vec![] };
    device.add_debug_tensor(&empty);
    assert_eq!(device.dump_debug_tensor("empty"), Some(vec![]));
}

#[test]
fn thread_pool_survives_many_sequential_submissions() {
    let device = CpuTensorDevice::with_options(
        CpuTensorDeviceOptions::default().with_thread_num(4),
    );
    let counter = Arc::new(AtomicUsize::new(0));
    for _ in 0..1000 {
        let c = counter.clone();
        let pool = device.thread_pool().lock().unwrap();
        pool.execute(move || {
            c.fetch_add(1, Ordering::SeqCst);
        });
    }
    device.thread_pool().lock().unwrap().join();
    assert_eq!(counter.load(Ordering::SeqCst), 1000);
}

#[test]
fn concurrent_captures_under_distinct_names() {
    let device = CpuTensorDevice::with_options(
        CpuTensorDeviceOptions::default().with_thread_num(4).with_debug_named_tensors(true),
    );
    let pool = threadpool::ThreadPool::new(2);
    let d1 = device.clone();
    let d2 = device.clone();
    pool.execute(move || {
        let t = CapturedTensor { name: Some("a".to_string()), values: vec![1u32, 2, 3] };
        d1.add_debug_tensor(&t);
    });
    pool.execute(move || {
        let t = CapturedTensor { name: Some("b".to_string()), values: vec![9u32] };
        d2.add_debug_tensor(&t);
    });
    pool.join();
    assert_eq!(device.dump_debug_tensor("a"), Some(vec![1u32, 2, 3]));
    assert_eq!(device.dump_debug_tensor("b"), Some(vec![9u32]));
}
