//! The configuration of the debug strategy and its record.

use zigalloc::{
    leak_policy, ConfigRecord, CreateCall, DebugAllocatorConfig, LeakPolicy, ZigArenaSmpAllocator,
    ZigDebugAllocator, ZigSmpAllocator, CONFIG_RECORD_ALIGN, CONFIG_RECORD_SIZE,
};

#[test]
fn default_config_panics_on_leaks() {
    assert!(DebugAllocatorConfig::default().panic_on_leaks);
    assert_eq!(DebugAllocatorConfig::default(), DebugAllocatorConfig { panic_on_leaks: true });
}

#[test]
fn record_is_one_byte_with_byte_alignment() {
    assert_eq!(CONFIG_RECORD_SIZE, 1);
    assert_eq!(CONFIG_RECORD_ALIGN, 1);
    let record = DebugAllocatorConfig { panic_on_leaks: true }.to_record();
    assert_eq!(record.as_bytes().len(), CONFIG_RECORD_SIZE);
}

#[test]
fn record_holds_the_boolean_at_offset_zero() {
    assert_eq!(DebugAllocatorConfig { panic_on_leaks: true }.to_record().as_bytes(), [1u8]);
    assert_eq!(DebugAllocatorConfig { panic_on_leaks: false }.to_record().as_bytes(), [0u8]);
}

#[test]
fn record_round_trip() {
    for panic_on_leaks in [false, true] {
        let config = DebugAllocatorConfig { panic_on_leaks };
        let record = config.to_record();
        assert_eq!(record.config(), config);
        let read_back = ConfigRecord::from_bytes(record.as_bytes()).unwrap();
        assert_eq!(read_back, record);
        assert_eq!(read_back.config(), config);
    }
}

#[test]
fn bytes_that_are_no_boolean_are_no_record() {
    assert_eq!(ConfigRecord::from_bytes([2]), None);
    assert_eq!(ConfigRecord::from_bytes([0x80]), None);
    assert_eq!(ConfigRecord::from_bytes([0xff]), None);
    assert!(ConfigRecord::from_bytes([0]).is_some());
    assert!(ConfigRecord::from_bytes([1]).is_some());
}

#[test]
fn creation_calls_by_strategy() {
    assert_eq!(ZigSmpAllocator::create(), CreateCall::Smp);
    assert_eq!(ZigArenaSmpAllocator::create(), CreateCall::ArenaSmp);
    let warn = DebugAllocatorConfig { panic_on_leaks: false };
    assert_eq!(ZigDebugAllocator::create(warn), CreateCall::Debug { config: warn.to_record() });
    let panic = DebugAllocatorConfig { panic_on_leaks: true };
    assert_eq!(ZigDebugAllocator::create(panic), CreateCall::Debug { config: panic.to_record() });
}

#[test]
fn leak_policy_by_creation_call() {
    assert_eq!(leak_policy(&CreateCall::Smp), LeakPolicy::Untracked);
    assert_eq!(leak_policy(&CreateCall::ArenaSmp), LeakPolicy::Untracked);
    let warn = DebugAllocatorConfig { panic_on_leaks: false };
    assert_eq!(leak_policy(&ZigDebugAllocator::create(warn)), LeakPolicy::Warn);
    let panic = DebugAllocatorConfig::default();
    assert_eq!(leak_policy(&ZigDebugAllocator::create(panic)), LeakPolicy::Panic);
}
