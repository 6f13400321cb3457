use nvtweak::error::AdapterError;
use nvtweak::offsets::{apply_offsets, OffsetDomain, RecordingSink, WriteRecord};

#[test]
fn unprivileged_apply_never_writes() {
    let mut sink = RecordingSink::new(0, 0);
    let r = apply_offsets(&mut sink, false, "50", "-100");
    assert_eq!(r, Err(AdapterError::PermissionDenied));
    assert!(sink.calls.is_empty());
}

#[test]
fn malformed_input_never_writes() {
    let mut sink = RecordingSink::new(0, 0);
    assert_eq!(
        apply_offsets(&mut sink, true, "abc", "5"),
        Err(AdapterError::InvalidOffset)
    );
    assert_eq!(
        apply_offsets(&mut sink, true, "5", ""),
        Err(AdapterError::InvalidOffset)
    );
    assert_eq!(
        apply_offsets(&mut sink, true, "5.0", "6"),
        Err(AdapterError::InvalidOffset)
    );
    assert!(sink.calls.is_empty());
}

#[test]
fn parse_errors_are_reported_before_privilege() {
    let mut sink = RecordingSink::new(0, 0);
    let r = apply_offsets(&mut sink, false, "abc", "5");
    assert_eq!(r, Err(AdapterError::InvalidOffset));
    assert!(sink.calls.is_empty());
}

#[test]
fn rejected_core_write_short_circuits() {
    let mut sink = RecordingSink::new(7, 0);
    let r = apply_offsets(&mut sink, true, "50", "-100");
    assert_eq!(r, Err(AdapterError::HardwareRejected(7)));
    // Exactly one call was made: the core write. The memory write was
    // never attempted.
    assert_eq!(
        sink.calls,
        vec![WriteRecord { domain: OffsetDomain::Core, value: 50, status: 7 }]
    );
}

#[test]
fn memory_failure_leaves_core_offset_applied() {
    let mut sink = RecordingSink::new(0, 9);
    let r = apply_offsets(&mut sink, true, "50", "-100");
    assert_eq!(r, Err(AdapterError::HardwareRejected(9)));
    // One successful call and one failed call, in order: the core offset
    // stays applied, the memory offset does not.
    assert_eq!(
        sink.calls,
        vec![
            WriteRecord { domain: OffsetDomain::Core, value: 50, status: 0 },
            WriteRecord { domain: OffsetDomain::Memory, value: -100, status: 9 },
        ]
    );
}

#[test]
fn successful_apply_issues_two_calls_in_order() {
    let mut sink = RecordingSink::new(0, 0);
    let r = apply_offsets(&mut sink, true, "50", "-100");
    assert_eq!(r, Ok(()));
    assert_eq!(
        sink.calls,
        vec![
            WriteRecord { domain: OffsetDomain::Core, value: 50, status: 0 },
            WriteRecord { domain: OffsetDomain::Memory, value: -100, status: 0 },
        ]
    );
}
