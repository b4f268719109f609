use gc_adapter::device::DeviceId;
use gc_adapter::error::{Platform, ProbeError, UsbError, UsbErrorKind};
use gc_adapter::probe::{Action, Event, Prober, Stage};

fn usb(kind: UsbErrorKind, description: &str) -> UsbError {
    UsbError { kind, description: description.to_string() }
}

fn id(vendor_id: u16, product_id: u16) -> DeviceId {
    DeviceId { vendor_id, product_id }
}

/// A prober that has claimed the adapter and is about to write.
fn claimed_prober() -> Prober {
    let mut p = Prober::new(Platform::Linux);
    p.step(Event::ContextCreated(Ok(())));
    p.step(Event::DevicesListed(Ok(vec![Some(id(0x057E, 0x0337))])));
    p.step(Event::Opened(Ok(())));
    p.step(Event::DriverQueried(Ok(false)));
    p.step(Event::Claimed(Ok(())));
    p
}

#[test]
fn end_to_end_two_ports_plugged() {
    let mut p = Prober::new(Platform::Linux);
    let mut output: Vec<String> = Vec::new();
    assert_eq!(p.action(), Action::CreateContext);
    output.extend(p.step(Event::ContextCreated(Ok(()))));
    assert_eq!(p.action(), Action::ListDevices);
    output.extend(p.step(Event::DevicesListed(Ok(vec![
        Some(id(0x1234, 0x0001)),
        Some(id(0x057E, 0x0337)),
    ]))));
    assert_eq!(p.action(), Action::Open { device: 1 });
    output.extend(p.step(Event::Opened(Ok(()))));
    assert_eq!(p.action(), Action::QueryKernelDriver { interface: 0 });
    output.extend(p.step(Event::DriverQueried(Ok(true))));
    assert_eq!(p.action(), Action::DetachKernelDriver { interface: 0 });
    output.extend(p.step(Event::Detached(Ok(()))));
    assert_eq!(p.action(), Action::ClaimInterface { interface: 0 });
    output.extend(p.step(Event::Claimed(Ok(()))));
    assert_eq!(
        p.action(),
        Action::WriteInterrupt { endpoint: 0x02, command: 0x13, timeout_secs: 1 }
    );
    output.extend(p.step(Event::Written(Ok(()))));
    let mut report = [0u8; 37];
    report[1] = 20;
    report[10] = 16;
    report[19] = 0;
    report[28] = 1;
    for _ in 0..100 {
        assert_eq!(
            p.action(),
            Action::ReadInterrupt { endpoint: 0x81, len: 37, timeout_secs: 1 }
        );
        output.extend(p.step(Event::ReportRead(Ok(report))));
    }
    assert_eq!(p.action(), Action::Finish);
    match p.finish() {
        Some(Ok(states)) => output.extend(states.lines()),
        other => panic!("unexpected outcome {:?}", other),
    }
    assert_eq!(
        output,
        vec![
            "Unknown usb device with vendor_id 0x1234 and product_id 0x1".to_string(),
            "GC Adapter port 1: plugged in".to_string(),
            "GC Adapter port 2: plugged in".to_string(),
            "GC Adapter port 3: unplugged".to_string(),
            "GC Adapter port 4: unplugged".to_string(),
        ]
    );
}

#[test]
fn only_the_hundredth_report_counts() {
    let mut p = claimed_prober();
    p.step(Event::Written(Ok(())));
    let stale = [20u8; 37];
    for _ in 0..99 {
        p.step(Event::ReportRead(Ok(stale)));
        assert!(matches!(p.action(), Action::ReadInterrupt { .. }));
    }
    let mut fresh = [0u8; 37];
    fresh[28] = 16;
    p.step(Event::ReportRead(Ok(fresh)));
    match p.finish() {
        Some(Ok(states)) => assert_eq!(states.plugged, [false, false, false, true]),
        other => panic!("unexpected outcome {:?}", other),
    }
}

#[test]
fn write_failure_aborts_before_reading() {
    let mut p = claimed_prober();
    p.step(Event::Written(Err(usb(UsbErrorKind::Timeout, "Operation timed out"))));
    assert_eq!(p.action(), Action::Finish);
    p.step(Event::ReportRead(Ok([20u8; 37])));
    assert_eq!(p.action(), Action::Finish);
    match p.finish() {
        Some(Err(e)) => {
            assert!(matches!(e, ProbeError::InitError(_)));
            assert_eq!(e.message(), "Failed to initialize GC adapter: Operation timed out");
        }
        other => panic!("unexpected outcome {:?}", other),
    }
}

#[test]
fn read_failure_aborts_remaining_reads() {
    for failing in [0usize, 1, 50, 99] {
        let mut p = claimed_prober();
        p.step(Event::Written(Ok(())));
        for _ in 0..failing {
            p.step(Event::ReportRead(Ok([0u8; 37])));
        }
        assert!(matches!(p.action(), Action::ReadInterrupt { .. }));
        p.step(Event::ReportRead(Err(usb(UsbErrorKind::Pipe, "Pipe error"))));
        assert_eq!(p.action(), Action::Finish);
        p.step(Event::ReportRead(Ok([20u8; 37])));
        match p.finish() {
            Some(Err(e)) => {
                assert_eq!(e.message(), "Failed to read data from GC adapter: Pipe error")
            }
            other => panic!("unexpected outcome {:?}", other),
        }
    }
}

#[test]
fn no_adapter_is_device_not_found() {
    let mut p = Prober::new(Platform::Other);
    p.step(Event::ContextCreated(Ok(())));
    let lines = p.step(Event::DevicesListed(Ok(vec![None, Some(id(1, 2))])));
    assert_eq!(lines, vec!["Unknown usb device with vendor_id 0x1 and product_id 0x2".to_string()]);
    assert_eq!(p.action(), Action::Finish);
    match p.finish() {
        Some(Err(e)) => assert_eq!(e.message(), "No GC adapter found"),
        other => panic!("unexpected outcome {:?}", other),
    }
}

#[test]
fn context_and_enumeration_failures() {
    let mut p = Prober::new(Platform::Linux);
    p.step(Event::ContextCreated(Err(usb(UsbErrorKind::NoMem, "Insufficient memory"))));
    assert!(matches!(p.finish(), Some(Err(ProbeError::ContextError(_)))));
    let mut p = Prober::new(Platform::Linux);
    p.step(Event::ContextCreated(Ok(())));
    p.step(Event::DevicesListed(Err(usb(UsbErrorKind::Io, "io"))));
    assert!(matches!(p.finish(), Some(Err(ProbeError::EnumerationError(_)))));
}

#[test]
fn permission_denied_on_open() {
    let mut p = Prober::new(Platform::Linux);
    p.step(Event::ContextCreated(Ok(())));
    p.step(Event::DevicesListed(Ok(vec![Some(id(0x057E, 0x0337))])));
    p.step(Event::Opened(Err(usb(UsbErrorKind::Access, "denied"))));
    match p.finish() {
        Some(Err(e)) => assert!(e.message().contains("udev rule")),
        other => panic!("unexpected outcome {:?}", other),
    }
}

#[test]
fn driver_query_failure_is_ignored() {
    let mut p = Prober::new(Platform::Linux);
    p.step(Event::ContextCreated(Ok(())));
    p.step(Event::DevicesListed(Ok(vec![Some(id(0x057E, 0x0337))])));
    p.step(Event::Opened(Ok(())));
    p.step(Event::DriverQueried(Err(usb(UsbErrorKind::NotSupported, "n/a"))));
    assert_eq!(p.action(), Action::ClaimInterface { interface: 0 });
}

#[test]
fn detach_and_claim_failures() {
    let mut p = Prober::new(Platform::Linux);
    p.step(Event::ContextCreated(Ok(())));
    p.step(Event::DevicesListed(Ok(vec![Some(id(0x057E, 0x0337))])));
    p.step(Event::Opened(Ok(())));
    p.step(Event::DriverQueried(Ok(true)));
    p.step(Event::Detached(Err(usb(UsbErrorKind::Busy, "busy"))));
    assert!(matches!(p.finish(), Some(Err(ProbeError::DetachError(_)))));
    let mut p = Prober::new(Platform::Linux);
    p.step(Event::ContextCreated(Ok(())));
    p.step(Event::DevicesListed(Ok(vec![Some(id(0x057E, 0x0337))])));
    p.step(Event::Opened(Ok(())));
    p.step(Event::DriverQueried(Ok(false)));
    p.step(Event::Claimed(Err(usb(UsbErrorKind::Busy, "busy"))));
    match p.finish() {
        Some(Err(e)) => assert_eq!(e.message(), "Failed to claim interface on GC adapter: busy"),
        other => panic!("unexpected outcome {:?}", other),
    }
}

#[test]
fn unexpected_event_changes_nothing() {
    let mut p = Prober::new(Platform::Linux);
    let lines = p.step(Event::Written(Ok(())));
    assert!(lines.is_empty());
    assert!(matches!(p.stage, Stage::CreatingContext));
    assert_eq!(p.action(), Action::CreateContext);
    assert!(p.finish().is_none());
}
