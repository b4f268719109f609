use gc_adapter::report::{decode_report, port_line, port_plugged_in, PortStates, REPORT_LEN};

fn report_with(port: usize, status: u8) -> [u8; 37] {
    let mut report = [0u8; REPORT_LEN];
    report[9 * port + 1] = status;
    report
}

#[test]
fn plugged_in_only_for_wired_and_wireless_status() {
    for port in 0..4 {
        for status in 0..=255u8 {
            let report = report_with(port, status);
            let expected = status == 20 || status == 16;
            assert_eq!(port_plugged_in(&report, port), expected);
            assert_eq!(decode_report(&report).is_plugged_in(port), expected);
        }
    }
}

#[test]
fn other_status_values_are_unplugged() {
    for status in [0u8, 1, 15, 17, 19, 21, 255] {
        for port in 0..4 {
            assert!(!port_plugged_in(&report_with(port, status), port));
        }
    }
}

#[test]
fn each_port_reads_its_own_byte() {
    let mut report = [20u8; REPORT_LEN];
    report[1] = 0;
    report[10] = 16;
    report[19] = 1;
    report[28] = 20;
    let states = decode_report(&report);
    assert_eq!(states.plugged, [false, true, false, true]);
}

#[test]
fn empty_report_is_all_unplugged() {
    let states = decode_report(&[0u8; REPORT_LEN]);
    assert_eq!(states, PortStates { plugged: [false; 4] });
}

#[test]
fn port_lines_are_numbered_from_one() {
    assert_eq!(port_line(0, true), "GC Adapter port 1: plugged in");
    assert_eq!(port_line(3, false), "GC Adapter port 4: unplugged");
    let states = PortStates { plugged: [true, false, false, true] };
    assert_eq!(
        states.lines(),
        vec![
            "GC Adapter port 1: plugged in".to_string(),
            "GC Adapter port 2: unplugged".to_string(),
            "GC Adapter port 3: unplugged".to_string(),
            "GC Adapter port 4: plugged in".to_string(),
        ]
    );
}
