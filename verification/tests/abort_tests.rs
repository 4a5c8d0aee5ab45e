use sha512_lucet::abort::abort_report;
use sha512_lucet::abort::read_diagnostic;

fn two_strings() -> Vec<u8> {
    let mut heap = vec![0u8; 4];
    heap.extend_from_slice(&[2, 0, 0, 0, 0x6e, 0, 0x6f, 0]);
    heap.extend_from_slice(&[4, 0, 0, 0, 0x61, 0, 0x2e, 0, 0x74, 0, 0x73, 0]);
    heap
}

#[test]
fn abort_report_decodes_both_strings() {
    let heap = two_strings();
    let report = abort_report(&heap, 4, 12, 17, 3);
    assert_eq!(report.message, "no");
    assert_eq!(report.file, "a.ts");
    assert_eq!(report.line, 17);
    assert_eq!(report.col, 3);
}

#[test]
fn abort_report_survives_bad_pointers() {
    let heap = two_strings();
    let report = abort_report(&heap, 4000, 22, u32::MAX, 0);
    assert_eq!(report.message, "<unreadable>");
    assert_eq!(report.file, "<unreadable>");
    assert_eq!(report.line, u32::MAX);
    assert_eq!(report.col, 0);
}

#[test]
fn unreadable_diagnostic_is_the_placeholder() {
    assert_eq!(read_diagnostic(&[], 0), "<unreadable>");
    assert_eq!(read_diagnostic(&[1, 0, 0, 0, 0x21, 0], 0), "!");
}
