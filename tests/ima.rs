use keylime_agent::ima::{read_measurement_list, MeasurementList};

const LOG: &str = "10 aaa ima-ng sha1:00 boot_aggregate\n10 bbb ima-ng sha256:11 /bin/sh\n10 ccc ima-ng sha256:22 /bin/ls\n";

#[test]
fn whole_log_from_entry_zero() {
    let mut ml = MeasurementList::new();
    let (slice, offset, total) = read_measurement_list(&mut ml, LOG, 0);
    assert_eq!(slice.as_deref(), Some(LOG));
    assert_eq!(offset, None);
    assert_eq!(total, 3);
    assert_eq!(ml.num_entries, 3);
}

#[test]
fn entries_from_an_offset() {
    let mut ml = MeasurementList::new();
    let (slice, offset, total) = read_measurement_list(&mut ml, LOG, 1);
    assert_eq!(
        slice.as_deref(),
        Some("10 bbb ima-ng sha256:11 /bin/sh\n10 ccc ima-ng sha256:22 /bin/ls\n")
    );
    assert_eq!(offset, Some(1));
    assert_eq!(total, 3);
    let (slice, offset, _) = read_measurement_list(&mut ml, LOG, 2);
    assert_eq!(slice.as_deref(), Some("10 ccc ima-ng sha256:22 /bin/ls\n"));
    assert_eq!(offset, Some(2));
}

#[test]
fn caught_up_reader_gets_nothing() {
    let mut ml = MeasurementList::new();
    assert_eq!(read_measurement_list(&mut ml, LOG, 3), (None, Some(3), 3));
    assert_eq!(read_measurement_list(&mut ml, LOG, 10), (None, Some(3), 3));
}

#[test]
fn empty_log() {
    let mut ml = MeasurementList::new();
    assert_eq!(read_measurement_list(&mut ml, "", 0), (Some(String::new()), None, 0));
    assert_eq!(read_measurement_list(&mut ml, "", 1), (None, Some(0), 0));
}

#[test]
fn last_line_without_line_feed_counts() {
    let mut ml = MeasurementList::new();
    assert_eq!(
        read_measurement_list(&mut ml, "a\nb", 1),
        (Some("b".to_string()), Some(1), 2)
    );
}

#[test]
fn replaying_slices_rebuilds_the_log() {
    let mut ml = MeasurementList::new();
    let first = "a\nb\n";
    let (s0, _, t0) = read_measurement_list(&mut ml, first, 0);
    let grown = "a\nb\nc\nd\n";
    let (s1, o1, _) = read_measurement_list(&mut ml, grown, t0);
    assert_eq!(o1, Some(t0));
    assert_eq!(format!("{}{}", s0.unwrap(), s1.unwrap()), grown);
}
