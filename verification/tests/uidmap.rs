use coretoolbox::error::ToolboxError;
use coretoolbox::uidmap::{uid_mapping, UidMapping, UidRange, MAX_UID_COUNT};

fn ranges(m: &UidMapping) -> [UidRange; 3] {
    [m.own, m.below, m.above]
}

fn covers(r: &UidRange, c: u64) -> bool {
    (r.container_start as u64) <= c && c < r.container_start as u64 + r.length as u64
}

fn reaches(r: &UidRange, h: u64) -> bool {
    (r.host_start as u64) <= h && h < r.host_start as u64 + r.length as u64
}

#[test]
fn mapping_of_uid_1000() {
    let m = uid_mapping(1000).unwrap();
    assert_eq!(m.own, UidRange { container_start: 1000, host_start: 0, length: 1 });
    assert_eq!(m.below, UidRange { container_start: 0, host_start: 1, length: 1000 });
    assert_eq!(m.above, UidRange { container_start: 1001, host_start: 1001, length: 64536 });
    assert_eq!(
        m.to_args(),
        vec![
            "--uidmap=1000:0:1".to_string(),
            "--uidmap=0:1:1000".to_string(),
            "--uidmap=1001:1001:64536".to_string(),
        ]
    );
}

#[test]
fn mapping_of_smallest_and_largest_uid() {
    let low = uid_mapping(1).unwrap();
    assert_eq!(low.own, UidRange { container_start: 1, host_start: 0, length: 1 });
    assert_eq!(low.below, UidRange { container_start: 0, host_start: 1, length: 1 });
    assert_eq!(low.above, UidRange { container_start: 2, host_start: 2, length: 65535 });
    let high = uid_mapping(MAX_UID_COUNT - 1).unwrap();
    assert_eq!(high.own, UidRange { container_start: 65535, host_start: 0, length: 1 });
    assert_eq!(high.below, UidRange { container_start: 0, host_start: 1, length: 65535 });
    assert_eq!(high.above, UidRange { container_start: 65536, host_start: 65536, length: 1 });
}

#[test]
fn every_id_is_covered_once() {
    for u in [1u32, 2, 999, 1000, 32768, 65534, 65535] {
        let m = uid_mapping(u).unwrap();
        for c in 0..(MAX_UID_COUNT as u64) {
            let n = ranges(&m).iter().filter(|r| covers(r, c)).count();
            assert_eq!(n, 1, "uid {} id {}", u, c);
        }
        for h in 0..(MAX_UID_COUNT as u64) {
            let n = ranges(&m).iter().filter(|r| reaches(r, h)).count();
            assert_eq!(n, 1, "uid {} host id {}", u, h);
        }
        assert!(covers(&m.own, u as u64));
        assert_eq!(m.own.host_start, 0);
        assert_eq!(m.own.length, 1);
    }
}

#[test]
fn ranges_end_one_past_the_count() {
    for u in [1u32, 1000, 65535] {
        let m = uid_mapping(u).unwrap();
        let covered = ranges(&m).iter().filter(|r| covers(r, MAX_UID_COUNT as u64)).count();
        assert_eq!(covered, 1);
        let beyond = ranges(&m).iter().filter(|r| covers(r, MAX_UID_COUNT as u64 + 1)).count();
        assert_eq!(beyond, 0);
        let total: u64 = ranges(&m).iter().map(|r| r.length as u64).sum();
        assert_eq!(total, MAX_UID_COUNT as u64 + 1);
    }
}

#[test]
fn uid_zero_is_refused() {
    assert_eq!(uid_mapping(0), Err(ToolboxError::UidOutOfRange(0)));
}

#[test]
fn uid_at_or_above_the_count_is_refused() {
    assert_eq!(uid_mapping(65536), Err(ToolboxError::UidOutOfRange(65536)));
    assert_eq!(uid_mapping(65537), Err(ToolboxError::UidOutOfRange(65537)));
    assert_eq!(uid_mapping(u32::MAX), Err(ToolboxError::UidOutOfRange(u32::MAX)));
}

#[test]
fn range_argument_is_decimal() {
    let r = UidRange { container_start: 0, host_start: 4294967295, length: 10 };
    assert_eq!(r.to_arg(), "--uidmap=0:4294967295:10");
}
