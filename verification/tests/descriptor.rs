use fdprogress::estimate::{throughput, Progress, NANOS_PER_SECOND};
use fdprogress::fd::FD;
use fdprogress::flags::FDFlags;

const SECOND: u64 = NANOS_PER_SECOND;

fn snapshot(pos: u64, size: u64, at: u64) -> FD {
    FD {
        id: 3,
        name: String::from("/data/in"),
        size,
        pos,
        flags: FDFlags::ReadOnly,
        speed: None,
        last_scan: at,
    }
}

#[test]
fn throughput_of_the_named_samples() {
    assert_eq!(throughput(0, 0, 5120, SECOND), Some(5120));
    assert_eq!(throughput(100, 0, 100, 2 * SECOND), Some(0));
}

#[test]
fn throughput_scales_with_the_time_between_samples() {
    assert_eq!(throughput(0, 0, 5120, 2 * SECOND), Some(2560));
    assert_eq!(throughput(0, 0, 5120, SECOND / 2), Some(10240));
    assert_eq!(throughput(1000, 5 * SECOND, 1010, 8 * SECOND), Some(3));
    assert_eq!(throughput(0, 0, 1, 1), Some(SECOND));
    assert_eq!(throughput(0, u64::MAX - 1, 7, u64::MAX), Some(7 * SECOND));
}

#[test]
fn throughput_is_unknown_without_elapsed_time() {
    assert_eq!(throughput(0, 10, 5120, 10), None);
    assert_eq!(throughput(0, 10, 5120, 9), None);
    assert_eq!(throughput(0, 0, 0, 0), None);
}

#[test]
fn throughput_is_unknown_when_the_offset_went_back() {
    assert_eq!(throughput(100, 0, 99, SECOND), None);
    assert_eq!(throughput(u64::MAX, 0, 0, SECOND), None);
}

#[test]
fn throughput_stops_at_the_largest_rate() {
    assert_eq!(throughput(0, 0, u64::MAX, 1), Some(u64::MAX));
    assert_eq!(throughput(0, 0, u64::MAX, SECOND), Some(u64::MAX));
    assert_eq!(throughput(0, 0, u64::MAX, SECOND - 1), Some(u64::MAX));
    assert_eq!(throughput(0, 0, u64::MAX, 2 * SECOND), Some(u64::MAX / 2));
}

#[test]
fn progress_is_unknown_for_size_zero() {
    assert_eq!(snapshot(0, 0, 0).progress(), None);
    assert_eq!(snapshot(4096, 0, 0).progress(), None);
}

#[test]
fn progress_is_offset_over_size() {
    assert_eq!(snapshot(0, 100, 0).progress(), Some(Progress { done: 0, total: 100 }));
    assert_eq!(snapshot(25, 100, 0).progress(), Some(Progress { done: 25, total: 100 }));
    assert_eq!(snapshot(100, 100, 0).progress(), Some(Progress { done: 100, total: 100 }));
    assert_eq!(
        snapshot(u64::MAX, u64::MAX, 0).progress(),
        Some(Progress { done: u64::MAX, total: u64::MAX })
    );
}

#[test]
fn progress_is_at_most_one() {
    assert_eq!(snapshot(101, 100, 0).progress(), Some(Progress { done: 100, total: 100 }));
    assert_eq!(snapshot(u64::MAX, 1, 0).progress(), Some(Progress { done: 1, total: 1 }));
}

#[test]
fn basis_points_are_hundredths_of_a_percent() {
    assert_eq!(Progress { done: 0, total: 7 }.basis_points(), 0);
    assert_eq!(Progress { done: 7, total: 7 }.basis_points(), 10000);
    assert_eq!(Progress { done: 1, total: 2 }.basis_points(), 5000);
    assert_eq!(Progress { done: 1, total: 3 }.basis_points(), 3333);
    assert_eq!(Progress { done: 2, total: 3 }.basis_points(), 6667);
    assert_eq!(Progress { done: 1, total: 80000 }.basis_points(), 0);
    assert_eq!(Progress { done: 3, total: 80000 }.basis_points(), 0);
    assert_eq!(Progress { done: 5, total: 80000 }.basis_points(), 1);
    assert_eq!(Progress { done: 12, total: 80000 }.basis_points(), 2);
    assert_eq!(Progress { done: 20, total: 80000 }.basis_points(), 2);
    assert_eq!(Progress { done: u64::MAX - 1, total: u64::MAX }.basis_points(), 10000);
    assert_eq!(Progress { done: u64::MAX / 2, total: u64::MAX }.basis_points(), 5000);
}

#[test]
fn new_builds_the_first_snapshot() {
    let fd = FD::new(
        5,
        Some(String::from("/data/out")),
        Some("pos:\t4096\nflags:\t0100001\nmnt_id:\t9\n"),
        Some(1 << 20),
        17,
    )
    .unwrap();
    assert_eq!(fd.id, 5);
    assert_eq!(fd.name, "/data/out");
    assert_eq!(fd.size, 1 << 20);
    assert_eq!(fd.pos, 4096);
    assert_eq!(fd.flags, FDFlags::WriteOnly);
    assert_eq!(fd.speed(), None);
    assert_eq!(fd.last_scan, 17);
}

#[test]
fn new_decodes_each_access_mode() {
    let mode = |flags: &str| {
        let info = format!("pos: 0\nflags: {}\n", flags);
        FD::new(0, Some(String::from("x")), Some(&info), Some(0), 0).unwrap().flags
    };
    assert_eq!(mode("0100000"), FDFlags::ReadOnly);
    assert_eq!(mode("0100001"), FDFlags::WriteOnly);
    assert_eq!(mode("02"), FDFlags::ReadWrite);
    assert_eq!(mode("3"), FDFlags::ReadOnly);
    assert_eq!(mode("02000002"), FDFlags::ReadWrite);
}

#[test]
fn new_needs_every_part() {
    let info = "pos: 1\nflags: 0\n";
    let name = || Some(String::from("/a"));
    assert!(FD::new(1, name(), Some(info), Some(10), 0).is_some());
    assert!(FD::new(1, None, Some(info), Some(10), 0).is_none());
    assert!(FD::new(1, name(), None, Some(10), 0).is_none());
    assert!(FD::new(1, name(), Some(info), None, 0).is_none());
    assert!(FD::new(1, None, None, None, 0).is_none());
}

#[test]
fn new_needs_a_usable_record() {
    let name = || Some(String::from("/a"));
    assert!(FD::new(1, name(), Some(""), Some(10), 0).is_none());
    assert!(FD::new(1, name(), Some("pos: 1\n"), Some(10), 0).is_none());
    assert!(FD::new(1, name(), Some("flags: 1\n"), Some(10), 0).is_none());
    assert!(FD::new(1, name(), Some("pos: a\nflags: 1\n"), Some(10), 0).is_none());
    assert!(FD::new(1, name(), Some("pos: 1\nflags: b\n"), Some(10), 0).is_none());
}

#[test]
fn new_keeps_a_size_of_zero() {
    let fd = FD::new(1, Some(String::from("pipe:[77]")), Some("pos: 0\nflags: 0\n"), Some(0), 0)
        .unwrap();
    assert_eq!(fd.size, 0);
    assert_eq!(fd.progress(), None);
}

#[test]
fn update_takes_the_new_offset_and_the_rate() {
    let mut fd = snapshot(0, 10240, 0);
    assert!(fd.update(Some("pos:\t5120\nflags:\t0100000\n"), SECOND));
    assert_eq!(fd.pos, 5120);
    assert_eq!(fd.speed(), Some(5120));
    assert_eq!(fd.last_scan, SECOND);
    assert_eq!(fd.progress(), Some(Progress { done: 5120, total: 10240 }));
    assert!(fd.update(Some("pos:\t5120\nflags:\t0100000\n"), 3 * SECOND));
    assert_eq!(fd.pos, 5120);
    assert_eq!(fd.speed(), Some(0));
    assert_eq!(fd.last_scan, 3 * SECOND);
}

#[test]
fn update_keeps_name_size_and_mode() {
    let mut fd = snapshot(0, 10240, 0);
    assert!(fd.update(Some("pos: 1\nflags: 1\n"), SECOND));
    assert_eq!(fd.id, 3);
    assert_eq!(fd.name, "/data/in");
    assert_eq!(fd.size, 10240);
    assert_eq!(fd.flags, FDFlags::ReadOnly);
}

#[test]
fn update_fails_without_a_usable_record() {
    for info in [None, Some(""), Some("pos: 7\n"), Some("flags: 0\n"), Some("pos: x\nflags: 0\n"),
        Some("pos: 7\nflags: x\n")]
    {
        let mut fd = snapshot(10, 100, 5);
        fd.speed = Some(9);
        assert!(!fd.update(info, SECOND));
        assert_eq!(fd.pos, 10);
        assert_eq!(fd.speed(), Some(9));
        assert_eq!(fd.last_scan, 5);
    }
}

#[test]
fn update_without_a_rate_still_takes_the_offset() {
    let mut fd = snapshot(10, 100, 5);
    fd.speed = Some(9);
    assert!(fd.update(Some("pos: 20\nflags: 0\n"), 5));
    assert_eq!(fd.pos, 20);
    assert_eq!(fd.speed(), None);
    let mut back = snapshot(10, 100, 5);
    assert!(back.update(Some("pos: 4\nflags: 0\n"), 6));
    assert_eq!(back.pos, 4);
    assert_eq!(back.speed(), None);
    assert_eq!(back.last_scan, 6);
}
