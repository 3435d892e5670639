//! Exact-value tests for name encoding, deadline arithmetic, and the
//! error mapping.

use posixmq::error::{error_from_errno, Error};
use posixmq::name::{encode_name, is_encoded_name};
use posixmq::options::{OpenOptions, O_CREAT, O_EXCL, O_NONBLOCK, O_RDWR, O_WRONLY};
use posixmq::time::{
    deadline_to_realtime, timeout_to_realtime, timeout_to_realtime_at, Duration, TimeSpec,
    WallTime,
};

#[test]
fn encode_name_prepends_separator_and_terminates() {
    assert_eq!(encode_name(b"queue"), Ok(b"/queue\0".to_vec()));
}

#[test]
fn encode_name_keeps_existing_separator_single() {
    assert_eq!(encode_name(b"/queue"), Ok(b"/queue\0".to_vec()));
}

#[test]
fn encode_name_of_empty_name_is_bare_separator() {
    assert_eq!(encode_name(b""), Ok(b"/\0".to_vec()));
    assert_eq!(encode_name(b"/"), Ok(b"/\0".to_vec()));
}

#[test]
fn encode_name_rejects_embedded_null() {
    assert_eq!(encode_name(b"a\0b"), Err(Error::InvalidInput));
    assert_eq!(encode_name(b"/a\0b"), Err(Error::InvalidInput));
}

#[test]
fn is_encoded_name_checks_the_kernel_shape() {
    assert!(is_encoded_name(b"/queue\0"));
    assert!(is_encoded_name(b"queue\0"));
    assert!(!is_encoded_name(b""));
    assert!(!is_encoded_name(b"queue"));
    assert!(!is_encoded_name(b"a\0b\0"));
}

#[test]
fn deadline_after_epoch_converts_exactly() {
    let w = WallTime { before_epoch: false, secs: 1_234, nanos: 567 };
    assert_eq!(
        deadline_to_realtime(w),
        Ok(TimeSpec { tv_sec: 1_234, tv_nsec: 567 })
    );
}

#[test]
fn deadline_before_epoch_counts_nanos_toward_positive_infinity() {
    // 1.25 s before the epoch: seconds round down, the nanosecond
    // remainder counts up toward the epoch.
    let w = WallTime { before_epoch: true, secs: 1, nanos: 250_000_000 };
    assert_eq!(
        deadline_to_realtime(w),
        Ok(TimeSpec { tv_sec: -2, tv_nsec: 750_000_000 })
    );
    // A whole-second point before the epoch has no remainder.
    let w = WallTime { before_epoch: true, secs: 3, nanos: 0 };
    assert_eq!(
        deadline_to_realtime(w),
        Ok(TimeSpec { tv_sec: -3, tv_nsec: 0 })
    );
}

#[test]
fn deadline_beyond_future_end_saturates_to_latest_whole_second() {
    let w = WallTime { before_epoch: false, secs: u64::MAX, nanos: 1 };
    assert_eq!(
        deadline_to_realtime(w),
        Err(TimeSpec { tv_sec: i64::MAX, tv_nsec: 0 })
    );
}

#[test]
fn deadline_beyond_past_end_saturates_to_earliest_point() {
    let w = WallTime { before_epoch: true, secs: u64::MAX, nanos: 0 };
    assert_eq!(
        deadline_to_realtime(w),
        Err(TimeSpec { tv_sec: i64::MIN, tv_nsec: 0 })
    );
    // The earliest representable point itself still converts.
    let w = WallTime { before_epoch: true, secs: (i64::MAX as u64) + 1, nanos: 0 };
    assert_eq!(
        deadline_to_realtime(w),
        Ok(TimeSpec { tv_sec: i64::MIN, tv_nsec: 0 })
    );
}

#[test]
fn timeout_addition_normalizes_the_nanosecond_carry() {
    let now = TimeSpec { tv_sec: 100, tv_nsec: 900_000_000 };
    let t = Duration { secs: 1, nanos: 300_000_000 };
    assert_eq!(
        timeout_to_realtime_at(now, t),
        Ok(TimeSpec { tv_sec: 102, tv_nsec: 200_000_000 })
    );
}

#[test]
fn zero_timeout_is_now() {
    let now = TimeSpec { tv_sec: 55, tv_nsec: 123 };
    let t = Duration { secs: 0, nanos: 0 };
    assert_eq!(timeout_to_realtime_at(now, t), Ok(now));
}

#[test]
fn overlong_timeout_is_rejected_not_wrapped() {
    let now = TimeSpec { tv_sec: 0, tv_nsec: 0 };
    assert_eq!(
        timeout_to_realtime_at(now, Duration { secs: u64::MAX, nanos: 0 }),
        Err(Error::InvalidInput)
    );
    // An addition that would pass the end of the representable range is
    // caught even when the seconds alone are representable.
    let late = TimeSpec { tv_sec: i64::MAX, tv_nsec: 999_999_999 };
    assert_eq!(
        timeout_to_realtime_at(late, Duration { secs: 0, nanos: 1 }),
        Err(Error::InvalidInput)
    );
    // From a pre-epoch time the same addition fits.
    let early = TimeSpec { tv_sec: -10, tv_nsec: 999_999_999 };
    assert_eq!(
        timeout_to_realtime_at(early, Duration { secs: 0, nanos: 1 }),
        Ok(TimeSpec { tv_sec: -9, tv_nsec: 0 })
    );
}

#[test]
fn timeout_from_the_clock_is_well_formed() {
    let ts = timeout_to_realtime(Duration { secs: 1, nanos: 0 }).expect("clock plus one second");
    assert!(ts.tv_nsec >= 0 && ts.tv_nsec < 1_000_000_000);
    assert_eq!(
        timeout_to_realtime(Duration { secs: u64::MAX, nanos: 0 }),
        Err(Error::InvalidInput)
    );
}

#[test]
fn errno_mapping_covers_every_kind() {
    assert_eq!(error_from_errno(2), Error::NotFound);
    assert_eq!(error_from_errno(17), Error::AlreadyExists);
    assert_eq!(error_from_errno(13), Error::PermissionDenied);
    assert_eq!(error_from_errno(22), Error::InvalidInput);
    assert_eq!(error_from_errno(11), Error::WouldBlock);
    assert_eq!(error_from_errno(110), Error::TimedOut);
    assert_eq!(error_from_errno(90), Error::Other(90));
    assert_eq!(error_from_errno(38), Error::Other(38));
}

#[test]
fn builders_accumulate_flags_and_capacities() {
    let o = OpenOptions::readwrite()
        .create_new()
        .nonblocking()
        .mode(0o644)
        .capacity(3)
        .max_msg_len(100);
    assert_eq!(o.flags, O_RDWR | O_CREAT | O_EXCL | O_NONBLOCK);
    assert_eq!(o.mode, 0o644);
    assert_eq!(o.capacity, 3);
    assert_eq!(o.max_msg_len, 100);
    let o = o.create();
    assert_eq!(o.flags & O_EXCL, 0);
    let o = o.existing();
    assert_eq!(o.flags & (O_CREAT | O_EXCL), 0);
    let w = OpenOptions::writeonly();
    assert_eq!(w.flags, O_WRONLY);
    assert_eq!(w.mode, 0o600);
}

#[test]
fn open_sizes_fall_back_to_the_table_defaults_only_when_creating() {
    // Without creation and without a request, nothing is handed over.
    assert_eq!(OpenOptions::readwrite().open_sizes(), None);
    // A creating open always carries a request: the capability table's
    // defaults stand in where nothing was asked for.
    let caps = posixmq::quirks::capabilities();
    assert_eq!(
        OpenOptions::readwrite().create().open_sizes(),
        Some((caps.default_capacity, caps.default_max_msg_len))
    );
    assert_eq!(
        OpenOptions::readwrite().create_new().open_sizes(),
        Some((caps.default_capacity, caps.default_max_msg_len))
    );
    // An explicit request is handed over verbatim, creating or not.
    assert_eq!(
        OpenOptions::readwrite().create().capacity(3).max_msg_len(100).open_sizes(),
        Some((3, 100))
    );
    // Setting only one of the pair still hands the request over; the
    // kernel then decides whether the combination is acceptable.
    assert_eq!(OpenOptions::readwrite().capacity(3).open_sizes(), Some((3, 0)));
    assert_eq!(OpenOptions::readwrite().max_msg_len(64).open_sizes(), Some((0, 64)));
}

#[test]
fn cached_len_is_the_snapshot_length_or_zero() {
    let good = Ok(posixmq::mq::attributes_from_raw(0, 4, 321, 0));
    assert_eq!(posixmq::iter::cached_len(&good), 321);
    let bad: Result<posixmq::Attributes, Error> = Err(Error::Other(9));
    assert_eq!(posixmq::iter::cached_len(&bad), 0);
}

#[test]
fn step_from_receive_trims_passes_and_ends() {
    let buf = vec![10u8, 20, 30, 40, 50];
    assert_eq!(
        posixmq::iter::step_from_receive(Ok((7, 3)), buf.clone()),
        Some(Ok((7, vec![10u8, 20, 30])))
    );
    assert_eq!(
        posixmq::iter::step_from_receive(Err(Error::WouldBlock), buf.clone()),
        None
    );
    assert_eq!(
        posixmq::iter::step_from_receive(Err(Error::TimedOut), buf),
        Some(Err(Error::TimedOut))
    );
}

#[test]
fn deadline_request_rejects_what_would_saturate() {
    let w = WallTime { before_epoch: false, secs: 1_000, nanos: 42 };
    assert_eq!(
        posixmq::time::deadline_request(w),
        Ok(TimeSpec { tv_sec: 1_000, tv_nsec: 42 })
    );
    let far = WallTime { before_epoch: false, secs: u64::MAX, nanos: 0 };
    assert_eq!(posixmq::time::deadline_request(far), Err(Error::InvalidInput));
}

#[test]
fn only_the_interrupted_code_is_retried() {
    assert!(posixmq::error::is_interrupted(4));
    assert!(!posixmq::error::is_interrupted(11));
    assert!(!posixmq::error::is_interrupted(0));
}

#[test]
fn attributes_from_raw_reads_the_nonblocking_bit() {
    let a = posixmq::mq::attributes_from_raw(2048, 3, 100, 2);
    assert_eq!(a.capacity, 3);
    assert_eq!(a.max_msg_len, 100);
    assert_eq!(a.current_messages, 2);
    assert!(a.nonblocking);
    let b = posixmq::mq::attributes_from_raw(0, 10, 8192, 0);
    assert!(!b.nonblocking);
    assert_eq!(b.capacity, 10);
}

#[test]
fn capability_table_matches_the_supported_kernel() {
    let caps = posixmq::quirks::capabilities();
    assert_eq!(caps.default_capacity, 10);
    assert_eq!(caps.default_max_msg_len, 8192);
    assert_eq!(caps.max_priority, 32767);
    assert!(caps.allows_empty_messages);
    assert!(caps.enforces_name_rules);
    assert!(!caps.forces_cloexec_after_open);
}
