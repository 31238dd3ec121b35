use tzcore::{
    FixedOffset, MappedLocalTime, NaiveDateTime, Offset, RangeError, TimeZone, Utc,
    MAX_TIMESTAMP, MIN_TIMESTAMP,
};

fn ts(secs: i64, nsecs: u32) -> NaiveDateTime {
    NaiveDateTime::from_timestamp(secs, nsecs).unwrap()
}

#[test]
fn east_and_west_keep_their_seconds() {
    for s in [0, 1, -1, 3600, -3600, 19_800, 86_399, -86_399] {
        assert_eq!(FixedOffset::east(s).unwrap().fix().local_minus_utc(), s);
        assert_eq!(FixedOffset::west(s).unwrap().fix().local_minus_utc(), -s);
    }
}

#[test]
fn east_and_west_utc_minus_local() {
    let o = FixedOffset::east(5 * 3600).unwrap();
    assert_eq!(o.local_minus_utc(), 18_000);
    assert_eq!(o.utc_minus_local(), -18_000);
    let w = FixedOffset::west(3600).unwrap();
    assert_eq!(w.local_minus_utc(), -3600);
    assert_eq!(w.utc_minus_local(), 3600);
}

#[test]
fn a_full_day_is_refused() {
    for s in [86_400, -86_400, 100_000, -100_000, i32::MAX, i32::MIN] {
        assert_eq!(FixedOffset::east(s), Err(RangeError));
        assert_eq!(FixedOffset::west(s), Err(RangeError));
    }
}

#[test]
fn utc_resolves_to_single_zero() {
    for t in [ts(0, 0), ts(MIN_TIMESTAMP, 0), ts(MAX_TIMESTAMP, 999_999_999), ts(-1, 5)] {
        assert!(Utc.offset_from_local_datetime(&t) == MappedLocalTime::Single(Utc));
        assert_eq!(Utc.offset_from_utc_datetime(&t).fix().local_minus_utc(), 0);
    }
}

#[test]
fn utc_fix_is_east_zero() {
    assert_eq!(Utc.fix(), FixedOffset::east(0).unwrap());
    assert!(Utc::from_offset(&Utc) == Utc);
}

#[test]
fn utc_renderings() {
    assert_eq!(Utc.debug_string(), "Z");
    assert_eq!(Utc.to_string(), "UTC");
}

#[test]
fn fixed_offset_round_trip() {
    let o = FixedOffset::east(-7 * 3600 - 1800).unwrap();
    let t = ts(1_700_000_000, 123);
    let dt = o.from_utc_datetime(&t);
    assert_eq!(dt.naive_utc(), t);
    assert_eq!(dt.offset(), o);
    let local = t.checked_add_offset(o).unwrap();
    assert_eq!(local.timestamp(), 1_700_000_000 - 27_000);
    assert_eq!(local.timestamp_subsec_nanos(), 123);
    assert_eq!(local.checked_sub_offset(o), Some(t));
    assert_eq!(o.from_local_datetime(&local), MappedLocalTime::Single(dt));
}

#[test]
fn offset_arithmetic_at_range_edges() {
    let plus = FixedOffset::east(1).unwrap();
    assert_eq!(ts(MAX_TIMESTAMP, 0).checked_add_offset(plus), None);
    assert_eq!(ts(MIN_TIMESTAMP, 0).checked_sub_offset(plus), None);
    assert_eq!(ts(MIN_TIMESTAMP, 0).checked_add_offset(plus), Some(ts(MIN_TIMESTAMP + 1, 0)));
    assert!(matches!(plus.from_local_datetime(&ts(MAX_TIMESTAMP, 0)), MappedLocalTime::Single(_)));
    assert_eq!(plus.from_local_datetime(&ts(MIN_TIMESTAMP, 0)), MappedLocalTime::Skipped);
}

#[test]
fn fixed_offsets_are_never_ambiguous() {
    let o = FixedOffset::west(86_399).unwrap();
    let t = ts(0, 0);
    assert_eq!(o.offset_from_local_datetime(&t), MappedLocalTime::Single(o));
    assert_eq!(o.offset_from_utc_datetime(&t), o);
    assert_eq!(FixedOffset::from_offset(&o), o);
}

#[test]
fn naive_timestamp_bounds() {
    assert_eq!(NaiveDateTime::from_timestamp(MAX_TIMESTAMP + 1, 0), None);
    assert_eq!(NaiveDateTime::from_timestamp(MIN_TIMESTAMP - 1, 0), None);
    assert_eq!(NaiveDateTime::from_timestamp(0, 1_000_000_000), None);
    let t = ts(-5, 7);
    assert_eq!((t.timestamp(), t.timestamp_subsec_nanos()), (-5, 7));
}

#[test]
fn mapped_local_time_accessors() {
    let a: MappedLocalTime<i32> = MappedLocalTime::Ambiguous(1, 2);
    assert_eq!(a.single(), None);
    assert_eq!(a.earliest(), Some(1));
    assert_eq!(a.latest(), Some(2));
    let s: MappedLocalTime<i32> = MappedLocalTime::Single(3);
    assert_eq!((s.single(), s.earliest(), s.latest()), (Some(3), Some(3), Some(3)));
    let n: MappedLocalTime<i32> = MappedLocalTime::Skipped;
    assert_eq!((n.single(), n.earliest(), n.latest()), (None, None, None));
}

#[test]
fn clock_reading_after_epoch() {
    let d = Utc::from_unix_reading(false, 1_700_000_000, 42).unwrap();
    assert_eq!(d.naive_utc(), ts(1_700_000_000, 42));
    assert!(d.offset() == Utc);
}

#[test]
fn clock_reading_before_epoch() {
    let d = Utc::from_unix_reading(true, 10, 0).unwrap();
    assert_eq!(d.naive_utc(), ts(-10, 0));
    let d = Utc::from_unix_reading(true, 10, 250_000_000).unwrap();
    assert_eq!(d.naive_utc(), ts(-11, 750_000_000));
}

#[test]
fn clock_reading_out_of_range() {
    assert!(Utc::from_unix_reading(false, MAX_TIMESTAMP as u64 + 1, 0).is_none());
    assert!(Utc::from_unix_reading(false, MAX_TIMESTAMP as u64, 0).is_some());
    assert!(Utc::from_unix_reading(true, (-MIN_TIMESTAMP) as u64, 0).is_some());
    assert!(Utc::from_unix_reading(true, (-MIN_TIMESTAMP) as u64, 1).is_none());
    assert!(Utc::from_unix_reading(false, 0, 1_000_000_000).is_none());
    assert!(Utc::from_unix_reading(false, u64::MAX, 0).is_none());
}

#[test]
fn now_twice_is_ordered_and_utc() {
    let first = Utc::now().unwrap();
    let second = Utc::now().unwrap();
    assert!(second.naive_utc() >= first.naive_utc());
    assert!(first.offset() == Utc && second.offset() == Utc);
    assert_eq!(first.offset().fix().local_minus_utc(), 0);
}

