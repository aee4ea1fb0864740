use cpu_time::{ClockError, FileTime, ProcessTime, ThreadTime, TimesReply};
use std::marker::PhantomData;
use std::time::Duration;

fn reading(status: i32, kernel: u32, user: u32) -> TimesReply {
    TimesReply {
        status,
        kernel_time: FileTime { low: kernel, high: 0 },
        user_time: FileTime { low: user, high: 0 },
    }
}

trait Unmarked {
    const SEND: bool = false;
    const SYNC: bool = false;
}

struct SendProbe<T>(PhantomData<T>);

struct SyncProbe<T>(PhantomData<T>);

impl<T> Unmarked for SendProbe<T> {}

impl<T> Unmarked for SyncProbe<T> {}

impl<T: Send> SendProbe<T> {
    const SEND: bool = true;
}

impl<T: Sync> SyncProbe<T> {
    const SYNC: bool = true;
}

trait OneOfTwo<A> {
    fn holds() -> bool {
        true
    }
}

impl<T> OneOfTwo<()> for T {}

impl<T: Send> OneOfTwo<u8> for T {}

impl<T: Sync> OneOfTwo<u16> for T {}

#[test]
fn thread_time_stays_on_its_thread() {
    assert!(!SendProbe::<ThreadTime>::SEND);
    assert!(!SyncProbe::<ThreadTime>::SYNC);
    // resolves only while a single impl applies, that is while `ThreadTime`
    // is neither `Send` nor `Sync`
    assert!(<ThreadTime as OneOfTwo<_>>::holds());
}

#[test]
fn process_time_and_durations_cross_threads() {
    assert!(SendProbe::<ProcessTime>::SEND);
    assert!(SyncProbe::<ProcessTime>::SYNC);
    assert!(SendProbe::<Duration>::SEND);
    assert!(SyncProbe::<Duration>::SYNC);
}

#[test]
fn thread_now_fails_with_the_query() {
    assert_eq!(ThreadTime::now(reading(0, 0, 0)), Err(ClockError::QueryFailed));
    assert_eq!(ThreadTime::now(reading(0, 10_000_000, 1)), Err(ClockError::QueryFailed));
    assert!(ThreadTime::now(reading(1, 0, 0)).is_ok());
}

#[test]
fn thread_elapsed_is_the_growth() {
    let stamp = ThreadTime::now(reading(1, 10_000_000, 0)).unwrap();
    assert_eq!(stamp.elapsed(reading(1, 10_000_000, 5)), Ok(Duration::new(0, 500)));
    assert_eq!(stamp.elapsed(reading(1, 25_000_000, 1)), Ok(Duration::new(1, 500_000_100)));
    assert_eq!(stamp.elapsed(reading(1, 10_000_000, 0)), Ok(Duration::new(0, 0)));
}

#[test]
fn thread_elapsed_never_shrinks() {
    let stamp = ThreadTime::now(reading(1, 3, 4)).unwrap();
    let readings: [TimesReply; 4] =
        [reading(1, 3, 4), reading(1, 3, 5), reading(7, 4, 5), reading(1, 10_000_000, 5)];
    let mut last = Duration::new(0, 0);
    for reply in readings {
        let now = stamp.elapsed(reply).unwrap();
        assert!(now >= last);
        last = now;
    }
    assert_eq!(last, Duration::new(0, 999_999_800));
}

#[test]
fn thread_elapsed_fails_with_the_query() {
    let stamp = ThreadTime::now(reading(1, 10_000_000, 0)).unwrap();
    assert_eq!(stamp.elapsed(reading(0, 20_000_000, 0)), Err(ClockError::QueryFailed));
}

#[test]
fn thread_elapsed_rejects_a_smaller_reading() {
    let stamp = ThreadTime::now(reading(1, 10_000_000, 0)).unwrap();
    assert_eq!(stamp.elapsed(reading(1, 9_999_999, 0)), Err(ClockError::Regressed));
}

#[test]
fn thread_elapsed_is_duration_since_from_now() {
    let stamp = ThreadTime::now(reading(1, 12_345_678, 1)).unwrap();
    let reply = reading(1, 99_000_000, 123);
    let now = ThreadTime::now(reply).unwrap();
    assert_eq!(stamp.elapsed(reply), Ok(now.duration_since(stamp)));
    assert_eq!(now.duration_since(stamp), Duration::new(8, 665_444_400));
}

#[test]
fn thread_duration_since_subtracts() {
    let earlier = ThreadTime::now(reading(1, 10_000_000, 7)).unwrap();
    let later = ThreadTime::now(reading(1, 30_000_000, 3)).unwrap();
    assert_eq!(later.duration_since(earlier), Duration::new(1, 999_999_600));
    assert_eq!(earlier.duration_since(earlier), Duration::new(0, 0));
}

#[test]
fn thread_checked_duration_since_tells_the_order() {
    let earlier = ThreadTime::now(reading(1, 10_000_000, 7)).unwrap();
    let later = ThreadTime::now(reading(1, 30_000_000, 3)).unwrap();
    assert_eq!(later.checked_duration_since(earlier), Some(Duration::new(1, 999_999_600)));
    assert_eq!(earlier.checked_duration_since(later), None);
}

#[test]
fn thread_timestamps_compare_by_time() {
    let a = ThreadTime::now(reading(1, 5, 5)).unwrap();
    let same = ThreadTime::now(reading(3, 4, 6)).unwrap();
    let other = ThreadTime::now(reading(1, 5, 6)).unwrap();
    assert_eq!(a, same);
    assert_ne!(a, other);
    let copy = a;
    assert_eq!(copy, a);
}

#[test]
fn thread_time_after_an_idle_second() {
    let time = ThreadTime::now(reading(1, 1_250_000, 2_000_000)).unwrap();
    let elapsed = time.elapsed(reading(1, 1_300_000, 2_150_000)).unwrap();
    assert_eq!(elapsed, Duration::from_millis(20));
    assert!(elapsed < Duration::from_millis(100));
}
