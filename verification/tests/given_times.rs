//! The store driven by times that the caller hands in.

use expiringdict::dict::{deadline, survives};
use expiringdict::{Expiry, ExpiringDict, TimeNow};
use std::time::{Duration, Instant, SystemTime};

fn ms(n: u64) -> Duration {
    Duration::from_millis(n)
}

fn wall(n: u64) -> SystemTime {
    SystemTime::UNIX_EPOCH + Duration::from_secs(1_000_000) + ms(n)
}

#[test]
fn deadline_lies_the_whole_ttl_after_now() {
    match deadline(&wall(0), ms(10)) {
        Expiry::At(t) => assert_eq!(t, wall(10)),
        Expiry::Never => panic!("the wall clock reaches ten milliseconds ahead"),
    }
    let start = Instant::now();
    match deadline(&start, Duration::from_nanos(1)) {
        Expiry::At(t) => assert_eq!(t, start + Duration::from_nanos(1)),
        Expiry::Never => panic!("the monotonic clock reaches a nanosecond ahead"),
    }
    match deadline(&wall(0), Duration::ZERO) {
        Expiry::At(t) => assert_eq!(t, wall(0)),
        Expiry::Never => panic!("a lifetime of nothing ends at once"),
    }
}

#[test]
fn deadline_past_the_end_of_the_domain_is_never() {
    assert!(matches!(deadline(&wall(0), Duration::MAX), Expiry::Never));
    assert!(matches!(deadline(&Instant::now(), Duration::MAX), Expiry::Never));
}

#[test]
fn survives_is_strict() {
    assert!(survives(&Expiry::At(wall(10)), &wall(9)));
    assert!(!survives(&Expiry::At(wall(10)), &wall(10)));
    assert!(!survives(&Expiry::At(wall(10)), &wall(11)));
    assert!(survives(&Expiry::<SystemTime>::Never, &wall(11)));
    let start = Instant::now();
    assert!(survives(&Expiry::At(start + ms(1)), &start));
    assert!(!survives(&Expiry::At(start), &start));
    assert!(!survives(&Expiry::At(start), &(start + ms(1))));
    assert!(survives(&Expiry::<Instant>::Never, &start));
}

#[test]
fn trait_methods_of_both_domains() {
    assert_eq!(wall(3).later(ms(4)), Some(wall(7)));
    assert_eq!(wall(3).later(Duration::MAX), None);
    assert!(wall(4).is_after(&wall(3)));
    assert!(!wall(3).is_after(&wall(3)));
    assert!(!wall(3).is_after(&wall(4)));
    let start = Instant::now();
    assert_eq!(start.later(ms(4)), Some(start + ms(4)));
    assert_eq!(start.later(Duration::MAX), None);
    assert!((start + ms(1)).is_after(&start));
    assert!(!start.is_after(&start));
    assert!(!start.is_after(&(start + ms(1))));
    let before = <Instant as TimeNow>::now();
    let after = <Instant as TimeNow>::now();
    assert!(!before.is_after(&after));
    let sampled = <SystemTime as TimeNow>::now();
    assert!(sampled.is_after(&SystemTime::UNIX_EPOCH));
}

#[test]
fn fresh_insert_displaces_nothing_and_is_found() {
    let mut d = ExpiringDict::<&str, i32>::new(ms(10));
    assert_eq!(d.get("a"), None);
    assert_eq!(d.insert_at("a", 1, &wall(0), ms(10)), None);
    assert_eq!(d.get("a"), Some(&1));
}

#[test]
fn second_insert_displaces_the_first() {
    let mut d = ExpiringDict::<&str, i32>::new(ms(10));
    assert_eq!(d.insert_at("a", 1, &wall(0), ms(10)), None);
    assert_eq!(d.insert_at("a", 2, &wall(1), ms(10)), Some(1));
    assert_eq!(d.get("a"), Some(&2));
}

#[test]
fn overwrite_refreshes_the_expiry() {
    let mut d = ExpiringDict::<&str, i32>::new(ms(10));
    assert_eq!(d.insert_at("a", 1, &wall(0), ms(10)), None);
    assert_eq!(d.insert_at("a", 2, &wall(8), ms(10)), Some(1));
    d.expire_at(&wall(12));
    assert_eq!(d.get("a"), Some(&2));
    d.expire_at(&wall(18));
    assert_eq!(d.get("a"), None);
    assert_eq!(d.insert_at("b", 1, &wall(20), ms(10)), None);
    assert_eq!(d.insert_at("b", 2, &wall(20), ms(2)), Some(1));
    d.expire_at(&wall(25));
    assert_eq!(d.get("b"), None);
}

#[test]
fn sweep_removes_at_the_expiry_and_not_before() {
    let mut d = ExpiringDict::<&str, i32>::new(ms(10));
    assert_eq!(d.insert_at("a", 1, &wall(0), ms(10)), None);
    d.expire_at(&wall(0));
    assert_eq!(d.get("a"), Some(&1));
    d.expire_at(&(wall(10) - Duration::from_nanos(1)));
    assert_eq!(d.get("a"), Some(&1));
    d.expire_at(&wall(10));
    assert_eq!(d.get("a"), None);
    assert_eq!(d.insert_at("b", 2, &wall(0), ms(10)), None);
    d.expire_at(&wall(11));
    assert_eq!(d.get("b"), None);
}

#[test]
fn sweep_at_an_earlier_time_keeps_everything() {
    let mut d = ExpiringDict::<u64, u64>::new(ms(10));
    assert_eq!(d.insert_at(1, 10, &wall(100), ms(1)), None);
    assert_eq!(d.insert_at(2, 20, &wall(100), ms(2)), None);
    d.expire_at(&wall(50));
    assert_eq!(d.get(&1), Some(&10));
    assert_eq!(d.get(&2), Some(&20));
}

#[test]
fn sweep_keeps_exactly_the_living() {
    let mut d = ExpiringDict::<u64, u64>::new(ms(10));
    for i in 0..20u64 {
        assert_eq!(d.insert_at(i, i * 100, &wall(0), ms(i)), None);
    }
    d.expire_at(&wall(7));
    for i in 0..20u64 {
        if i > 7 {
            assert_eq!(d.get(&i), Some(&(i * 100)));
        } else {
            assert_eq!(d.get(&i), None);
        }
    }
    d.expire_at(&wall(19));
    for i in 0..20u64 {
        assert_eq!(d.get(&i), None);
    }
}

#[test]
fn scenario_with_default_and_custom_ttl() {
    let mut d = ExpiringDict::<&str, i32>::new(ms(10));
    assert_eq!(d.insert_at("a", 1, &wall(0), ms(10)), None);
    assert_eq!(d.insert_at("b", 2, &wall(0), ms(30)), None);
    assert_eq!(d.get("a"), Some(&1));
    d.expire_at(&wall(20));
    assert_eq!(d.get("a"), None);
    assert_eq!(d.get("b"), Some(&2));
    d.expire_at(&wall(30));
    assert_eq!(d.get("b"), None);
}

#[test]
fn zero_ttl_expires_at_the_time_of_insertion() {
    let mut d = ExpiringDict::<&str, i32>::new(ms(10));
    assert_eq!(d.insert_at("a", 1, &wall(5), Duration::ZERO), None);
    assert_eq!(d.get("a"), Some(&1));
    d.expire_at(&wall(4));
    assert_eq!(d.get("a"), Some(&1));
    d.expire_at(&wall(5));
    assert_eq!(d.get("a"), None);
}

#[test]
fn entry_past_the_end_of_the_domain_outlasts_every_sweep() {
    let mut d = ExpiringDict::<&str, i32>::new(ms(10));
    assert_eq!(d.insert_at("a", 1, &wall(0), Duration::MAX), None);
    assert_eq!(d.insert_at("b", 2, &wall(0), ms(1)), None);
    d.expire_at(&(wall(0) + Duration::from_secs(1_000_000_000_000)));
    assert_eq!(d.get("a"), Some(&1));
    assert_eq!(d.get("b"), None);
    assert_eq!(d.insert_at("a", 3, &wall(0), ms(1)), Some(1));
    d.expire_at(&wall(1));
    assert_eq!(d.get("a"), None);
}

#[test]
fn given_times_in_both_domains_agree() {
    let start = Instant::now();
    let mut wall_dict = ExpiringDict::<u8, u8, SystemTime>::new(ms(10));
    let mut mono_dict = ExpiringDict::<u8, u8, Instant>::new(ms(10));
    assert_eq!(wall_dict.insert_at(1, 1, &wall(0), ms(10)), None);
    assert_eq!(mono_dict.insert_at(1, 1, &start, ms(10)), None);
    wall_dict.expire_at(&wall(9));
    mono_dict.expire_at(&(start + ms(9)));
    assert_eq!(wall_dict.get(&1), Some(&1));
    assert_eq!(mono_dict.get(&1), Some(&1));
    wall_dict.expire_at(&wall(10));
    mono_dict.expire_at(&(start + ms(10)));
    assert_eq!(wall_dict.get(&1), None);
    assert_eq!(mono_dict.get(&1), None);
}

#[test]
fn sweep_of_an_empty_store_at_a_given_time() {
    let mut d = ExpiringDict::<String, String>::new(ms(10));
    d.expire_at(&wall(0));
    assert_eq!(d.get("a"), None);
}

#[test]
fn lookup_by_a_borrowed_key() {
    let mut d = ExpiringDict::<String, i32>::new(ms(10));
    assert_eq!(d.insert_at("a".to_string(), 1, &wall(0), ms(10)), None);
    assert_eq!(d.get("a"), Some(&1));
    assert_eq!(d.get(&"a".to_string()), Some(&1));
    assert_eq!(d.get("b"), None);
}

#[test]
fn wall_clock_deadline_one_nanosecond_ahead() {
    let born = wall(0);
    let tick = Duration::from_nanos(1);
    match deadline(&born, tick) {
        Expiry::At(t) => {
            assert_eq!(t, born + tick);
            assert!(t >= born);
            assert!(t.duration_since(born).unwrap() <= tick);
        }
        Expiry::Never => panic!("the wall clock reaches a nanosecond ahead"),
    }
}

#[test]
fn wall_clock_sweep_at_the_insertion_time_with_one_nanosecond_to_live() {
    let born = wall(0);
    let tick = Duration::from_nanos(1);
    let mut d = ExpiringDict::<&str, i32>::new(tick);
    assert_eq!(d.insert_at("a", 1, &born, tick), None);
    d.expire_at(&born);
    // The entry is alive at `born` exactly where the clock is fine enough to
    // tell `born + 1ns` from `born`.
    if born + tick > born {
        assert_eq!(d.get("a"), Some(&1));
    } else {
        assert_eq!(d.get("a"), None);
    }
    d.expire_at(&(born + tick));
    assert_eq!(d.get("a"), None);
    assert_eq!(d.insert_at("b", 2, &born, tick), None);
    d.expire_at(&(born + ms(1)));
    assert_eq!(d.get("b"), None);
}

#[test]
fn monotonic_sweep_at_the_insertion_time_with_one_nanosecond_to_live() {
    let born = Instant::now();
    let tick = Duration::from_nanos(1);
    let mut d = ExpiringDict::<&str, i32, Instant>::new(tick);
    assert_eq!(d.insert_at("a", 1, &born, tick), None);
    d.expire_at(&born);
    assert_eq!(d.get("a"), Some(&1));
    d.expire_at(&(born + tick));
    assert_eq!(d.get("a"), None);
}

#[test]
fn default_ttl_in_nanoseconds() {
    let d = ExpiringDict::<u8, u8>::new(ms(10));
    assert_eq!(d.default_ttl_nanos(), 10_000_000);
    let d = ExpiringDict::<u8, u8, Instant>::new(Duration::ZERO);
    assert_eq!(d.default_ttl_nanos(), 0);
    let d = ExpiringDict::<u8, u8>::new(Duration::new(3, 7));
    assert_eq!(d.default_ttl_nanos(), 3_000_000_007);
    let d = ExpiringDict::<u8, u8>::new(Duration::MAX);
    assert_eq!(d.default_ttl_nanos(), 18_446_744_073_709_551_615_999_999_999);
}

#[test]
fn stores_of_both_domains_stay_in_step() {
    let start = Instant::now();
    let mono = |n: u64| start + ms(n);
    let mut w = ExpiringDict::<u32, u32, SystemTime>::new(ms(10));
    let mut m = ExpiringDict::<u32, u32, Instant>::new(ms(10));
    for i in 0..30u32 {
        let at = u64::from(i);
        let ttl = ms(u64::from(i % 7) * 5);
        assert_eq!(w.insert_at(i % 11, i, &wall(at), ttl), m.insert_at(i % 11, i, &mono(at), ttl));
        if i % 4 == 3 {
            w.expire_at(&wall(at + 2));
            m.expire_at(&mono(at + 2));
            for k in 0..11u32 {
                assert_eq!(w.get(&k), m.get(&k));
            }
        }
    }
    w.expire_at(&wall(100));
    m.expire_at(&mono(100));
    for k in 0..11u32 {
        assert_eq!(w.get(&k), None);
        assert_eq!(m.get(&k), None);
    }
}
