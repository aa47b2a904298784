use clash_lib::config::{
    LoadBalanceStrategy, OutboundGroupFallback, OutboundGroupLoadBalance, OutboundGroupProtocol,
    OutboundGroupRelay, OutboundGroupSelect, OutboundGroupUrlTest,
};
use clash_lib::error::ProxyError;
use clash_lib::group::consistent_hash::{consistent_hash, ring_point_of};
use clash_lib::group::fallback::fallback;
use clash_lib::group::load_balance::LoadBalance;
use clash_lib::group::relay::relay_chain;
use clash_lib::group::round_robin::round_robin;
use clash_lib::group::selector::Selector;
use clash_lib::group::url_test::UrlTest;
use clash_lib::group::ProxyGroup;
use clash_lib::health::{Health, HealthCheckConfig};
use clash_lib::member::{gather, live_set, Member};

fn members(list: &[(&str, Health)]) -> Vec<Member> {
    list.iter().map(|(n, h)| Member { name: n.to_string(), health: *h }).collect()
}

fn abc(a: Health, b: Health, c: Health) -> Vec<Member> {
    members(&[("A", a), ("B", b), ("C", c)])
}

#[test]
fn live_set_is_everything_but_the_dead() {
    assert_eq!(live_set(&abc(Health::Unknown, Health::Unknown, Health::Unknown)), vec![0, 1, 2]);
    assert_eq!(live_set(&abc(Health::Dead, Health::Alive(5), Health::Unknown)), vec![1, 2]);
    assert_eq!(live_set(&abc(Health::Dead, Health::Dead, Health::Dead)), Vec::<usize>::new());
    assert_eq!(live_set(&vec![]), Vec::<usize>::new());
}

#[test]
fn members_of_several_providers_are_put_together_in_order() {
    let first = members(&[("a", Health::Alive(1)), ("b", Health::Dead)]);
    let second = members(&[]);
    let third = members(&[("c", Health::Unknown)]);
    let all = gather(&vec![first, second, third]);
    assert_eq!(
        all,
        members(&[("a", Health::Alive(1)), ("b", Health::Dead), ("c", Health::Unknown)])
    );
    assert_eq!(live_set(&all), vec![0, 2]);
    assert_eq!(gather(&vec![]), vec![]);
}

#[test]
fn fallback_returns_the_first_alive_member() {
    let ms = abc(Health::Dead, Health::Alive(30), Health::Alive(10));
    assert_eq!(fallback(&ms), Ok(1));
}

#[test]
fn fallback_fails_when_all_are_dead() {
    let ms = abc(Health::Dead, Health::Dead, Health::Dead);
    assert_eq!(fallback(&ms), Err(ProxyError::NoLiveProxy));
    assert_eq!(fallback(&vec![]), Err(ProxyError::NoLiveProxy));
}

#[test]
fn fallback_takes_members_that_were_never_probed() {
    let ms = abc(Health::Unknown, Health::Alive(1), Health::Alive(1));
    assert_eq!(fallback(&ms), Ok(0));
    let ms = abc(Health::Dead, Health::Dead, Health::Unknown);
    assert_eq!(fallback(&ms), Ok(2));
}

#[test]
fn fallback_goes_back_to_an_earlier_member_that_recovers() {
    assert_eq!(fallback(&abc(Health::Dead, Health::Alive(5), Health::Alive(5))), Ok(1));
    assert_eq!(fallback(&abc(Health::Alive(900), Health::Alive(5), Health::Alive(5))), Ok(0));
}

#[test]
fn select_defaults_to_the_first_member() {
    let ms = abc(Health::Dead, Health::Alive(1), Health::Alive(1));
    let s = Selector::new();
    assert_eq!(s.current(&ms), Ok(0));
}

#[test]
fn select_of_a_non_member_fails_and_changes_nothing() {
    let ms = abc(Health::Alive(1), Health::Alive(1), Health::Alive(1));
    let mut s = Selector::new();
    assert_eq!(s.select(&ms, "X"), Err(ProxyError::UnknownMember("X".to_string())));
    assert_eq!(s.current(&ms), Ok(0));
    assert_eq!(s.select(&ms, "C"), Ok(()));
    assert_eq!(s.current(&ms), Ok(2));
    assert_eq!(s.select(&ms, "c"), Err(ProxyError::UnknownMember("c".to_string())));
    assert_eq!(s.select(&ms, ""), Err(ProxyError::UnknownMember("".to_string())));
    assert_eq!(s.current(&ms), Ok(2));
}

#[test]
fn select_keeps_the_choice_whatever_the_health() {
    let mut s = Selector::new();
    let ms = abc(Health::Alive(1), Health::Alive(1), Health::Alive(1));
    assert_eq!(s.select(&ms, "B"), Ok(()));
    let ms = abc(Health::Alive(1), Health::Dead, Health::Alive(1));
    assert_eq!(s.current(&ms), Ok(1));
}

#[test]
fn select_takes_the_first_of_equal_names() {
    let ms = members(&[("A", Health::Unknown), ("B", Health::Unknown), ("B", Health::Unknown)]);
    let mut s = Selector::new();
    assert_eq!(s.select(&ms, "B"), Ok(()));
    assert_eq!(s.current(&ms), Ok(1));
}

#[test]
fn select_over_a_shrunk_or_empty_list() {
    let mut s = Selector::new();
    let ms = abc(Health::Alive(1), Health::Alive(1), Health::Alive(1));
    assert_eq!(s.select(&ms, "C"), Ok(()));
    let shorter = members(&[("A", Health::Alive(1)), ("B", Health::Alive(1))]);
    assert_eq!(s.current(&shorter), Ok(0));
    assert_eq!(s.current(&vec![]), Err(ProxyError::NoLiveProxy));
}

#[test]
fn url_test_picks_the_lowest_latency() {
    let mut u = UrlTest::new(0);
    assert_eq!(u.tolerance(), 0);
    assert_eq!(u.current(), None);
    let ms = abc(Health::Alive(300), Health::Alive(20), Health::Alive(100));
    assert_eq!(u.select(&ms), Ok(1));
    assert_eq!(u.current(), Some(1));
}

#[test]
fn url_test_keeps_the_first_of_equally_fast_members() {
    let mut u = UrlTest::new(0);
    let ms = abc(Health::Alive(20), Health::Alive(20), Health::Alive(20));
    assert_eq!(u.select(&ms), Ok(0));
}

#[test]
fn url_test_hysteresis() {
    let mut u = UrlTest::new(10);
    let two = |a: u64, b: u64| members(&[("A", Health::Alive(a)), ("B", Health::Alive(b))]);
    assert_eq!(u.select(&two(100, 105)), Ok(0));
    // the selected one got faster
    assert_eq!(u.select(&two(95, 105)), Ok(0));
    // the other one is faster, but within the tolerance
    assert_eq!(u.select(&two(105, 100)), Ok(0));
    assert_eq!(u.select(&two(105, 95)), Ok(0));
    // faster by more than the tolerance
    assert_eq!(u.select(&two(105, 94)), Ok(1));
    assert_eq!(u.current(), Some(1));
    // and back only beyond the tolerance again
    assert_eq!(u.select(&two(90, 94)), Ok(1));
    assert_eq!(u.select(&two(83, 94)), Ok(0));
}

#[test]
fn url_test_leaves_a_dead_member_at_once() {
    let mut u = UrlTest::new(1000);
    assert_eq!(u.select(&abc(Health::Alive(10), Health::Alive(500), Health::Alive(400))), Ok(0));
    assert_eq!(u.select(&abc(Health::Dead, Health::Alive(500), Health::Alive(400))), Ok(2));
    // the old one comes back faster, but within the tolerance
    assert_eq!(u.select(&abc(Health::Alive(10), Health::Alive(500), Health::Alive(400))), Ok(2));
}

#[test]
fn url_test_prefers_measured_members() {
    let mut u = UrlTest::new(0);
    assert_eq!(u.select(&abc(Health::Unknown, Health::Unknown, Health::Unknown)), Ok(0));
    assert_eq!(u.select(&abc(Health::Unknown, Health::Alive(u64::MAX), Health::Unknown)), Ok(1));
    let mut tolerant = UrlTest::new(u64::MAX);
    assert_eq!(tolerant.select(&abc(Health::Unknown, Health::Unknown, Health::Unknown)), Ok(0));
    assert_eq!(tolerant.select(&abc(Health::Unknown, Health::Alive(1), Health::Unknown)), Ok(1));
    assert_eq!(tolerant.select(&abc(Health::Alive(0), Health::Alive(1), Health::Unknown)), Ok(1));
}

#[test]
fn url_test_without_live_members() {
    let mut u = UrlTest::new(5);
    assert_eq!(u.select(&abc(Health::Alive(1), Health::Alive(2), Health::Alive(3))), Ok(0));
    assert_eq!(
        u.select(&abc(Health::Dead, Health::Dead, Health::Dead)),
        Err(ProxyError::NoLiveProxy)
    );
    assert_eq!(u.current(), Some(0));
    assert_eq!(u.select(&vec![]), Err(ProxyError::NoLiveProxy));
}

#[test]
fn round_robin_visits_each_member_once_per_round() {
    for n in 1..8usize {
        let ms: Vec<Member> = (0..n)
            .map(|i| Member { name: format!("p{}", i), health: Health::Alive(i as u64) })
            .collect();
        let mut cursor = 0usize;
        let mut picks = vec![];
        for _ in 0..3 * n {
            let (pick, next) = round_robin(&ms, cursor).unwrap();
            picks.push(pick);
            cursor = next;
        }
        let expected: Vec<usize> = (0..3 * n).map(|k| k % n).collect();
        assert_eq!(picks, expected);
    }
}

#[test]
fn round_robin_passes_over_the_dead() {
    let ms = members(&[
        ("a", Health::Dead),
        ("b", Health::Alive(1)),
        ("c", Health::Dead),
        ("d", Health::Unknown),
        ("e", Health::Dead),
    ]);
    let mut cursor = 0usize;
    let mut picks = vec![];
    for _ in 0..6 {
        let (pick, next) = round_robin(&ms, cursor).unwrap();
        picks.push(pick);
        cursor = next;
    }
    assert_eq!(picks, vec![1, 3, 1, 3, 1, 3]);
}

#[test]
fn round_robin_cursor_moves_behind_the_pick() {
    let ms = abc(Health::Alive(1), Health::Dead, Health::Alive(1));
    assert_eq!(round_robin(&ms, 0), Ok((0, 1)));
    assert_eq!(round_robin(&ms, 1), Ok((2, 0)));
    assert_eq!(round_robin(&ms, 2), Ok((2, 0)));
    // a cursor past the end wraps
    assert_eq!(round_robin(&ms, 3), Ok((0, 1)));
    assert_eq!(round_robin(&ms, 7), Ok((2, 0)));
    assert_eq!(round_robin(&ms, usize::MAX), Ok((0, 1)));
}

#[test]
fn round_robin_a_member_dying_mid_cycle_is_skipped() {
    let alive = members(&[
        ("a", Health::Alive(1)),
        ("b", Health::Alive(1)),
        ("c", Health::Alive(1)),
        ("d", Health::Alive(1)),
    ]);
    let mut cursor = 0usize;
    let mut picks = vec![];
    for _ in 0..2 {
        let (pick, next) = round_robin(&alive, cursor).unwrap();
        picks.push(pick);
        cursor = next;
    }
    // c dies when its turn is next
    let mut after = alive.clone();
    after[2].health = Health::Dead;
    for _ in 0..6 {
        let (pick, next) = round_robin(&after, cursor).unwrap();
        picks.push(pick);
        cursor = next;
    }
    assert_eq!(picks, vec![0, 1, 3, 0, 1, 3, 0, 1]);
}

#[test]
fn round_robin_without_live_members() {
    assert_eq!(
        round_robin(&abc(Health::Dead, Health::Dead, Health::Dead), 1),
        Err(ProxyError::NoLiveProxy)
    );
    assert_eq!(round_robin(&vec![], 0), Err(ProxyError::NoLiveProxy));
}

#[test]
fn ring_points_are_the_fnv1a_hashes_of_the_names() {
    assert_eq!(ring_point_of(""), 0xcbf2_9ce4_8422_2325);
    assert_eq!(ring_point_of("a"), 0xaf63_dc4c_8601_ec8c);
    assert_eq!(ring_point_of("foobar"), 0x8594_4171_f739_67e8);
}

fn named(names: &[&str]) -> Vec<Member> {
    names.iter().map(|n| Member { name: n.to_string(), health: Health::Alive(1) }).collect()
}

fn sample_keys() -> Vec<u64> {
    let mut seed: u64 = 0x2545_f491_4f6c_dd1d;
    (0..4000)
        .map(|_| {
            seed ^= seed << 13;
            seed ^= seed >> 7;
            seed ^= seed << 17;
            seed
        })
        .collect()
}

#[test]
fn consistent_hash_maps_a_key_to_the_next_point_clockwise() {
    let ms = named(&["", "a", "foobar"]);
    // points: "" 0xcbf2.., "a" 0xaf63.., "foobar" 0x8594..
    assert_eq!(consistent_hash(&ms, 0), Ok(2));
    assert_eq!(consistent_hash(&ms, 0x8594_4171_f739_67e8), Ok(2));
    assert_eq!(consistent_hash(&ms, 0x8594_4171_f739_67e9), Ok(1));
    assert_eq!(consistent_hash(&ms, 0xaf63_dc4c_8601_ec8c), Ok(1));
    assert_eq!(consistent_hash(&ms, 0xaf63_dc4c_8601_ec8d), Ok(0));
    assert_eq!(consistent_hash(&ms, 0xcbf2_9ce4_8422_2325), Ok(0));
    // past the last point the ring wraps to the first
    assert_eq!(consistent_hash(&ms, 0xcbf2_9ce4_8422_2326), Ok(2));
    assert_eq!(consistent_hash(&ms, u64::MAX), Ok(2));
}

#[test]
fn consistent_hash_walks_past_dead_members() {
    let mut ms = named(&["", "a", "foobar"]);
    ms[1].health = Health::Dead;
    assert_eq!(consistent_hash(&ms, 0x8594_4171_f739_67e9), Ok(0));
    ms[0].health = Health::Dead;
    assert_eq!(consistent_hash(&ms, 0x8594_4171_f739_67e9), Ok(2));
    ms[2].health = Health::Dead;
    assert_eq!(consistent_hash(&ms, 0x8594_4171_f739_67e9), Err(ProxyError::NoLiveProxy));
    assert_eq!(consistent_hash(&vec![], 1), Err(ProxyError::NoLiveProxy));
}

#[test]
fn consistent_hash_is_stable() {
    let ms = named(&["hk-1", "jp-2", "us-3", "de-4", "sg-5"]);
    for key in sample_keys() {
        assert_eq!(consistent_hash(&ms, key), consistent_hash(&ms, key));
    }
}

#[test]
fn consistent_hash_removal_moves_only_the_keys_of_the_removed() {
    let names = ["hk-1", "jp-2", "us-3", "de-4", "sg-5", "fr-6", "uk-7", "in-8"];
    let ms = named(&names);
    let keys = sample_keys();
    for removed in 0..names.len() {
        let mut rest = ms.clone();
        rest.remove(removed);
        let mut owned = 0usize;
        let mut moved = 0usize;
        for &key in &keys {
            let before = consistent_hash(&ms, key).unwrap();
            let after = consistent_hash(&rest, key).unwrap();
            if before == removed {
                owned += 1;
            }
            if ms[before].name != rest[after].name {
                moved += 1;
                assert_eq!(before, removed);
            }
        }
        assert_eq!(moved, owned);
        assert!(moved < keys.len());
    }
}

#[test]
fn consistent_hash_a_member_going_down_moves_only_its_keys() {
    let ms = named(&["hk-1", "jp-2", "us-3", "de-4", "sg-5"]);
    let keys = sample_keys();
    for down in 0..ms.len() {
        let mut after = ms.clone();
        after[down].health = Health::Dead;
        for &key in &keys {
            let was = consistent_hash(&ms, key).unwrap();
            let is = consistent_hash(&after, key).unwrap();
            if was != down {
                assert_eq!(is, was);
            } else {
                assert_ne!(is, down);
            }
        }
    }
}

#[test]
fn consistent_hash_spreads_keys_over_all_members() {
    let ms = named(&["hk-1", "jp-2", "us-3", "de-4"]);
    let mut seen = vec![0usize; ms.len()];
    for key in sample_keys() {
        seen[consistent_hash(&ms, key).unwrap()] += 1;
    }
    for count in seen {
        assert!(count > 0);
    }
}

#[test]
fn load_balance_defaults_to_taking_turns() {
    let mut lb = LoadBalance::new(None);
    assert_eq!(lb.strategy(), LoadBalanceStrategy::RoundRobin);
    assert_eq!(lb.cursor(), 0);
    let ms = abc(Health::Alive(1), Health::Dead, Health::Alive(1));
    assert_eq!(lb.select(&ms, 99), Ok(0));
    assert_eq!(lb.cursor(), 1);
    assert_eq!(lb.select(&ms, 99), Ok(2));
    assert_eq!(lb.cursor(), 0);
    assert_eq!(lb.select(&ms, 99), Ok(0));
    assert_eq!(
        lb.select(&abc(Health::Dead, Health::Dead, Health::Dead), 99),
        Err(ProxyError::NoLiveProxy)
    );
    assert_eq!(lb.cursor(), 1);
}

#[test]
fn load_balance_by_hash_follows_the_key() {
    let mut lb = LoadBalance::new(Some(LoadBalanceStrategy::ConsistentHashing));
    assert_eq!(lb.strategy(), LoadBalanceStrategy::ConsistentHashing);
    let ms = named(&["", "a", "foobar"]);
    assert_eq!(lb.select(&ms, 0), Ok(2));
    assert_eq!(lb.select(&ms, 0), Ok(2));
    assert_eq!(lb.select(&ms, 0xaf63_dc4c_8601_ec8c), Ok(1));
    assert_eq!(lb.cursor(), 0);
    let mut dead = ms.clone();
    for m in dead.iter_mut() {
        m.health = Health::Dead;
    }
    assert_eq!(lb.select(&dead, 0), Err(ProxyError::NoLiveProxy));
}

#[test]
fn relay_chains_all_members_in_order() {
    let hops = vec![
        Ok(vec!["entry".to_string()]),
        Ok(vec!["mid-1".to_string(), "mid-2".to_string()]),
        Ok(vec![]),
        Ok(vec!["exit".to_string()]),
    ];
    assert_eq!(
        relay_chain(&hops),
        Ok(vec![
            "entry".to_string(),
            "mid-1".to_string(),
            "mid-2".to_string(),
            "exit".to_string()
        ])
    );
    assert_eq!(relay_chain(&vec![]), Ok(vec![]));
}

#[test]
fn relay_fails_with_the_first_failure() {
    let hops = vec![
        Ok(vec!["entry".to_string()]),
        Err(ProxyError::NoLiveProxy),
        Ok(vec!["exit".to_string()]),
        Err(ProxyError::UnknownMember("x".to_string())),
    ];
    assert_eq!(relay_chain(&hops), Err(ProxyError::NoLiveProxy));
    let hops = vec![Err(ProxyError::UnknownMember("x".to_string())), Err(ProxyError::NoLiveProxy)];
    assert_eq!(relay_chain(&hops), Err(ProxyError::UnknownMember("x".to_string())));
}

fn url_test_config(tolerance: Option<i32>, lazy: Option<bool>) -> OutboundGroupProtocol {
    OutboundGroupProtocol::UrlTest(OutboundGroupUrlTest {
        name: "auto".to_string(),
        proxies: None,
        use_provider: None,
        url: "http://probe.example/204".to_string(),
        interval: 300,
        tolerance,
        lazy,
    })
}

#[test]
fn groups_start_from_their_configuration() {
    match ProxyGroup::from_config(&url_test_config(Some(25), None)) {
        ProxyGroup::UrlTest(u) => {
            assert_eq!(u.tolerance(), 25);
            assert_eq!(u.current(), None);
        }
        other => panic!("unexpected {:?}", other),
    }
    match ProxyGroup::from_config(&url_test_config(None, None)) {
        ProxyGroup::UrlTest(u) => assert_eq!(u.tolerance(), 0),
        other => panic!("unexpected {:?}", other),
    }
    match ProxyGroup::from_config(&url_test_config(Some(-5), None)) {
        ProxyGroup::UrlTest(u) => assert_eq!(u.tolerance(), 0),
        other => panic!("unexpected {:?}", other),
    }
    match ProxyGroup::from_config(&url_test_config(Some(i32::MAX), None)) {
        ProxyGroup::UrlTest(u) => assert_eq!(u.tolerance(), 2147483647),
        other => panic!("unexpected {:?}", other),
    }
    let lb = |strategy| {
        OutboundGroupProtocol::LoadBalance(OutboundGroupLoadBalance {
            name: "lb".to_string(),
            proxies: None,
            use_provider: None,
            url: "http://probe.example/204".to_string(),
            interval: 300,
            strategy,
        })
    };
    match ProxyGroup::from_config(&lb(None)) {
        ProxyGroup::LoadBalance(b) => {
            assert_eq!(b.strategy(), LoadBalanceStrategy::RoundRobin);
            assert_eq!(b.cursor(), 0);
        }
        other => panic!("unexpected {:?}", other),
    }
    match ProxyGroup::from_config(&lb(Some(LoadBalanceStrategy::ConsistentHashing))) {
        ProxyGroup::LoadBalance(b) => {
            assert_eq!(b.strategy(), LoadBalanceStrategy::ConsistentHashing)
        }
        other => panic!("unexpected {:?}", other),
    }
    let relay = OutboundGroupProtocol::Relay(OutboundGroupRelay {
        name: "r".to_string(),
        proxies: None,
        use_provider: None,
    });
    assert!(matches!(ProxyGroup::from_config(&relay), ProxyGroup::Relay));
    let select = OutboundGroupProtocol::Select(OutboundGroupSelect {
        name: "s".to_string(),
        proxies: None,
        use_provider: None,
    });
    assert!(matches!(ProxyGroup::from_config(&select), ProxyGroup::Select(_)));
    let fb = OutboundGroupProtocol::Fallback(OutboundGroupFallback {
        name: "f".to_string(),
        proxies: None,
        use_provider: None,
        url: "http://probe.example/204".to_string(),
        interval: 300,
    });
    assert!(matches!(ProxyGroup::from_config(&fb), ProxyGroup::Fallback));
}

#[test]
fn only_probing_groups_are_probed() {
    let relay = OutboundGroupProtocol::Relay(OutboundGroupRelay {
        name: "r".to_string(),
        proxies: None,
        use_provider: None,
    });
    assert_eq!(ProxyGroup::health_check(&relay), None);
    let select = OutboundGroupProtocol::Select(OutboundGroupSelect {
        name: "s".to_string(),
        proxies: None,
        use_provider: None,
    });
    assert_eq!(ProxyGroup::health_check(&select), None);
    assert_eq!(
        ProxyGroup::health_check(&url_test_config(None, Some(true))),
        Some(HealthCheckConfig {
            url: "http://probe.example/204".to_string(),
            interval: 300,
            lazy: true,
            tolerance: Some(0),
        })
    );
    assert_eq!(
        ProxyGroup::health_check(&url_test_config(Some(40), None)),
        Some(HealthCheckConfig {
            url: "http://probe.example/204".to_string(),
            interval: 300,
            lazy: false,
            tolerance: Some(40),
        })
    );
    assert_eq!(
        ProxyGroup::health_check(&url_test_config(Some(-1), Some(false))),
        Some(HealthCheckConfig {
            url: "http://probe.example/204".to_string(),
            interval: 300,
            lazy: false,
            tolerance: Some(0),
        })
    );
    let fb = OutboundGroupProtocol::Fallback(OutboundGroupFallback {
        name: "f".to_string(),
        proxies: None,
        use_provider: None,
        url: "http://fb.example/".to_string(),
        interval: 0,
    });
    assert_eq!(
        ProxyGroup::health_check(&fb),
        Some(HealthCheckConfig {
            url: "http://fb.example/".to_string(),
            interval: 0,
            lazy: false,
            tolerance: None,
        })
    );
    let lb = OutboundGroupProtocol::LoadBalance(OutboundGroupLoadBalance {
        name: "lb".to_string(),
        proxies: None,
        use_provider: None,
        url: "http://lb.example/".to_string(),
        interval: 60,
        strategy: None,
    });
    assert_eq!(
        ProxyGroup::health_check(&lb),
        Some(HealthCheckConfig {
            url: "http://lb.example/".to_string(),
            interval: 60,
            lazy: false,
            tolerance: None,
        })
    );
}

#[test]
fn a_group_answers_by_its_kind() {
    let ms = abc(Health::Dead, Health::Alive(50), Health::Alive(20));
    assert_eq!(ProxyGroup::Relay.select(&ms, None), Ok(vec![0, 1, 2]));
    assert_eq!(ProxyGroup::Relay.select(&vec![], None), Ok(vec![]));
    assert_eq!(ProxyGroup::Fallback.select(&ms, None), Ok(vec![1]));
    assert_eq!(ProxyGroup::Select(Selector::new()).select(&ms, None), Ok(vec![0]));
    assert_eq!(ProxyGroup::UrlTest(UrlTest::new(0)).select(&ms, None), Ok(vec![2]));
    let mut lb = ProxyGroup::LoadBalance(LoadBalance::new(None));
    assert_eq!(lb.select(&ms, None), Ok(vec![1]));
    assert_eq!(lb.select(&ms, None), Ok(vec![2]));
    assert_eq!(lb.select(&ms, None), Ok(vec![1]));
    let dead = abc(Health::Dead, Health::Dead, Health::Dead);
    assert_eq!(ProxyGroup::Fallback.select(&dead, None), Err(ProxyError::NoLiveProxy));
    assert_eq!(ProxyGroup::UrlTest(UrlTest::new(0)).select(&dead, None), Err(ProxyError::NoLiveProxy));
    assert_eq!(lb.select(&dead, None), Err(ProxyError::NoLiveProxy));
    assert_eq!(ProxyGroup::Select(Selector::new()).select(&dead, None), Ok(vec![0]));
    assert_eq!(ProxyGroup::Relay.select(&dead, None), Ok(vec![0, 1, 2]));
}

#[test]
fn a_hashing_group_maps_a_request_without_key_like_key_zero() {
    let ms = named(&["", "a", "foobar"]);
    let mut g =
        ProxyGroup::LoadBalance(LoadBalance::new(Some(LoadBalanceStrategy::ConsistentHashing)));
    assert_eq!(g.select(&ms, None), Ok(vec![2]));
    assert_eq!(g.select(&ms, Some(0)), Ok(vec![2]));
    assert_eq!(g.select(&ms, Some(0xaf63_dc4c_8601_ec8c)), Ok(vec![1]));
    assert_eq!(g.select(&ms, Some(0xaf63_dc4c_8601_ec8d)), Ok(vec![0]));
}

#[test]
fn a_url_test_group_remembers_between_requests() {
    let mut g = ProxyGroup::from_config(&url_test_config(Some(10), None));
    let two = |a: u64, b: u64| members(&[("A", Health::Alive(a)), ("B", Health::Alive(b))]);
    assert_eq!(g.select(&two(100, 105), None), Ok(vec![0]));
    assert_eq!(g.select(&two(105, 95), None), Ok(vec![0]));
    assert_eq!(g.select(&two(106, 95), None), Ok(vec![1]));
}
