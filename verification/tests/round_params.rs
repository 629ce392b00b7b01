use poc_coordinator::round::{
    fetch_timeout_millis, network_difficulty, RoundInfo, BLOCK_TIME_SECONDS, GENESIS_BASE_TARGET,
};

#[test]
fn fetch_timeout_stays_below_poll_interval() {
    // a 200 ms margin below the poll interval
    assert_eq!(fetch_timeout_millis(5000, 3000), 2800);
    assert_eq!(fetch_timeout_millis(5000, 1000), 800);
}

#[test]
fn fetch_timeout_never_exceeds_request_timeout() {
    assert_eq!(fetch_timeout_millis(500, 1000), 500);
    assert_eq!(fetch_timeout_millis(0, 1000), 0);
}

#[test]
fn fetch_timeout_counts_short_intervals_as_500() {
    // intervals under 500 ms are raised to 500 before the margin is taken
    assert_eq!(fetch_timeout_millis(5000, 100), 300);
    assert_eq!(fetch_timeout_millis(5000, 499), 300);
    assert_eq!(fetch_timeout_millis(5000, 500), 300);
    assert_eq!(fetch_timeout_millis(5000, 501), 301);
}

#[test]
fn network_difficulty_formula() {
    assert_eq!(GENESIS_BASE_TARGET, 4_398_046_511_104);
    assert_eq!(BLOCK_TIME_SECONDS, 240);
    assert_eq!(network_difficulty(1), 18_325_193_796);
    assert_eq!(network_difficulty(1000), 18_325_193);
    assert_eq!(network_difficulty(u64::MAX), 0);
}

#[test]
fn round_info_packs_fields() {
    let gensig = vec![0xABu8; 32];
    let r = RoundInfo::new(gensig.clone(), 1000, 1365, 100);
    assert_eq!(r.gensig, gensig);
    assert_eq!(r.base_target, 1000);
    assert_eq!(r.scoop, 1365);
    assert_eq!(r.height, 100);
}
