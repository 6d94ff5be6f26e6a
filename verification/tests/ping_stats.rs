use ping_meter::ping_data::PingData;

fn data_with(samples: &[Option<u64>], max: usize) -> PingData<f32> {
    let mut pd = PingData::new();
    for s in samples {
        pd.record(*s, max, 3.0);
    }
    pd
}

#[test]
fn new_data_has_no_samples_or_stats() {
    let pd: PingData<f32> = PingData::default();
    assert!(pd.plot_points().is_empty());
    assert!(pd.stats().is_none());
    assert_eq!(pd.last_sample(), None);
}

#[test]
fn stats_count_losses_after_the_first_sample() {
    let pd = data_with(&[None, Some(10), None, Some(20), Some(15)], 30);
    let st = pd.stats().unwrap();
    assert_eq!(st.sample_count, 5);
    // the first sample is never counted as lost
    assert_eq!(st.lost_packet_count, 1);
    // |10 - (-1)| + |20 - (-1)| + |15 - 20| = 11 + 21 + 5
    assert_eq!(st.jitter_ms, 37);
    assert_eq!(st.ping_timeout, 3.0);
}

#[test]
fn single_sample_has_zero_stats() {
    let pd = data_with(&[None], 30);
    let st = pd.stats().unwrap();
    assert_eq!(st.sample_count, 1);
    assert_eq!(st.lost_packet_count, 0);
    assert_eq!(st.jitter_ms, 0);
}

#[test]
fn jitter_of_extreme_values_does_not_overflow() {
    let pd = data_with(&[Some(0), Some(u64::MAX), None, Some(u64::MAX), Some(0)], 30);
    let st = pd.stats().unwrap();
    let m = u64::MAX as u128;
    assert_eq!(st.jitter_ms, m + (m + 1) + m);
    assert_eq!(st.lost_packet_count, 1);
}

#[test]
fn history_keeps_at_most_one_more_than_the_limit() {
    let mut pd: PingData<f32> = PingData::new();
    for i in 0..10u64 {
        pd.record(Some(i), 3, 1.0);
        assert!(pd.plot_points().len() <= 4);
        assert_eq!(pd.last_sample(), Some(Some(i)));
    }
    assert_eq!(pd.plot_points(), &vec![Some(6), Some(7), Some(8), Some(9)]);
}

#[test]
fn an_oversized_history_shrinks_by_one_at_most() {
    let mut pd = data_with(&[Some(1), Some(2), Some(3), Some(4), Some(5)], 30);
    pd.record(Some(6), 1, 1.0);
    assert_eq!(pd.plot_points(), &vec![Some(2), Some(3), Some(4), Some(5), Some(6)]);
}

#[test]
fn recalculating_uses_the_given_timeout() {
    let mut pd = data_with(&[Some(5), None], 30);
    pd.calculate_ping_stats(0.5);
    let st = pd.stats().unwrap();
    assert_eq!(st.ping_timeout, 0.5);
    assert_eq!(st.lost_packet_count, 1);
    let mut empty: PingData<f32> = PingData::new();
    empty.calculate_ping_stats(0.5);
    assert!(empty.stats().is_none());
}
