use p2p_protos::stats::NodeStats;

#[test]
fn test_new_stats() {
    let stats = NodeStats::default();

    assert_eq!(stats.total_recvd(), 0);
}

#[test]
fn test_inc_recvd() {
    let mut stats = NodeStats::default();

    stats.inc_recvd();

    assert_eq!(stats.total_recvd(), 1);
}

#[test]
fn stats_text_counts_packets() {
    let mut stats = NodeStats::new();
    stats.inc_recvd();
    stats.inc_recvd();
    assert_eq!(stats.describe(), "Packets received: 2\n");
}
