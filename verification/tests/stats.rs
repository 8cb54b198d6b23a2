use nyaterm::stats::{decimal, gpu_device_key};

#[test]
fn gpu_cards_are_keyed_by_uuid_or_index() {
    assert_eq!(gpu_device_key(3, " GPU-1234 "), "GPU-1234");
    assert_eq!(gpu_device_key(3, "   "), "3");
    assert_eq!(gpu_device_key(12, ""), "12");
}

#[test]
fn decimals_match_the_standard_formatting() {
    for n in [0u32, 7, 10, 99, 100, 4096, u32::MAX] {
        assert_eq!(decimal(n), n.to_string());
    }
}

#[test]
fn uptime_counts_whole_days_with_a_singular_for_one() {
    assert_eq!(nyaterm::stats::resource_uptime_label(0), ("resourceMonitor.days", 0));
    assert_eq!(nyaterm::stats::resource_uptime_label(86_399), ("resourceMonitor.days", 0));
    assert_eq!(nyaterm::stats::resource_uptime_label(86_400), ("resourceMonitor.day", 1));
    assert_eq!(nyaterm::stats::resource_uptime_label(3 * 86_400 + 5), ("resourceMonitor.days", 3));
}
