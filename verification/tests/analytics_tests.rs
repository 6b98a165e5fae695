use open_donate::analytics::{
    kpi_color_class, kpi_icon_bg_class, payment_breakdown_json, random_test_donation,
    revenue_date_format, revenue_interval, revenue_over_time_query, time_range_label,
};

#[test]
fn time_ranges() {
    assert_eq!(revenue_interval("day"), "24 hours");
    assert_eq!(revenue_interval("week"), "7 days");
    assert_eq!(revenue_interval("month"), "30 days");
    assert_eq!(revenue_interval("year'; DROP TABLE x; --"), "7 days");
    assert_eq!(revenue_date_format("day"), "HH24:00");
    assert_eq!(revenue_date_format("month"), "MM-DD");
    assert_eq!(time_range_label("day"), "24h");
    assert_eq!(time_range_label("week"), "7d");
    assert_eq!(time_range_label("month"), "30d");
    assert_eq!(time_range_label("other"), "");
}

#[test]
fn revenue_query_text() {
    let expected = format!(
        "SELECT TO_CHAR(created_at, '{}') as date, SUM(amount) as daily_revenue
             FROM transactions 
             WHERE streamer_id = $1 AND created_at >= NOW() - INTERVAL '{}'
             GROUP BY TO_CHAR(created_at, '{}')
             ORDER BY date ASC",
        "HH24:00", "24 hours", "HH24:00"
    );
    assert_eq!(revenue_over_time_query("day"), expected);
    assert!(revenue_over_time_query("month").contains("INTERVAL '30 days'"));
}

#[test]
fn breakdown_json() {
    assert_eq!(payment_breakdown_json(&vec![]), "[]");
    let rows = vec![("Mock Auto".to_string(), 12i64), ("Say \"hi\"".to_string(), -1i64)];
    assert_eq!(payment_breakdown_json(&rows), "[[\"Mock Auto\",12],[\"Say \\\"hi\\\"\",-1]]");
}

#[test]
fn kpi_classes() {
    assert_eq!(kpi_color_class("primary"), "text-primary");
    assert_eq!(kpi_color_class("secondary"), "text-secondary");
    assert_eq!(kpi_color_class("tertiary"), "text-tertiary");
    assert_eq!(kpi_color_class("x"), "text-on-surface");
    assert_eq!(kpi_icon_bg_class("primary"), "bg-primary/15");
    assert_eq!(kpi_icon_bg_class("secondary"), "bg-secondary/15");
    assert_eq!(kpi_icon_bg_class("tertiary"), "bg-tertiary/15");
    assert_eq!(kpi_icon_bg_class(""), "bg-surface-variant/40");
}

#[test]
fn test_donations_use_fixed_choices() {
    let names = [
        "DragonSlayer99", "MoonWatcher", "PixelKnight", "StardustGamer", "NightOwl_42",
        "CrypticFox", "SilverArrow", "ThunderBolt", "CosmicRaider", "NeonPhoenix", "IronWolf",
        "QuantumByte",
    ];
    for _ in 0..50 {
        let d = random_test_donation();
        assert!(names.contains(&d.donor_name.as_str()));
        assert!([1u32, 2, 5, 10, 20, 50, 100].contains(&d.amount_dollars));
        assert!(!d.message.is_empty());
        assert_eq!(d.payment_method, "test_mock");
    }
}
