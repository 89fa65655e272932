use statusline::get_context_pct;
use statusline::percent::format_percent;

fn assistant_line(timestamp: &str, input: u64) -> String {
    format!(
        "{{\"timestamp\":{},\"message\":{{\"role\":\"assistant\",\"usage\":{{\"input_tokens\":{}}}}}}}",
        timestamp, input
    )
}

#[test]
fn no_transcript_shows_zero() {
    assert_eq!(get_context_pct(None), "0");
    assert_eq!(get_context_pct(Some("")), "0");
}

#[test]
fn usage_counts_are_summed() {
    let line = "{\"timestamp\":\"2024-01-01T00:00:00Z\",\"message\":{\"role\":\"assistant\",\"usage\":{\"input_tokens\":10000,\"output_tokens\":20000,\"cache_read_input_tokens\":30000,\"cache_creation_input_tokens\":20000}}}";
    assert_eq!(get_context_pct(Some(line)), "50");
}

#[test]
fn percent_is_capped_at_one_hundred() {
    assert_eq!(format_percent(160_000), "100.0");
    assert_eq!(format_percent(160_001), "100.0");
    assert_eq!(format_percent(u128::MAX), "100.0");
    let line = assistant_line("1", u64::MAX);
    assert_eq!(get_context_pct(Some(&line)), "100.0");
}

#[test]
fn just_below_ninety_shows_whole_number() {
    for used in 143_920u128..144_000 {
        assert_eq!(format_percent(used), "90");
    }
    assert_eq!(format_percent(144_000), "90.0");
    assert_eq!(format_percent(143_199), "89");
    assert_eq!(format_percent(143_200), "90");
}

#[test]
fn whole_percent_rounds_to_nearest() {
    assert_eq!(format_percent(0), "0");
    assert_eq!(format_percent(799), "0");
    assert_eq!(format_percent(800), "1");
    assert_eq!(format_percent(2_399), "1");
    assert_eq!(format_percent(2_400), "2");
    assert_eq!(format_percent(80_000), "50");
}

#[test]
fn one_decimal_from_ninety_percent() {
    assert_eq!(format_percent(152_000), "95.0");
    assert_eq!(format_percent(144_080), "90.1");
    assert_eq!(format_percent(144_240), "90.2");
    assert_eq!(format_percent(144_400), "90.2");
    assert_eq!(format_percent(145_200), "90.8");
    assert_eq!(format_percent(159_999), "100.0");
}

#[test]
fn percent_text_is_what_single_precision_prints() {
    for used in 0u64..=170_000 {
        let pct = ((used as f32 * 100.0) / 160000.0).min(100.0);
        let expected = if pct >= 90.0 {
            format!("{:.1}", pct)
        } else {
            format!("{}", pct.round() as u32)
        };
        assert_eq!(format_percent(used as u128), expected);
    }
}
