use epmon::chart::{difference_series, ChartType, CustomChart, DisplayPoint, NUM_DISPLAY_DATAPOINTS};
use epmon::remote::RemoteData;
use epmon::time_interval::TimeInterval;

fn power_chart_with(samples: Vec<u16>) -> CustomChart {
    let mut chart = CustomChart::default();
    chart.chart_type = ChartType::Power;
    let mut data = RemoteData::PVPower(samples);
    chart.update_power_from_remote(&mut data);
    assert_eq!(data, RemoteData::NoData);
    chart
}

#[test]
fn newest_sample_sits_at_time_zero_and_oldest_at_minus_span() {
    // 5000 samples at a 20 ms period: the newest sample's time is 0, the
    // oldest sample's time is -(5000 - 1) * 20 ms.
    let chart = power_chart_with(vec![100; 5000]);
    assert_eq!(chart.period_ms, 20);
    assert_eq!(chart.time_for_index(4999), 0);
    assert_eq!(chart.time_for_index(0), -(4999 * 20));
}

#[test]
fn empty_buffer_maps_every_lookup_to_zero() {
    let chart = CustomChart::default();
    assert_eq!(chart.index_for_time(-50_000), 0);
    assert_eq!(chart.index_for_time(0), 0);
    assert_eq!(chart.time_for_index(0), 0);
    assert_eq!(chart.display_data.len(), 0);
    assert_eq!(chart.integrate(), 0);
}

#[test]
fn display_never_exceeds_the_point_target() {
    // 10,000 samples under a window that covers them all: group size 10,
    // exactly 1000 points, no trailing partial group.
    let mut chart = power_chart_with(vec![7; 10_000]);
    chart.adjust_time_interval(TimeInterval::FiveMinutes);
    assert_eq!(chart.min_time, -300_000);
    assert_eq!(chart.data_range_end - chart.data_range_start, 10_000);
    assert_eq!(chart.display_data.len(), 1000);
    assert!(chart.display_data.len() <= NUM_DISPLAY_DATAPOINTS);
    // Every group of ten equal samples averages to the sample itself.
    assert!(chart.display_data.iter().all(|p| p.value == 7));
    // Point times sit at each group's midpoint index.
    assert_eq!(chart.display_data[0].time_ms, chart.time_for_index(5));
    assert_eq!(chart.display_data[999].time_ms, chart.time_for_index(9995));
}

#[test]
fn trailing_partial_group_is_dropped() {
    // 1001 samples in the window: group size 2, 500 full groups, and the
    // last lone sample is not emitted.
    let mut chart = power_chart_with(vec![5; 1001]);
    chart.adjust_time_interval(TimeInterval::Minute);
    assert_eq!(chart.data_range_end - chart.data_range_start, 1001);
    assert_eq!(chart.display_data.len(), 500);
    assert!(chart.display_data.iter().all(|p| p.value == 5));
}

#[test]
fn display_points_hold_truncated_group_means() {
    // Ten samples, one point each (group size 1): values pass through and
    // each point's time is its own sample's time.
    let samples: Vec<u16> = (0..10).collect();
    let chart = power_chart_with(samples);
    assert_eq!(chart.display_data.len(), 10);
    for (i, p) in chart.display_data.iter().enumerate() {
        assert_eq!(*p, DisplayPoint { time_ms: chart.time_for_index(i), value: i as u32 });
    }
}

#[test]
fn integrate_over_the_full_range_is_the_sample_sum_times_the_period() {
    // 5000 power samples of 100 W at 20 ms per sample, window and
    // integration sub-range both spanning the full 100 s.
    let chart = power_chart_with(vec![100; 5000]);
    assert_eq!(chart.min_time, -100_000);
    assert_eq!(chart.integration_start_ms, 0);
    assert_eq!(chart.integration_end_ms, 100_000);
    let energy_wms = chart.integrate();
    assert_eq!(energy_wms, 5000 * 100 * 20);

    // In kilowatt-hours that is 100 W for 100 s: 100 * 100 / 3600 watt
    // hours.
    let kwh = energy_wms as f64 / 3_600_000_000.0;
    let expected_kwh = 100.0 * 100.0 / 3600.0 / 1000.0;
    assert!((kwh - expected_kwh).abs() < 1e-12);
}

#[test]
fn integrate_respects_the_sub_window() {
    // 5000 samples of 100 W; integrate only the first half of the window.
    let mut chart = power_chart_with(vec![100; 5000]);
    chart.set_integration_range(0, 50_000);
    let energy = chart.integrate();
    // Indices 0 .. 2500 fall inside the half-window.
    assert_eq!(energy, 2500 * 100 * 20);
}

#[test]
fn voltage_updates_convert_adc_readings() {
    let mut chart = CustomChart::default();
    let mut data = RemoteData::BatteryVoltage(vec![0, 4081]);
    chart.update_voltages_from_remote(&mut data);
    assert_eq!(data, RemoteData::NoData);
    assert_eq!(chart.data, vec![0, 18362]);
}

#[test]
fn non_batch_content_appends_nothing() {
    let mut chart = CustomChart::default();
    let mut data = RemoteData::VoltageBufferSize(42);
    chart.update_voltages_from_remote(&mut data);
    assert_eq!(data, RemoteData::NoData);
    assert_eq!(chart.data.len(), 0);

    let mut data = RemoteData::BatteryVoltage(vec![1, 2, 3]);
    // A voltage batch is not a power batch.
    chart.update_power_from_remote(&mut data);
    assert_eq!(data, RemoteData::NoData);
    assert_eq!(chart.data.len(), 0);
}

#[test]
fn window_setters_recompute_the_display() {
    let mut chart = power_chart_with(vec![9; 100]);
    assert_eq!(chart.display_data.len(), 100);
    // Narrow the window to one second: 51 samples fall inside it
    // (indices 49 ..= 99).
    chart.adjust_time_interval(TimeInterval::Second);
    assert_eq!(chart.min_time, -1000);
    assert_eq!(chart.data_range_end - chart.data_range_start, 51);
    assert_eq!(chart.display_data.len(), 51);

    // A period change refreshes the derivation at once.
    chart.set_period_ms(10);
    assert_eq!(chart.period_ms, 10);
    assert_eq!(chart.data_range_end - chart.data_range_start, 100);
    assert_eq!(chart.display_data.len(), 100);
}

#[test]
fn max_time_moves_the_window_right_border() {
    let mut chart = power_chart_with(vec![3; 100]);
    // Put the right border one second into the past: the newest sample
    // leaves the window.
    chart.set_max_time(-1000);
    assert_eq!(chart.max_time, -1000);
    assert_eq!(chart.data_range_end, 50);
    chart.adjust_time_interval(TimeInterval::Second);
    assert_eq!(chart.min_time, -2000);
}

#[test]
fn default_chart_matches_its_documented_shape() {
    let chart = CustomChart::default();
    assert_eq!(chart.title, "");
    assert_eq!(chart.data.len(), 0);
    assert_eq!(chart.display_data.len(), 0);
    assert_eq!(chart.min_time, -100_000);
    assert_eq!(chart.max_time, 0);
    assert_eq!(chart.integration_start_ms, 0);
    assert_eq!(chart.integration_end_ms, 100_000);
    assert_eq!(chart.period_ms, 20);
    assert_eq!(chart.chart_type, ChartType::Voltage);
}

#[test]
fn interval_widths_in_seconds() {
    assert_eq!(TimeInterval::Second.to_seconds(), 1);
    assert_eq!(TimeInterval::TenSeconds.to_seconds(), 10);
    assert_eq!(TimeInterval::ThirtySeconds.to_seconds(), 30);
    assert_eq!(TimeInterval::Minute.to_seconds(), 60);
    assert_eq!(TimeInterval::FiveMinutes.to_seconds(), 300);
    assert_eq!(TimeInterval::ThirtyMinutes.to_seconds(), 1800);
    assert_eq!(TimeInterval::Hour.to_seconds(), 3600);
    assert_eq!(TimeInterval::ThreeHours.to_seconds(), 3 * 3600);
    assert_eq!(TimeInterval::SixHours.to_seconds(), 6 * 3600);
    assert_eq!(TimeInterval::TwelveHours.to_seconds(), 12 * 3600);
    assert_eq!(TimeInterval::Day.to_seconds(), 24 * 3600);
    assert_eq!(TimeInterval::default(), TimeInterval::Minute);
}

#[test]
fn difference_series_subtracts_element_by_element() {
    let pack = vec![100, 200, 300, 400];
    let first = vec![40, 250, 300];
    // As long as the shorter series; a larger subtrahend clamps at zero.
    assert_eq!(difference_series(&pack, &first), vec![60, 0, 0]);
    assert_eq!(difference_series(&first, &pack), vec![0, 50, 0]);
    assert_eq!(difference_series(&Vec::new(), &first), Vec::<u32>::new());
}

#[test]
fn replace_data_swaps_the_series_and_recomputes() {
    let mut chart = CustomChart::default();
    chart.replace_data(vec![10, 20, 30]);
    assert_eq!(chart.data, vec![10, 20, 30]);
    assert_eq!(chart.display_data.len(), 3);
    assert_eq!(chart.display_data[2].value, 30);
    chart.replace_data(Vec::new());
    assert_eq!(chart.data.len(), 0);
    assert_eq!(chart.display_data.len(), 0);
}
