use enose_relay::filtering::{
    default_sine_amplitude, default_sine_enabled, default_sine_frequency, make_filtered,
    push_sample, FilterConfig, SensorFilters, UnifiedSensorRaw, DEFAULT_SINE_AMPLITUDE_BITS,
    DEFAULT_SINE_FREQUENCY_BITS,
};

fn mean(bits: &[u32]) -> f32 {
    let sum: f32 = bits.iter().map(|b| f32::from_bits(*b)).sum();
    sum / bits.len() as f32
}

fn raw_all(v: f32, state: i32, level: i32) -> UnifiedSensorRaw {
    let b = v.to_bits();
    UnifiedSensorRaw {
        no2: b,
        eth: b,
        voc: b,
        co: b,
        com: b,
        ethm: b,
        vocm: b,
        state,
        level,
    }
}

#[test]
fn default_amplitude_is_fifteen_percent() {
    assert_eq!(default_sine_amplitude(), 0.15f32.to_bits());
    assert_eq!(DEFAULT_SINE_AMPLITUDE_BITS, 0.15f32.to_bits());
}

#[test]
fn default_frequency_is_half_hertz() {
    assert_eq!(default_sine_frequency(), 0.5f32.to_bits());
    assert_eq!(DEFAULT_SINE_FREQUENCY_BITS, 0.5f32.to_bits());
}

#[test]
fn default_enabled_is_true() {
    assert!(default_sine_enabled());
}

#[test]
fn zero_window_size_is_treated_as_one() {
    let cfg = FilterConfig {
        window_size: 0,
        sine_amplitude: 0,
        sine_frequency: 0,
        sine_enabled: false,
    };
    let f = SensorFilters::new(&cfg);
    assert_eq!(f.window_size, 1);
    assert!(f.no2.is_empty());
}

#[test]
fn push_sample_evicts_oldest_first() {
    let mut w = vec![1u32, 2, 3];
    push_sample(&mut w, 4, 3);
    assert_eq!(w, vec![2u32, 3, 4]);
    let mut short = vec![1u32];
    push_sample(&mut short, 9, 3);
    assert_eq!(short, vec![1u32, 9]);
}

#[test]
fn window_holds_recent_suffix_and_mean_matches() {
    // The k-th output equals the mean of the last min(k, W) raw values.
    let cfg = FilterConfig {
        window_size: 3,
        sine_amplitude: 0,
        sine_frequency: 0,
        sine_enabled: false,
    };
    let mut f = SensorFilters::new(&cfg);
    let raws = [10.0f32, 20.0, 30.0, 40.0, 50.0];
    for (k, v) in raws.iter().enumerate() {
        let _elapsed = f.update(&raw_all(*v, 0, 0));
        let lo = if k + 1 > 3 { k + 1 - 3 } else { 0 };
        let expect: f32 = raws[lo..=k].iter().sum::<f32>() / (k + 1 - lo) as f32;
        assert_eq!(mean(&f.no2), expect);
        assert_eq!(mean(&f.vocm), expect);
        assert!(f.no2.len() <= 3);
    }
    let last: Vec<u32> = [30.0f32, 40.0, 50.0].iter().map(|v| v.to_bits()).collect();
    assert_eq!(f.no2, last);
    assert_eq!(f.eth, last);
    assert_eq!(f.vocm, last);
}

#[test]
fn warm_up_divides_by_current_length() {
    let cfg = FilterConfig {
        window_size: 5,
        sine_amplitude: 0,
        sine_frequency: 0,
        sine_enabled: false,
    };
    let mut f = SensorFilters::new(&cfg);
    f.update(&raw_all(10.0, 0, 0));
    assert_eq!(mean(&f.no2), 10.0);
    f.update(&raw_all(20.0, 0, 0));
    assert_eq!(mean(&f.no2), 15.0);
}

#[test]
fn update_elapsed_is_one_shared_nonnegative_sample() {
    let cfg = FilterConfig {
        window_size: 2,
        sine_amplitude: default_sine_amplitude(),
        sine_frequency: default_sine_frequency(),
        sine_enabled: true,
    };
    let mut f = SensorFilters::new(&cfg);
    let elapsed = f.update(&raw_all(10.0, 1, 2));
    assert!(elapsed >= 0);
    // One elapsed sample serves every channel of the reading: the scale
    // computed from it applies uniformly, so equal inputs modulate equally.
    let secs = elapsed as f32 / 1000.0;
    let angle = 2.0 * std::f32::consts::PI * f32::from_bits(f.sine_frequency) * secs;
    let scale = 1.0 + f32::from_bits(f.sine_amplitude) * angle.sin();
    let out_no2 = mean(&f.no2) * scale;
    let out_eth = mean(&f.eth) * scale;
    assert_eq!(out_no2, out_eth);
}

#[test]
fn filtered_passes_state_and_level_through() {
    let raw = raw_all(1.5, 4, 9);
    let f = make_filtered(&raw, 1, 2, 3, 4, 5, 6, 7);
    assert_eq!(f.no2, 1);
    assert_eq!(f.vocm, 7);
    assert_eq!(f.state, 4);
    assert_eq!(f.level, 9);
}
