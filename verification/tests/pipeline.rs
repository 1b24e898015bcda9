use enose_relay::filtering::{make_filtered, FilterConfig, SensorFilters};
use enose_relay::influxdb::archival_point;
use enose_relay::parsing::{select_readings, split_data_line};
use enose_relay::relay::make_record;

// One reading, end to end: parse, filter with a window of one and modulation
// off, build the published record, convert it to the archival point.
#[test]
fn one_reading_end_to_end() {
    let line = b"SENSOR:10,20,30,40,50,60,70,3,2";
    let toks = split_data_line(line).unwrap();
    let parsed: Vec<Option<(u32, i32)>> = toks
        .iter()
        .map(|t| {
            std::str::from_utf8(t)
                .ok()
                .and_then(|s| s.parse::<f32>().ok())
                .map(|v| (v.to_bits(), v as i32))
        })
        .collect();
    let raw = select_readings(&parsed).unwrap();

    let cfg = FilterConfig {
        window_size: 1,
        sine_amplitude: 0,
        sine_frequency: 0,
        sine_enabled: false,
    };
    let mut filters = SensorFilters::new(&cfg);
    let _elapsed = filters.update(&raw);

    // With a window of one the average is the sample itself; with modulation
    // off the averaged value passes through unchanged.
    let avg = |w: &Vec<u32>| -> u32 {
        let sum: f32 = w.iter().map(|b| f32::from_bits(*b)).sum();
        (sum / w.len() as f32).to_bits()
    };
    let filtered = make_filtered(
        &raw,
        avg(&filters.no2),
        avg(&filters.eth),
        avg(&filters.voc),
        avg(&filters.co),
        avg(&filters.com),
        avg(&filters.ethm),
        avg(&filters.vocm),
    );
    assert_eq!(f32::from_bits(filtered.no2), 10.0);
    assert_eq!(f32::from_bits(filtered.eth), 20.0);
    assert_eq!(f32::from_bits(filtered.voc), 30.0);
    assert_eq!(f32::from_bits(filtered.co), 40.0);
    assert_eq!(f32::from_bits(filtered.com), 50.0);
    assert_eq!(f32::from_bits(filtered.ethm), 60.0);
    assert_eq!(f32::from_bits(filtered.vocm), 70.0);

    let rec = make_record(&filtered, 1_700_000_000_000);
    assert_eq!(rec.state, 3);
    assert_eq!(rec.state_name, "HOLD");
    assert_eq!(rec.level, 2);
    assert_eq!(rec.source, "arduino");

    let point = archival_point(&rec).unwrap();
    assert_eq!(point.timestamp, 1_700_000_000_000 * 1_000_000);
    assert_eq!(f32::from_bits(point.no2), 10.0);
    assert_eq!(point.state, 3);
    assert_eq!(point.level, 2);
    assert_eq!(point.source, "arduino");
}
