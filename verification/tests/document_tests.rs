use measure_home_env_fs::document::FieldValue;
use measure_home_env_fs::document::MeasurementDoc;

#[test]
fn build_divides_pressure_by_100() {
    let d = MeasurementDoc::new("2024/03/01 10:15:30".to_string(), 21500, 48200, 101325000);
    assert_eq!(d.pressure, FieldValue::DoubleValue(1013250));
}

#[test]
fn build_keeps_temperature_and_humidity_unconverted() {
    let d = MeasurementDoc::new("2024/03/01 10:15:30".to_string(), 21500, 48200, 101325000);
    assert_eq!(d.temperature, FieldValue::DoubleValue(21500));
    assert_eq!(d.humidity, FieldValue::DoubleValue(48200));
    assert_eq!(
        d.datetime,
        FieldValue::StringValue("2024/03/01 10:15:30".to_string())
    );
}

#[test]
fn build_negative_pressure_truncates_toward_zero() {
    let d = MeasurementDoc::new("x".to_string(), 0, 0, -150);
    assert_eq!(d.pressure, FieldValue::DoubleValue(-1));
}

#[test]
fn field_map_holds_the_four_fields_in_schema_order() {
    let d = MeasurementDoc::new("2024/03/01 10:15:30".to_string(), 21500, 48200, 101325000);
    let map = d.to_hashmap();
    assert_eq!(map.len(), 4);
    assert_eq!(map[0].0, "datetime");
    assert_eq!(map[0].1, FieldValue::StringValue("2024/03/01 10:15:30".to_string()));
    assert_eq!(map[1].0, "temperature");
    assert_eq!(map[1].1, FieldValue::DoubleValue(21500));
    assert_eq!(map[2].0, "humidity");
    assert_eq!(map[2].1, FieldValue::DoubleValue(48200));
    assert_eq!(map[3].0, "pressure");
    assert_eq!(map[3].1, FieldValue::DoubleValue(1013250));
}

#[test]
fn inline_rendering_shows_three_decimals() {
    let d = MeasurementDoc::new("2024/03/01 10:15:30".to_string(), 21500, 48200, 101325000);
    assert_eq!(
        d.render_inline(),
        "\"datetime\": \"2024/03/01 10:15:30\", \"temperature\": 21.500, \"humidity\": 48.200, \"pressure\": 1013.250"
    );
}

#[test]
fn inline_rendering_negative_temperature() {
    let d = MeasurementDoc::new("2024/12/24 00:00:01".to_string(), -2500, 95000, 99000000);
    assert_eq!(
        d.render_inline(),
        "\"datetime\": \"2024/12/24 00:00:01\", \"temperature\": -2.500, \"humidity\": 95.000, \"pressure\": 990.000"
    );
}

#[test]
fn pressure_in_pa_matches_float_division_within_tolerance() {
    // Reading{pressure = 101325.0 Pa} carried as thousandths.
    let p_pa: f64 = 101325.0;
    let p_milli = (p_pa * 1000.0).round() as i64;
    let d = MeasurementDoc::new("t".to_string(), 0, 0, p_milli);
    match d.pressure {
        FieldValue::DoubleValue(milli_hpa) => {
            let hpa = milli_hpa as f64 / 1000.0;
            assert!((hpa - p_pa / 100.0).abs() < 1e-6);
        }
        _ => panic!("pressure must be numeric"),
    }
}
