use envmon::textfmt::{render_error_text, render_humi_line, render_temp_line};

#[test]
fn temp_line_has_two_decimals() {
    assert_eq!(render_temp_line(2346), "Temp: 23.46°C".as_bytes());
}

#[test]
fn humi_line_pads_fraction_with_zero() {
    assert_eq!(render_humi_line(5510), "Humi: 55.10%".as_bytes());
}

#[test]
fn negative_temperature_keeps_sign() {
    assert_eq!(render_temp_line(-523), "Temp: -5.23°C".as_bytes());
}

#[test]
fn coldest_reading_fits() {
    assert_eq!(render_temp_line(-4000), "Temp: -40.00°C".as_bytes());
    assert_eq!("Temp: -40.00°C".as_bytes().len(), 15);
}

#[test]
fn zero_temperature() {
    assert_eq!(render_temp_line(0), "Temp: 0.00°C".as_bytes());
}

#[test]
fn tiny_humidity_pads_whole_part() {
    assert_eq!(render_humi_line(5), "Humi: 0.05%".as_bytes());
}

#[test]
fn saturated_humidity() {
    assert_eq!(render_humi_line(10000), "Humi: 100.00%".as_bytes());
}

#[test]
fn error_placeholder_text() {
    assert_eq!(render_error_text(), b"Error".as_slice());
}
