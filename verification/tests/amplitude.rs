use wavescope::amplitude::abs_amplitude_sum;
use wavescope::amplitude::magnitude;
use wavescope::amplitude::mean_abs_amplitude;
use wavescope::data_buffer::DataBuffer;

#[test]
fn silence_has_no_amplitude() {
    let data = DataBuffer::new(4).unwrap();
    assert_eq!(abs_amplitude_sum(&data), 0);
    assert_eq!(mean_abs_amplitude(&data), 0);
}

#[test]
fn alternating_units_have_mean_one() {
    let mut data = DataBuffer::new(4).unwrap();
    data.push_latest_data(&[-1, 1, -1, 1]);
    assert_eq!(abs_amplitude_sum(&data), 4);
    assert_eq!(mean_abs_amplitude(&data), 1);
}

#[test]
fn alternating_full_scale_has_mean_full_scale() {
    let mut data = DataBuffer::new(4).unwrap();
    data.push_latest_data(&[-32767, 32767, -32767, 32767]);
    assert_eq!(mean_abs_amplitude(&data), 32767);
    let mean = abs_amplitude_sum(&data) as f64 / data.len() as f64 / 32767.0;
    assert_eq!(mean, 1.0);
}

#[test]
fn mean_is_rounded_down() {
    let mut data = DataBuffer::new(4).unwrap();
    data.push_latest_data(&[3, -4]);
    assert_eq!(abs_amplitude_sum(&data), 7);
    assert_eq!(mean_abs_amplitude(&data), 1);
}

#[test]
fn magnitude_of_the_most_negative_sample() {
    assert_eq!(magnitude(i16::MIN), 32768);
    assert_eq!(magnitude(i16::MAX), 32767);
    assert_eq!(magnitude(-5), 5);
    assert_eq!(magnitude(0), 0);
    let mut data = DataBuffer::new(2).unwrap();
    data.push_latest_data(&[i16::MIN, i16::MIN]);
    assert_eq!(abs_amplitude_sum(&data), 65536);
    assert_eq!(mean_abs_amplitude(&data), 32768);
}
