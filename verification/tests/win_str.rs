use windows_app::win_str::{after_fill, after_measure, begin_conversion, failure_text, ConvertStep};

#[test]
fn an_empty_text_needs_no_converter() {
    assert_eq!(begin_conversion(0), ConvertStep::Empty);
    assert_eq!(begin_conversion(1), ConvertStep::Measure);
    assert_eq!(begin_conversion(usize::MAX), ConvertStep::Measure);
}

#[test]
fn the_measure_decides_the_buffer() {
    assert_eq!(after_measure(5), ConvertStep::Fill { units: 5 });
    assert_eq!(after_measure(1), ConvertStep::Fill { units: 1 });
    assert_eq!(after_measure(0), ConvertStep::Failed);
    assert_eq!(after_measure(-1), ConvertStep::Failed);
    assert_eq!(after_measure(i32::MAX), ConvertStep::Fill { units: i32::MAX as usize });
}

#[test]
fn the_filled_units_are_decoded() {
    let buffer: [u16; 4] = [0x48, 0x69, 0x21, 0x00];
    assert_eq!(after_fill(2, &buffer), Ok(String::from("Hi")));
    assert_eq!(after_fill(3, &buffer), Ok(String::from("Hi!")));
    let cjk: [u16; 2] = [0x9032, 0x5EA6];
    assert_eq!(after_fill(2, &cjk), Ok(String::from("進度")));
}

#[test]
fn invalid_units_are_replaced() {
    let buffer: [u16; 3] = [0x41, 0xD800, 0x42];
    assert_eq!(after_fill(3, &buffer), Ok(String::from("A\u{FFFD}B")));
}

#[test]
fn a_bad_count_is_a_failure() {
    let buffer: [u16; 2] = [0x48, 0x69];
    assert_eq!(after_fill(0, &buffer), Err(String::from("convert failed")));
    assert_eq!(after_fill(-3, &buffer), Err(String::from("convert failed")));
    assert_eq!(after_fill(3, &buffer), Err(String::from("convert failed")));
    assert_eq!(failure_text(), "convert failed");
}
