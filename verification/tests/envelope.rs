use loudness::envelope::{peak_magnitude, sample_magnitude};

#[test]
fn magnitude_is_the_absolute_value() {
    assert_eq!(sample_magnitude(0), 0);
    assert_eq!(sample_magnitude(5), 5);
    assert_eq!(sample_magnitude(-5), 5);
    assert_eq!(sample_magnitude(i16::MAX), 32767);
}

#[test]
fn magnitude_of_the_lowest_sample_fits() {
    assert_eq!(sample_magnitude(i16::MIN), 32768);
}

#[test]
fn peak_is_the_largest_magnitude() {
    assert_eq!(peak_magnitude(&vec![0, 4000, -8000, 4000]), 8000);
    assert_eq!(peak_magnitude(&vec![-1, 1]), 1);
    assert_eq!(peak_magnitude(&vec![3, i16::MIN, i16::MAX]), 32768);
}

#[test]
fn peak_of_nothing_and_of_silence_is_zero() {
    assert_eq!(peak_magnitude(&vec![]), 0);
    assert_eq!(peak_magnitude(&vec![0, 0, 0]), 0);
}
