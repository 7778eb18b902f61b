use rect_area::decimal::to_decimal;

#[test]
fn zero_is_written_as_one_digit() {
    assert_eq!(to_decimal(0), "0");
}

#[test]
fn single_digits_are_written_as_themselves() {
    let digits = ["0", "1", "2", "3", "4", "5", "6", "7", "8", "9"];
    for (n, digit) in (0u16..10).zip(digits) {
        assert_eq!(to_decimal(n), digit);
    }
}

#[test]
fn digits_run_from_most_to_least_significant() {
    assert_eq!(to_decimal(10), "10");
    assert_eq!(to_decimal(12), "12");
    assert_eq!(to_decimal(21), "21");
    assert_eq!(to_decimal(100), "100");
    assert_eq!(to_decimal(1009), "1009");
    assert_eq!(to_decimal(40960), "40960");
}

#[test]
fn largest_value_is_written_in_five_digits() {
    assert_eq!(to_decimal(65535), "65535");
}

#[test]
fn every_value_is_written_as_the_standard_library_writes_it() {
    for n in 0..=u16::MAX {
        assert_eq!(to_decimal(n), n.to_string());
    }
}

#[test]
fn every_value_reads_back_from_its_text() {
    for n in 0..=u16::MAX {
        assert_eq!(to_decimal(n).parse::<u16>(), Ok(n));
    }
}
