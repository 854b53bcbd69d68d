use scoped_instrumenter::numfmt::decimal_string;
use scoped_instrumenter::numfmt::sci_string;
use scoped_instrumenter::rowfmt::format_row;
use scoped_instrumenter::rowfmt::header_line;
use scoped_instrumenter::sink::count_lines;
use scoped_instrumenter::sink::csv_file_name;
use scoped_instrumenter::sink::recovered_entry_count;

#[test]
fn decimal_rendering() {
    assert_eq!(decimal_string(0), "0");
    assert_eq!(decimal_string(7), "7");
    assert_eq!(decimal_string(10), "10");
    assert_eq!(decimal_string(10000), "10000");
    assert_eq!(decimal_string(u64::MAX), "18446744073709551615");
}

#[test]
fn scientific_rendering() {
    assert_eq!(sci_string(0), "0.000000e0");
    assert_eq!(sci_string(1), "1.000000e-9");
    assert_eq!(sci_string(123400), "1.234000e-4");
    assert_eq!(sci_string(3142), "3.142000e-6");
    assert_eq!(sci_string(1500), "1.500000e-6");
    assert_eq!(sci_string(1000000000), "1.000000e0");
    assert_eq!(sci_string(2500000000), "2.500000e0");
    // rounding half up on the eighth significant digit
    assert_eq!(sci_string(123456789), "1.234568e-1");
    assert_eq!(sci_string(123456749), "1.234567e-1");
    // a carry out of the rounding bumps the exponent
    assert_eq!(sci_string(999999950), "1.000000e0");
    assert_eq!(sci_string(18446744073709551615), "1.844674e10");
}

#[test]
fn header_text() {
    assert_eq!(header_line(), "args,n_exec,total_elapsed_time\n");
}

#[test]
fn row_round_trip() {
    // properties ["2"], elapsed 0.0001234 s
    let row = format_row(&vec!["2".to_string()], 123400);
    assert_eq!(row, "\"(2,)\",1,1.234000e-4\n");
}

#[test]
fn row_with_empty_properties() {
    let row = format_row(&vec![], 3142);
    assert_eq!(row, "\"()\",1,3.142000e-6\n");
}

#[test]
fn row_with_several_properties() {
    let row = format_row(&vec!["3".to_string(), "15".to_string()], 0);
    assert_eq!(row, "\"(3,15,)\",1,0.000000e0\n");
}

#[test]
fn line_counting() {
    assert_eq!(count_lines(""), 0);
    assert_eq!(count_lines("a"), 1);
    assert_eq!(count_lines("a\n"), 1);
    assert_eq!(count_lines("a\nb"), 2);
    assert_eq!(count_lines("\n"), 1);
    assert_eq!(count_lines("\n\n"), 2);
    assert_eq!(count_lines("args,n_exec,total_elapsed_time\n\"()\",1,0.000000e0\n"), 2);
}

#[test]
fn recovered_count_discounts_the_header() {
    assert_eq!(recovered_entry_count("args,n_exec,total_elapsed_time\n"), 0);
    assert_eq!(
        recovered_entry_count("args,n_exec,total_elapsed_time\n\"(2,)\",1,1.234000e-4\n"),
        1
    );
}

#[test]
fn log_file_names() {
    assert_eq!(csv_file_name("I32Add"), "I32Add.csv");
    assert_eq!(csv_file_name("Br"), "Br.csv");
}
