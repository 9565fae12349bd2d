use transform_lattice::numeric::is_decimal_str;
use transform_lattice::text::split_fields;

#[test]
fn accepts_what_double_parsing_accepts() {
    let good = [
        "0", "1", "42", "-3.5", "+7", ".5", "1.", "0.25", "1e5", "1E5", "2.5e-3", "2.5E+3",
        "-.5e2", "inf", "-inf", "Infinity", "NAN", "nan", "+inf", "3e0",
    ];
    for s in good {
        assert!(is_decimal_str(s), "rejected {:?}", s);
        assert!(s.parse::<f64>().is_ok(), "std rejected {:?}", s);
    }
}

#[test]
fn rejects_what_double_parsing_rejects() {
    let bad = [
        "", ".", "+", "-", "e5", "1e", "1e+", "1.2.3", "--1", "1 ", " 1", "0x10", "nan7",
        "in", "infin", "1,5", "1.0f", "_1", "1_000",
    ];
    for s in bad {
        assert!(!is_decimal_str(s), "accepted {:?}", s);
        assert!(s.parse::<f64>().is_err(), "std accepted {:?}", s);
    }
}

#[test]
fn splits_on_runs_of_whitespace() {
    assert_eq!(split_fields("a  b\tc"), vec!["a", "b", "c"]);
    assert_eq!(split_fields("  lead and trail  "), vec!["lead", "and", "trail"]);
    assert_eq!(split_fields(""), Vec::<String>::new());
    assert_eq!(split_fields(" \t \n "), Vec::<String>::new());
    assert_eq!(split_fields("one"), vec!["one"]);
}
