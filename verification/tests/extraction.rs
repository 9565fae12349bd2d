use transform_lattice::extract::extract;
use transform_lattice::record::Point;
use transform_lattice::ExtractError;

fn record(row: &str) -> String {
    format!("<PDBx:datablock><PDBx:atom_record>{}</PDBx:atom_record></PDBx:datablock>", row)
}

fn pt(x: &str, y: &str, z: &str) -> Point {
    Point { x: x.to_string(), y: y.to_string(), z: z.to_string() }
}

#[test]
fn single_ca_record() {
    let row = "ATOM 1 C . LEU A 1 1 ? A 1shg CA m 0.0 0.0 0.0";
    let doc = record(row);
    let mut cols = 0;
    for _ in row.split_whitespace() {
        cols += 1;
    }
    assert_eq!(cols, 16);
    // the discriminator is the twelfth column, the coordinates the last three
    let got = extract(&doc).unwrap();
    assert_eq!(got, vec![pt("0.0", "0.0", "0.0")]);
}

#[test]
fn order_preserved_over_records() {
    let doc = format!(
        "<root><PDBx:atom_record>a b c d e f g h i j k CA m 1.0 2.0 3.0</PDBx:atom_record>\
         <other>noise</other>\
         <PDBx:atom_record>a b c d e f g h i j k CA m 4.0 5.0 6.0</PDBx:atom_record></root>"
    );
    let got = extract(&doc).unwrap();
    assert_eq!(got, vec![pt("1.0", "2.0", "3.0"), pt("4.0", "5.0", "6.0")]);
}

#[test]
fn non_ca_record_contributes_nothing() {
    let doc = record("a b c d e f g h i j k N m 1.0 2.0 3.0");
    let got = extract(&doc).unwrap();
    assert_eq!(got, Vec::<Point>::new());
}

#[test]
fn short_row_is_missing_field() {
    let doc = record("one two three four five six seven eight nine ten");
    assert_eq!(extract(&doc), Err(ExtractError::MissingField));
}

#[test]
fn short_row_aborts_even_after_good_record() {
    let doc = format!(
        "<root><PDBx:atom_record>a b c d e f g h i j k CA m 1.0 2.0 3.0</PDBx:atom_record>\
         <PDBx:atom_record>too short</PDBx:atom_record></root>"
    );
    assert_eq!(extract(&doc), Err(ExtractError::MissingField));
}

#[test]
fn bad_coordinate_is_invalid_number() {
    let doc = record("a b c d e f g h i j k CA m 1.0 oops 3.0");
    assert_eq!(extract(&doc), Err(ExtractError::InvalidNumber));
}

#[test]
fn mismatched_tags_are_malformed() {
    let doc = "<a><b>text</a></b>";
    assert_eq!(extract(doc), Err(ExtractError::MalformedDocument));
}

#[test]
fn empty_document_yields_no_points() {
    let got = extract("<PDBx:datablock></PDBx:datablock>").unwrap();
    assert_eq!(got, Vec::<Point>::new());
}

#[test]
fn escaped_text_is_unescaped_before_splitting() {
    // &#46; is the full stop: a coordinate written with it only parses
    // because the payload is unescaped before the columns are read
    let doc = record("a b c d e f g h i j k CA m 1&#46;5 2.0 3.0");
    let got = extract(&doc).unwrap();
    assert_eq!(got, vec![pt("1.5", "2.0", "3.0")]);
}

#[test]
fn text_outside_records_is_ignored() {
    let doc = "<root><other>not a record row at all</other></root>";
    assert_eq!(extract(doc).unwrap(), Vec::<Point>::new());
}

#[test]
fn extraction_is_idempotent_on_the_same_text() {
    let doc = record("a b c d e f g h i j k CA m 1.25 -2.5 3e2");
    let first = extract(&doc);
    let second = extract(&doc);
    assert_eq!(first, second);
}
