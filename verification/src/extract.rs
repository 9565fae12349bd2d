use vstd::prelude::*;

use crate::record::process_row;
use crate::record::row_outcome;
use crate::record::Point;
use crate::record::PointModel;
use crate::xml::doc_events;
use crate::xml::next_raw_event;
use crate::xml::reader_events;
use crate::xml::reader_from_str;
use crate::xml::unescape_text;
use crate::xml::unescaped_text;
use crate::xml::EvModel;
use crate::xml::RawEvent;
use crate::ExtractError;

verus! {

/// The qualified tag name that marks an atom record: `PDBx:atom_record`.
pub open spec fn is_atom_tag(name: Seq<u8>) -> bool {
    name.len() == 16 && name[0] == 80 && name[1] == 68 && name[2] == 66 && name[3] == 120
        && name[4] == 58 && name[5] == 97 && name[6] == 116 && name[7] == 111 && name[8]
        == 109 && name[9] == 95 && name[10] == 114 && name[11] == 101 && name[12] == 99
        && name[13] == 111 && name[14] == 114 && name[15] == 100
}

/// The raw texts of the record rows still to be consumed: each text event
/// met while the scan is inside an atom record, in stream order, up to the
/// first tokenizer fault or end of stream. `inside` is the scan's flag.
pub open spec fn rows_to_come(evs: Seq<EvModel>, inside: bool) -> Seq<Seq<char>>
    decreases evs.len(),
{
    if evs.len() == 0 {
        Seq::empty()
    } else {
        match evs[0] {
            EvModel::Open(name) => rows_to_come(evs.drop_first(), inside || is_atom_tag(name)),
            EvModel::Text(t) => if inside {
                seq![t] + rows_to_come(evs.drop_first(), false)
            } else {
                rows_to_come(evs.drop_first(), inside)
            },
            EvModel::Eof => Seq::empty(),
            EvModel::Fault => Seq::empty(),
            EvModel::Other => rows_to_come(evs.drop_first(), inside),
        }
    }
}

/// Whether the stream ends in a tokenizer fault rather than a clean end.
pub open spec fn fault_to_come(evs: Seq<EvModel>) -> bool
    decreases evs.len(),
{
    if evs.len() == 0 {
        false
    } else {
        match evs[0] {
            EvModel::Fault => true,
            EvModel::Eof => false,
            _ => fault_to_come(evs.drop_first()),
        }
    }
}

/// What one raw record row yields: a malformed-document error where its
/// escapes cannot be expanded, else what the decoded row yields.
pub open spec fn raw_row_outcome(raw: Seq<char>) -> Result<Option<PointModel>, ExtractError> {
    match unescaped_text(raw) {
        None => Err(ExtractError::MalformedDocument),
        Some(u) => row_outcome(u),
    }
}

/// What a sequence of raw record rows yields: the first row error, or the
/// points of the qualifying rows in row order.
pub open spec fn rows_outcome(rows: Seq<Seq<char>>) -> Result<Seq<PointModel>, ExtractError>
    decreases rows.len(),
{
    if rows.len() == 0 {
        Ok(Seq::empty())
    } else {
        match raw_row_outcome(rows[0]) {
            Err(e) => Err(e),
            Ok(opt) => match rows_outcome(rows.drop_first()) {
                Err(e) => Err(e),
                Ok(rest) => Ok(
                    match opt {
                        None => rest,
                        Some(p) => seq![p] + rest,
                    },
                ),
            },
        }
    }
}

/// What extracting a document yields: the first record-row error, else a
/// malformed-document error where the tokenizer faulted, else the points of
/// the qualifying records in document order.
pub open spec fn extraction_outcome(doc: Seq<char>) -> Result<Seq<PointModel>, ExtractError> {
    let evs = doc_events(doc);
    match rows_outcome(rows_to_come(evs, false)) {
        Err(e) => Err(e),
        Ok(pts) => if fault_to_come(evs) {
            Err(ExtractError::MalformedDocument)
        } else {
            Ok(pts)
        },
    }
}

/// The views of a vector of points.
pub open spec fn points_model(v: Seq<Point>) -> Seq<PointModel> {
    v.map_values(|p: Point| p@)
}

/// An executable extraction result, seen abstractly.
pub open spec fn extraction_result_model(r: Result<Vec<Point>, ExtractError>) -> Result<
    Seq<PointModel>,
    ExtractError,
> {
    match r {
        Ok(v) => Ok(points_model(v@)),
        Err(e) => Err(e),
    }
}

/// A row error in the first part decides the outcome of the whole; rows
/// behind an error-free part append their points.
proof fn lemma_rows_outcome_concat(a: Seq<Seq<char>>, b: Seq<Seq<char>>)
    ensures
        rows_outcome(a + b) == (match rows_outcome(a) {
            Err(e) => Err::<Seq<PointModel>, ExtractError>(e),
            Ok(pa) => match rows_outcome(b) {
                Err(e) => Err(e),
                Ok(pb) => Ok(pa + pb),
            },
        }),
    decreases a.len(),
{
    if a.len() == 0 {
        assert(a + b =~= b);
        match rows_outcome(b) {
            Err(e) => {},
            Ok(pb) => {
                assert(Seq::<PointModel>::empty() + pb =~= pb);
            },
        }
    } else {
        assert((a + b).len() > 0);
        assert((a + b)[0] == a[0]);
        assert((a + b).drop_first() =~= a.drop_first() + b);
        lemma_rows_outcome_concat(a.drop_first(), b);
        match raw_row_outcome(a[0]) {
            Err(e) => {},
            Ok(opt) => {
                match rows_outcome(a.drop_first()) {
                    Err(e) => {},
                    Ok(rest) => {
                        match rows_outcome(b) {
                            Err(e) => {},
                            Ok(pb) => {
                                match opt {
                                    None => {},
                                    Some(p) => {
                                        assert(seq![p] + (rest + pb) =~= (seq![p] + rest) + pb);
                                    },
                                }
                            },
                        }
                    },
                }
            },
        }
    }
}

/// The record rows that contribute a point: those whose decoded row names
/// the representative atom and parses, kept in row order.
pub open spec fn qualifying_rows(rows: Seq<Seq<char>>) -> Seq<Seq<char>>
    decreases rows.len(),
{
    if rows.len() == 0 {
        Seq::empty()
    } else {
        let rest = qualifying_rows(rows.drop_first());
        if raw_row_outcome(rows[0]) matches Ok(Some(_)) {
            seq![rows[0]] + rest
        } else {
            rest
        }
    }
}

/// The point a qualifying record row carries.
pub open spec fn row_point(raw: Seq<char>) -> PointModel {
    match raw_row_outcome(raw) {
        Ok(Some(p)) => p,
        _ => PointModel { x: Seq::empty(), y: Seq::empty(), z: Seq::empty() },
    }
}

/// Law: a successful row sequence yields one point per qualifying row, the
/// i-th point from the i-th qualifying row.
pub proof fn lemma_rows_order_preserving(rows: Seq<Seq<char>>, pts: Seq<PointModel>)
    requires
        rows_outcome(rows) == Ok::<Seq<PointModel>, ExtractError>(pts),
    ensures
        pts.len() == qualifying_rows(rows).len(),
        forall|i: int| 0 <= i < pts.len() ==> pts[i] == row_point(qualifying_rows(rows)[i]),
    decreases rows.len(),
{
    if rows.len() == 0 {
        assert(pts =~= Seq::<PointModel>::empty());
    } else {
        match raw_row_outcome(rows[0]) {
            Err(e) => {},
            Ok(opt) => {
                match rows_outcome(rows.drop_first()) {
                    Err(e) => {},
                    Ok(rest) => {
                        lemma_rows_order_preserving(rows.drop_first(), rest);
                        let q_rest = qualifying_rows(rows.drop_first());
                        match opt {
                            None => {
                                assert(pts == rest);
                            },
                            Some(p) => {
                                assert(pts == seq![p] + rest);
                                let q = qualifying_rows(rows);
                                assert(q == seq![rows[0]] + q_rest);
                                assert(q[0] == rows[0]);
                                assert(pts[0] == p);
                                assert(row_point(rows[0]) == p);
                                assert forall|i: int| 0 <= i < pts.len() implies pts[i]
                                    == row_point(qualifying_rows(rows)[i]) by {
                                    if i > 0 {
                                        assert(pts[i] == rest[i - 1]);
                                        assert(q[i] == q_rest[i - 1]);
                                    }
                                }
                            },
                        }
                    },
                }
            },
        }
    }
}

/// Law: extraction is order-preserving: when it succeeds, its i-th point
/// comes from the i-th qualifying atom record of the document, in document
/// order.
pub proof fn lemma_extraction_order_preserving(doc: Seq<char>, pts: Seq<PointModel>)
    requires
        extraction_outcome(doc) == Ok::<Seq<PointModel>, ExtractError>(pts),
    ensures
        pts.len() == qualifying_rows(rows_to_come(doc_events(doc), false)).len(),
        forall|i: int|
            0 <= i < pts.len() ==> pts[i] == row_point(
                qualifying_rows(rows_to_come(doc_events(doc), false))[i],
            ),
{
    lemma_rows_order_preserving(rows_to_come(doc_events(doc), false), pts);
}

/// Law: extraction is a function of the document text alone: any two
/// results the extractor's contract admits for the same text agree.
pub proof fn lemma_extraction_deterministic(
    doc: Seq<char>,
    r1: Result<Vec<Point>, ExtractError>,
    r2: Result<Vec<Point>, ExtractError>,
)
    requires
        extraction_result_model(r1) == extraction_outcome(doc),
        extraction_result_model(r2) == extraction_outcome(doc),
    ensures
        extraction_result_model(r1) == extraction_result_model(r2),
{
}

fn is_atom_record_tag(name: &Vec<u8>) -> (b: bool)
    ensures
        b == is_atom_tag(name@),
{
    name.len() == 16 && name[0] == 80 && name[1] == 68 && name[2] == 66 && name[3] == 120
        && name[4] == 58 && name[5] == 97 && name[6] == 116 && name[7] == 111 && name[8]
        == 109 && name[9] == 95 && name[10] == 114 && name[11] == 101 && name[12] == 99
        && name[13] == 111 && name[14] == 114 && name[15] == 100
}

/// Stream the document once, collect the point of every qualifying atom
/// record in document order, and abort on the first malformed row or
/// tokenizer fault.
pub fn extract(doc: &str) -> (r: Result<Vec<Point>, ExtractError>)
    ensures
        extraction_result_model(r) == extraction_outcome(doc@),
{
    let mut reader = reader_from_str(doc);
    let mut inside: bool = false;
    let mut points: Vec<Point> = Vec::new();
    let ghost full: Seq<EvModel> = doc_events(doc@);
    let ghost mut done_rows: Seq<Seq<char>> = Seq::empty();
    proof {
        assert(points_model(points@) =~= Seq::<PointModel>::empty());
    }
    loop
        invariant
            rows_to_come(full, false) == done_rows + rows_to_come(reader_events(reader), inside),
            fault_to_come(full) == fault_to_come(reader_events(reader)),
            rows_outcome(done_rows) == Ok::<Seq<PointModel>, ExtractError>(points_model(points@)),
            full == doc_events(doc@),
        decreases reader_events(reader).len(),
    {
        let ghost pre = reader_events(reader);
        let ev = next_raw_event(&mut reader);
        match ev {
            RawEvent::Open(name) => {
                let tag = is_atom_record_tag(&name);
                proof {
                    assert(rows_to_come(pre, inside) == rows_to_come(
                        reader_events(reader),
                        inside || is_atom_tag(name@),
                    ));
                }
                if tag {
                    inside = true;
                }
            },
            RawEvent::Text(t) => {
                if inside {
                    let ghost rest = rows_to_come(reader_events(reader), false);
                    proof {
                        assert(rows_to_come(pre, true) == seq![t@] + rest);
                        assert((seq![t@] + rest)[0] == t@);
                        assert((seq![t@] + rest).drop_first() =~= rest);
                    }
                    match unescape_text(t.as_str()) {
                        None => {
                            proof {
                                assert(raw_row_outcome(t@) == Err::<
                                    Option<PointModel>,
                                    ExtractError,
                                >(ExtractError::MalformedDocument));
                                lemma_rows_outcome_concat(done_rows, seq![t@] + rest);
                            }
                            return Err(ExtractError::MalformedDocument);
                        },
                        Some(u) => {
                            let row = process_row(u.as_str());
                            match row {
                                Err(e) => {
                                    proof {
                                        assert(raw_row_outcome(t@) == Err::<
                                            Option<PointModel>,
                                            ExtractError,
                                        >(e));
                                        lemma_rows_outcome_concat(done_rows, seq![t@] + rest);
                                    }
                                    return Err(e);
                                },
                                Ok(opt) => {
                                    proof {
                                        lemma_rows_outcome_concat(done_rows, seq![t@]);
                                        assert(rows_outcome(seq![t@].drop_first()) == Ok::<
                                            Seq<PointModel>,
                                            ExtractError,
                                        >(Seq::empty()));
                                    }
                                    match opt {
                                        None => {
                                            proof {
                                                assert(rows_outcome(seq![t@]) == Ok::<
                                                    Seq<PointModel>,
                                                    ExtractError,
                                                >(Seq::empty()));
                                                assert(points_model(points@) + Seq::empty()
                                                    =~= points_model(points@));
                                            }
                                        },
                                        Some(p) => {
                                            proof {
                                                assert(rows_outcome(seq![t@]) == Ok::<
                                                    Seq<PointModel>,
                                                    ExtractError,
                                                >(seq![p@] + Seq::empty()));
                                                assert(points_model(points@) + (seq![p@]
                                                    + Seq::empty()) =~= points_model(
                                                    points@,
                                                ).push(p@));
                                                assert(points_model(points@.push(p))
                                                    =~= points_model(points@).push(p@));
                                            }
                                            points.push(p);
                                        },
                                    }
                                    proof {
                                        assert((done_rows + seq![t@]) + rest =~= done_rows + (
                                        seq![t@] + rest));
                                        done_rows = done_rows + seq![t@];
                                    }
                                    inside = false;
                                },
                            }
                        },
                    }
                }
            },
            RawEvent::Eof => {
                proof {
                    assert(rows_to_come(pre, inside) =~= Seq::<Seq<char>>::empty());
                    assert(done_rows + Seq::<Seq<char>>::empty() =~= done_rows);
                    assert(!fault_to_come(pre));
                }
                return Ok(points);
            },
            RawEvent::Fault => {
                proof {
                    assert(pre.len() > 0 && pre[0] is Fault);
                    assert(rows_to_come(pre, inside) =~= Seq::<Seq<char>>::empty());
                    assert(done_rows + Seq::<Seq<char>>::empty() =~= done_rows);
                    assert(fault_to_come(full));
                }
                return Err(ExtractError::MalformedDocument);
            },
            RawEvent::Other => {
                proof {
                    assert(rows_to_come(pre, inside) == rows_to_come(
                        reader_events(reader),
                        inside,
                    ));
                }
            },
        }
    }
}

} // verus!
