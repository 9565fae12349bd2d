use transform_lattice::extract::extract;
use transform_lattice::record::Point;
use transform_lattice::reduce::{BitsPoint, Query, Reducer};
use transform_lattice::ReduceError;

// The arithmetic the reduction asks for, performed on doubles exactly as
// the caller that owns the floating point does it.
fn square_norm(a: (f64, f64, f64), b: (f64, f64, f64)) -> f64 {
    (a.0 - b.0).powi(2) + (a.1 - b.1).powi(2) + (a.2 - b.2).powi(2)
}

fn unpack(p: BitsPoint) -> (f64, f64, f64) {
    (f64::from_bits(p.x), f64::from_bits(p.y), f64::from_bits(p.z))
}

fn pack(p: (f64, f64, f64)) -> BitsPoint {
    BitsPoint { x: p.0.to_bits(), y: p.1.to_bits(), z: p.2.to_bits() }
}

fn reduce_points(
    pts: &[(f64, f64, f64)],
) -> Result<(Vec<f64>, Vec<(f64, f64, f64)>, usize), ReduceError> {
    let bits: Vec<BitsPoint> = pts.iter().map(|p| pack(*p)).collect();
    let mut r = Reducer::new(bits)?;
    let mut seen_count = 0usize;
    loop {
        match r.next_query() {
            Query::StepNorm { prev, cur, total } => {
                let d = square_norm(unpack(prev), unpack(cur));
                let t = f64::from_bits(total) + d;
                r.answer_step(d.to_bits(), t.to_bits());
            }
            Query::MeanOfTotal { total, count } => {
                seen_count = count;
                let m = f64::from_bits(total) / count as f64;
                r.answer_mean(m.to_bits());
            }
            Query::RootOfMean { mean } => {
                r.answer_root(f64::from_bits(mean).sqrt().to_bits());
            }
            Query::Scale { p, length } => {
                let l = f64::from_bits(length);
                let c = unpack(p);
                r.answer_scale(pack((c.0 / l, c.1 / l, c.2 / l)));
            }
            Query::Done => break,
        }
    }
    let (d, n) = r.outputs();
    Ok((
        d.into_iter().map(f64::from_bits).collect(),
        n.into_iter().map(unpack).collect(),
        seen_count,
    ))
}

#[test]
fn empty_sequence_is_refused() {
    assert_eq!(reduce_points(&[]).unwrap_err(), ReduceError::EmptySequence);
}

#[test]
fn single_residue_degenerates_without_error() {
    let (d, n, _) = reduce_points(&[(0.0, 0.0, 0.0)]).unwrap();
    assert_eq!(d, Vec::<f64>::new());
    assert_eq!(n.len(), 1);
    // the average step length is zero, so the coordinates divide to NaN
    assert!(n[0].0.is_nan() && n[0].1.is_nan() && n[0].2.is_nan());
}

#[test]
fn two_residues_scenario() {
    let (d, n, _) = reduce_points(&[(0.0, 0.0, 0.0), (3.0, 4.0, 0.0)]).unwrap();
    assert_eq!(d, vec![25.0]);
    let avg = (25.0f64 / 2.0).sqrt();
    assert!((avg - 3.5355).abs() < 1e-3);
    assert_eq!(n.len(), 2);
    assert_eq!(n[0], (0.0, 0.0, 0.0));
    assert!((n[1].0 - 0.8485).abs() < 1e-3);
    assert!((n[1].1 - 1.1314).abs() < 1e-3);
    assert_eq!(n[1].2, 0.0);
}

#[test]
fn mean_divides_by_the_full_residue_count() {
    // three residues, two unit steps: the mean must be 2/3, over the
    // residue count, not 2/2 over the step count
    let pts = [(0.0, 0.0, 0.0), (1.0, 0.0, 0.0), (1.0, 1.0, 0.0)];
    let (d, n, count) = reduce_points(&pts).unwrap();
    assert_eq!(d, vec![1.0, 1.0]);
    assert_eq!(count, 3);
    let avg = (2.0f64 / 3.0).sqrt();
    assert_eq!(n[1].0.to_bits(), (1.0f64 / avg).to_bits());
}

#[test]
fn output_lengths_follow_the_residue_count() {
    let pts = [(0.0, 0.0, 0.0), (1.0, 2.0, 2.0), (4.0, 5.0, 6.0), (7.0, 8.0, 9.0)];
    let (d, n, _) = reduce_points(&pts).unwrap();
    assert_eq!(d.len(), pts.len() - 1);
    assert_eq!(n.len(), pts.len());
}

#[test]
fn square_distance_symmetric_and_zero_on_self() {
    let a = (1.5, -2.25, 3.0);
    let b = (-4.0, 0.5, 9.75);
    let (d_ab, _, _) = reduce_points(&[a, b]).unwrap();
    let (d_ba, _, _) = reduce_points(&[b, a]).unwrap();
    assert_eq!(d_ab[0].to_bits(), d_ba[0].to_bits());
    let (d_aa, _, _) = reduce_points(&[a, a]).unwrap();
    assert_eq!(d_aa[0], 0.0);
}

#[test]
fn answers_outside_their_step_leave_the_state_alone() {
    let mut r = Reducer::new(vec![BitsPoint { x: 0, y: 0, z: 0 }]).unwrap();
    // one residue: the first query is the mean, so a step answer is ignored
    assert!(matches!(r.next_query(), Query::MeanOfTotal { count: 1, .. }));
    r.answer_step(7, 7);
    assert!(matches!(r.next_query(), Query::MeanOfTotal { count: 1, .. }));
    r.answer_scale(BitsPoint { x: 9, y: 9, z: 9 });
    let (d, n) = r.outputs();
    assert_eq!(d, Vec::<u64>::new());
    assert_eq!(n, Vec::<BitsPoint>::new());
}

#[test]
fn pipeline_is_idempotent_on_the_same_document() {
    let doc = "<root><PDBx:atom_record>a b c d e f g h i j k CA m 0.0 0.0 0.0</PDBx:atom_record>\
               <PDBx:atom_record>a b c d e f g h i j k CA m 3.0 4.0 0.0</PDBx:atom_record></root>";
    let run = |text: &str| {
        let pts: Vec<(f64, f64, f64)> = extract(text)
            .unwrap()
            .into_iter()
            .map(|p: Point| {
                (p.x.parse().unwrap(), p.y.parse().unwrap(), p.z.parse().unwrap())
            })
            .collect();
        let (d, n, _) = reduce_points(&pts).unwrap();
        let db: Vec<u64> = d.into_iter().map(f64::to_bits).collect();
        let nb: Vec<(u64, u64, u64)> = n
            .into_iter()
            .map(|c| (c.0.to_bits(), c.1.to_bits(), c.2.to_bits()))
            .collect();
        (db, nb)
    };
    assert_eq!(run(doc), run(doc));
}
