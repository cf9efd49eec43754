use remini::error::{Error, LoadIssue};
use remini::predict::{argmax, check_output_shape, interpret, read_outputs, score_gt, OutputKind, Prediction};

fn bits(v: &[f32]) -> Vec<u32> {
    v.iter().map(|x| x.to_bits()).collect()
}

#[test]
fn argmax_picks_highest_score() {
    let (i, c) = argmax(&bits(&[0.2, 0.9])).unwrap();
    assert_eq!(i, 1);
    assert_eq!(f32::from_bits(c), 0.9);
}

#[test]
fn argmax_tie_keeps_first() {
    let (i, c) = argmax(&bits(&[0.5, 0.5])).unwrap();
    assert_eq!(i, 0);
    assert_eq!(f32::from_bits(c), 0.5);
}

#[test]
fn argmax_nan_never_displaces() {
    let (i, _) = argmax(&bits(&[f32::NAN, f32::NAN, f32::NAN])).unwrap();
    assert_eq!(i, 0);
    let (i, _) = argmax(&bits(&[0.3, f32::NAN, 0.1])).unwrap();
    assert_eq!(i, 0);
    let (i, _) = argmax(&bits(&[0.3, f32::NAN, 0.7])).unwrap();
    assert_eq!(i, 2);
}

#[test]
fn argmax_handles_negative_scores() {
    let (i, _) = argmax(&bits(&[-3.0, -1.5, -2.0, -0.0])).unwrap();
    assert_eq!(i, 3);
    let (i, _) = argmax(&bits(&[-1.0, f32::NEG_INFINITY, -0.5])).unwrap();
    assert_eq!(i, 2);
}

#[test]
fn argmax_of_nothing_is_empty() {
    assert!(matches!(argmax(&Vec::new()), Err(Error::Empty)));
}

#[test]
fn score_comparison_follows_floats() {
    assert!(score_gt(1.0f32.to_bits(), (-1.0f32).to_bits()));
    assert!(!score_gt(0.0f32.to_bits(), (-0.0f32).to_bits()));
    assert!(!score_gt((-0.0f32).to_bits(), 0.0f32.to_bits()));
    assert!(score_gt(f32::INFINITY.to_bits(), f32::MAX.to_bits()));
    assert!(!score_gt(f32::NAN.to_bits(), 1.0f32.to_bits()));
    assert!(!score_gt(1.0f32.to_bits(), f32::NAN.to_bits()));
    assert!(score_gt((-1.0f32).to_bits(), (-2.0f32).to_bits()));
}

#[test]
fn multi_label_returns_row_unchanged() {
    let row = bits(&[0.1, 0.2, 0.9, 0.0, 0.0, 0.0, 0.05]);
    match interpret(OutputKind::RawVector(7), row.clone()).unwrap() {
        Prediction::Scores(v) => assert_eq!(v, row),
        other => panic!("unexpected {:?}", other),
    }
}

#[test]
fn single_label_interpretation() {
    match interpret(OutputKind::Argmax { classes: 2 }, bits(&[0.2, 0.9])).unwrap() {
        Prediction::Label { index, confidence } => {
            assert_eq!(index, 1);
            assert_eq!(f32::from_bits(confidence), 0.9);
        }
        other => panic!("unexpected {:?}", other),
    }
}

#[test]
fn raw_row_of_wrong_width_is_refused() {
    assert!(matches!(interpret(OutputKind::RawVector(7), bits(&[0.1, 0.2])), Err(Error::Layout)));
    assert!(matches!(interpret(OutputKind::RawVector(7), Vec::new()), Err(Error::Empty)));
    assert!(matches!(interpret(OutputKind::Argmax { classes: 2 }, Vec::new()), Err(Error::Empty)));
}

#[test]
fn first_output_is_read() {
    let outputs = vec![bits(&[0.1, 0.8]), bits(&[0.9, 0.0])];
    match read_outputs(OutputKind::Argmax { classes: 2 }, outputs).unwrap() {
        Prediction::Label { index, .. } => assert_eq!(index, 1),
        other => panic!("unexpected {:?}", other),
    }
    assert!(matches!(read_outputs(OutputKind::RawVector(7), Vec::new()), Err(Error::Empty)));
}

#[test]
fn output_width_is_checked_at_load() {
    assert!(check_output_shape(&vec![1, 7], OutputKind::RawVector(7)).is_ok());
    assert!(check_output_shape(&vec![1, 2], OutputKind::Argmax { classes: 2 }).is_ok());
    assert!(matches!(
        check_output_shape(&vec![1, 1], OutputKind::Argmax { classes: 2 }),
        Err(Error::Load(LoadIssue::OutputShape))
    ));
    assert!(matches!(
        check_output_shape(&vec![1, 6], OutputKind::RawVector(7)),
        Err(Error::Load(LoadIssue::OutputShape))
    ));
    assert!(check_output_shape(&vec![7], OutputKind::RawVector(7)).is_err());
}

#[test]
fn interleaved_predictions_stay_independent() {
    let rows: Vec<Vec<u32>> = (0..16usize)
        .map(|k| (0..8usize).map(|j| if j == k % 8 { 0.9f32 } else { 0.1f32 }.to_bits()).collect())
        .collect();
    let kind = OutputKind::Argmax { classes: 8 };
    let first: Vec<usize> = rows.iter().map(|r| argmax(r).unwrap().0).collect();
    let again: Vec<usize> = rows.iter().rev().map(|r| match interpret(kind, r.clone()).unwrap() {
        Prediction::Label { index, .. } => index,
        other => panic!("unexpected {:?}", other),
    }).collect();
    for k in 0..16 {
        assert_eq!(first[k], k % 8);
        assert_eq!(again[15 - k], k % 8);
    }
}

#[test]
fn single_label_row_of_wrong_width_is_refused() {
    assert!(matches!(interpret(OutputKind::Argmax { classes: 2 }, bits(&[0.1, 0.2, 0.7])), Err(Error::Layout)));
    assert!(matches!(interpret(OutputKind::Argmax { classes: 2 }, bits(&[0.9])), Err(Error::Layout)));
}
