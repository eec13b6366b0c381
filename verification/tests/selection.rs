// Making a selection of the colours of an image.

use cosmic_theme_editor::model::selection::NEEDED;
use cosmic_theme_editor::model::{Candidate, Selection, SelectionError};
use cosmic_theme_editor::scalar::Scalar;
use cosmic_theme_editor::util::SRGBA;

fn s(x: f32) -> Scalar {
    Scalar::from_bits(x.to_bits())
}

fn gray(x: f32) -> SRGBA {
    SRGBA::new(s(x), s(x), s(x), s(1.0))
}

/// Candidates with the given hue distances; the n-th has the gray n/10.
fn candidates(distances: &[f32]) -> Vec<Candidate> {
    distances
        .iter()
        .enumerate()
        .map(|(i, d)| Candidate { color: gray(i as f32 / 10.0), hue_distance: s(*d) })
        .collect()
}

/// The selection that takes the candidate at `red` for destructive.
fn taking(red: usize, len: usize) -> Selection {
    let rest: Vec<SRGBA> =
        (0..len).filter(|i| *i != red).map(|i| gray(i as f32 / 10.0)).collect();
    Selection {
        background: rest[0],
        primary_container: rest[1],
        secondary_container: rest[3],
        accent: rest[2],
        accent_text: Some(rest[2]),
        accent_nav_handle_text: Some(rest[2]),
        destructive: gray(red as f32 / 10.0),
    }
}

fn same(a: Selection, b: Selection) -> bool {
    a.background == b.background
        && a.primary_container == b.primary_container
        && a.secondary_container == b.secondary_container
        && a.accent == b.accent
        && a.accent_text == b.accent_text
        && a.accent_nav_handle_text == b.accent_nav_handle_text
        && a.destructive == b.destructive
}

#[test]
fn five_candidates_are_needed() {
    assert_eq!(NEEDED, 5);
    for len in 0..5 {
        let few = candidates(&[10.0, 20.0, 30.0, 40.0][..len]);
        assert_eq!(Selection::try_from(few).err(), Some(SelectionError::TooFew));
    }
    assert!(Selection::try_from(candidates(&[10.0, 20.0, 30.0, 40.0, 50.0])).is_ok());
}

#[test]
fn the_second_candidate_is_red_when_none_is_nearer() {
    let chosen = Selection::try_from(candidates(&[5.0, 10.0, 20.0, 30.0, 40.0])).unwrap();
    assert!(same(chosen, taking(1, 5)));
    assert_eq!(chosen.background, gray(0.0));
    assert_eq!(chosen.primary_container, gray(0.2));
    assert_eq!(chosen.accent, gray(0.3));
    assert_eq!(chosen.secondary_container, gray(0.4));
    assert_eq!(chosen.destructive, gray(0.1));
}

#[test]
fn a_nearer_candidate_moves_the_choice_to_the_one_before_it() {
    // the third is nearer than the second: the scan holds the second still
    let chosen = Selection::try_from(candidates(&[50.0, 40.0, 30.0, 60.0, 70.0])).unwrap();
    assert!(same(chosen, taking(1, 5)));
    // so is the fourth: the scan holds the third
    let chosen = Selection::try_from(candidates(&[50.0, 40.0, 30.0, 20.0, 70.0])).unwrap();
    assert!(same(chosen, taking(2, 5)));
    // the fifth is compared with the third, not with the fourth
    let chosen = Selection::try_from(candidates(&[90.0, 80.0, 70.0, 3.0, 60.0])).unwrap();
    assert!(same(chosen, taking(3, 5)));
    let chosen = Selection::try_from(candidates(&[90.0, 80.0, 70.0, 75.0, 78.0])).unwrap();
    assert!(same(chosen, taking(2, 5)));
    let chosen = Selection::try_from(candidates(&[90.0, 80.0, 70.0, 60.0, 3.0])).unwrap();
    assert!(same(chosen, taking(3, 5)));
}

#[test]
fn the_first_candidate_is_always_the_background() {
    for distances in [
        [1.0f32, 60.0, 50.0, 70.0, 80.0],
        [50.0, 60.0, 10.0, 70.0, 80.0],
        [50.0, 40.0, 45.0, 60.0, 70.0],
        [0.0, 0.0, 0.0, 0.0, 0.0],
    ] {
        let chosen = Selection::try_from(candidates(&distances)).unwrap();
        assert!(same(chosen, taking(1, 5)));
        assert_eq!(chosen.background, gray(0.0));
    }
}

#[test]
fn more_than_five_candidates_are_scanned_to_the_end() {
    let chosen =
        Selection::try_from(candidates(&[50.0, 40.0, 41.0, 42.0, 43.0, 44.0, 1.0])).unwrap();
    assert!(same(chosen, taking(5, 7)));
    assert_eq!(chosen.background, gray(0.0));
    assert_eq!(chosen.secondary_container, gray(0.3));
}

#[test]
fn a_distance_that_is_not_a_number_is_never_nearer() {
    let chosen =
        Selection::try_from(candidates(&[50.0, 40.0, f32::NAN, f32::NAN, 39.0])).unwrap();
    assert!(same(chosen, taking(3, 5)));
}
