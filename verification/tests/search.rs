// The bisection, step by step, with replies written by hand.

use cosmic_theme_editor::color_picker::exact::{
    Exact, Lch, Probing, Reply, Search, Settling, FIFTY, HUNDRED, ROUNDS,
};
use cosmic_theme_editor::color_picker::Diagnostic;
use cosmic_theme_editor::scalar::Scalar;
use cosmic_theme_editor::util::SRGBA;

fn s(x: f32) -> Scalar {
    Scalar::from_bits(x.to_bits())
}

fn base() -> SRGBA {
    SRGBA::new(s(0.2), s(0.3), s(0.4), s(0.75))
}

fn lch(l: f32) -> Lch {
    Lch { l: s(l), chroma: s(14.5), hue: s(250.0) }
}

fn probing(search: Search) -> Probing {
    match search {
        Search::Probe(p) => p,
        other => panic!("not probing: {other:?}"),
    }
}

fn settling(search: Search) -> Settling {
    match search {
        Search::Settle(t) => t,
        other => panic!("not settling: {other:?}"),
    }
}

#[test]
fn constants_are_fifty_and_a_hundred() {
    assert_eq!(f32::from_bits(FIFTY), 50.0);
    assert_eq!(f32::from_bits(HUNDRED), 100.0);
    assert_eq!(ROUNDS, 100);
}

#[test]
fn without_a_contrast_a_light_colour_gets_black() {
    for l in [50.000004f32, 75.0, 100.0, f32::INFINITY] {
        for grayscale in [false, true] {
            for lighten in [None, Some(true), Some(false)] {
                let search = Exact().pick_color(base(), lch(l), None, grayscale, lighten);
                assert_eq!(search, Search::Done(Ok(SRGBA::black())));
            }
        }
    }
}

#[test]
fn without_a_contrast_a_dark_colour_gets_white() {
    for l in [50.0f32, 49.999996, 0.0, -0.0, -3.0, f32::NAN] {
        for grayscale in [false, true] {
            for lighten in [None, Some(true), Some(false)] {
                let search = Exact().pick_color(base(), lch(l), None, grayscale, lighten);
                assert_eq!(search, Search::Done(Ok(SRGBA::white())));
            }
        }
    }
}

#[test]
fn black_and_white_are_opaque() {
    assert_eq!(SRGBA::black(), SRGBA::new(s(0.0), s(0.0), s(0.0), s(1.0)));
    assert_eq!(SRGBA::white(), SRGBA::new(s(1.0), s(1.0), s(1.0), s(1.0)));
    assert_eq!(SRGBA::default(), SRGBA::black());
}

#[test]
fn the_interval_follows_the_direction() {
    let free = probing(Exact().pick_color(base(), lch(31.5), Some(s(3.0)), false, None));
    assert_eq!((free.lower, free.upper), (s(0.0), s(100.0)));
    let up = probing(Exact().pick_color(base(), lch(31.5), Some(s(3.0)), false, Some(true)));
    assert_eq!((up.lower, up.upper), (s(31.5), s(100.0)));
    let down = probing(Exact().pick_color(base(), lch(31.5), Some(s(3.0)), false, Some(false)));
    assert_eq!((down.lower, down.upper), (s(0.0), s(31.5)));
}

#[test]
fn a_search_begins_with_the_colour_it_was_given() {
    let p = probing(Exact().pick_color(base(), lch(31.5), Some(s(3.0)), false, None));
    assert_eq!(p.base, base());
    assert_eq!(p.target, s(3.0));
    assert_eq!(p.working, lch(31.5));
    assert_eq!(p.rounds, 0);
}

#[test]
fn grayscale_sets_the_chroma_to_zero_bit_for_bit() {
    let p = probing(Exact().pick_color(base(), lch(31.5), Some(s(3.0)), true, None));
    assert_eq!(p.working.chroma.to_bits(), 0);
    assert_eq!(p.working, Lch { l: s(31.5), chroma: s(0.0), hue: s(250.0) });
    assert_eq!(lch(31.5).gray(), p.working);
}

#[test]
fn grayscale_stays_without_chroma_to_the_end() {
    let mut p = probing(Exact().pick_color(base(), lch(31.5), Some(s(3.0)), true, Some(true)));
    let mut probes = 0;
    let settle = loop {
        assert_eq!(p.working.chroma.to_bits(), 0);
        let mid = (f32::from_bits(p.lower.to_bits()) + f32::from_bits(p.upper.to_bits())) / 2.0;
        probes += 1;
        // a contrast that matches at the seventh midpoint
        let k = if probes == 7 { 3.0 } else { 1.0 + mid / 10.0 };
        match p.probed(s(mid), s(k)) {
            Search::Probe(next) => p = next,
            Search::Settle(t) => break t,
            Search::Done(_) => panic!("done without settling"),
        }
    };
    assert_eq!(probes, 7);
    assert_eq!(settle.lch.chroma.to_bits(), 0);
}

#[test]
fn a_matching_midpoint_becomes_the_candidate() {
    let p = probing(Exact().pick_color(base(), lch(31.5), Some(s(3.0)), false, None));
    let t = settling(p.probed(s(50.0), Scalar::from_bits(s(3.0).to_bits() + 4)));
    assert_eq!(t.lch, Lch { l: s(50.0), chroma: s(14.5), hue: s(250.0) });
    assert_eq!(t.base, base());
    assert_eq!(t.target, s(3.0));
}

#[test]
fn a_midpoint_above_with_too_little_contrast_raises_the_lower_end() {
    let p = probing(Exact().pick_color(base(), lch(31.5), Some(s(3.0)), false, None));
    let q = probing(p.probed(s(50.0), s(1.9)));
    assert_eq!((q.lower, q.upper), (s(50.0), s(100.0)));
    assert_eq!(q.rounds, 1);
    assert_eq!(q.working, p.working);
}

#[test]
fn a_midpoint_above_with_too_much_contrast_lowers_the_upper_end() {
    let p = probing(Exact().pick_color(base(), lch(31.5), Some(s(3.0)), false, None));
    let q = probing(p.probed(s(50.0), s(4.2)));
    assert_eq!((q.lower, q.upper), (s(0.0), s(50.0)));
}

#[test]
fn a_midpoint_below_with_too_little_contrast_lowers_the_upper_end() {
    let p = probing(Exact().pick_color(base(), lch(80.0), Some(s(3.0)), false, None));
    let q = probing(p.probed(s(50.0), s(1.9)));
    assert_eq!((q.lower, q.upper), (s(0.0), s(50.0)));
}

#[test]
fn a_midpoint_below_with_too_much_contrast_raises_the_lower_end() {
    let p = probing(Exact().pick_color(base(), lch(80.0), Some(s(3.0)), false, None));
    let q = probing(p.probed(s(50.0), s(4.2)));
    assert_eq!((q.lower, q.upper), (s(50.0), s(100.0)));
}

#[test]
fn a_midpoint_at_the_working_lightness_counts_as_below() {
    let p = probing(Exact().pick_color(base(), lch(50.0), Some(s(3.0)), false, None));
    let q = probing(p.probed(s(50.0), s(1.0)));
    assert_eq!((q.lower, q.upper), (s(0.0), s(50.0)));
}

#[test]
fn a_contrast_that_is_not_a_number_counts_as_too_much() {
    let p = probing(Exact().pick_color(base(), lch(31.5), Some(s(3.0)), false, None));
    let q = probing(p.probed(s(50.0), s(f32::NAN)));
    assert_eq!((q.lower, q.upper), (s(0.0), s(50.0)));
}

#[test]
fn a_search_probes_a_hundred_midpoints_at_most() {
    let mut p = probing(Exact().pick_color(base(), lch(31.5), Some(s(3.0)), false, Some(true)));
    let mut probes = 0;
    let settle = loop {
        probes += 1;
        assert_eq!(p.rounds, probes - 1);
        match p.probed(s(60.0), s(1.0)) {
            Search::Probe(next) => p = next,
            Search::Settle(t) => break t,
            Search::Done(_) => panic!("done without settling"),
        }
    };
    assert_eq!(probes, 100);
    // out of rounds, the candidate is the working colour, not the last midpoint
    assert_eq!(settle.lch, lch(31.5));
}

#[test]
fn a_state_past_its_rounds_settles_at_once() {
    let p = Probing {
        base: base(),
        target: s(3.0),
        working: lch(31.5),
        lower: s(0.0),
        upper: s(100.0),
        rounds: 255,
    };
    assert_eq!(
        p.probed(s(50.0), s(1.0)),
        Search::Settle(Settling { base: base(), target: s(3.0), lch: lch(31.5) })
    );
}

#[test]
fn settling_returns_the_colour_that_matches() {
    let t = Settling { base: base(), target: s(3.0), lch: lch(62.0) };
    let found = SRGBA::new(s(0.5), s(0.6), s(0.7), s(1.0));
    assert_eq!(t.settled(found, s(3.0)), Ok(found));
    assert_eq!(t.settled(found, Scalar::from_bits(s(3.0).to_bits() - 4)), Ok(found));
}

#[test]
fn settling_fails_on_a_contrast_that_does_not_match() {
    let t = Settling { base: base(), target: s(21.0), lch: lch(62.0) };
    let found = SRGBA::new(s(0.5), s(0.6), s(0.7), s(1.0));
    let failure = Diagnostic::Unreachable { contrast: s(21.0), base: base() };
    assert_eq!(t.settled(found, s(20.9)), Err(failure));
    let failure = Diagnostic::Unreachable { contrast: s(21.0), base: base() };
    assert_eq!(t.settled(found, Scalar::from_bits(s(21.0).to_bits() + 5)), Err(failure));
}

#[test]
fn lch_with_l_changes_only_the_lightness() {
    assert_eq!(lch(31.5).with_l(s(2.0)), lch(2.0));
}

#[test]
fn advance_takes_the_reply_that_is_awaited() {
    let start = || Exact().pick_color(base(), lch(31.5), Some(s(3.0)), false, None);
    let p = probing(start());
    assert_eq!(
        start().advance(Reply::Probed { lightness: s(50.0), contrast: s(1.9) }),
        p.probed(s(50.0), s(1.9))
    );
    let found = SRGBA::new(s(0.5), s(0.6), s(0.7), s(1.0));
    let t = Settling { base: base(), target: s(3.0), lch: lch(62.0) };
    assert_eq!(
        Search::Settle(t).advance(Reply::Settled { color: found, contrast: s(3.0) }),
        Search::Done(Ok(found))
    );
    assert_eq!(
        Search::Settle(t).advance(Reply::Settled { color: found, contrast: s(2.0) }),
        Search::Done(Err(Diagnostic::Unreachable { contrast: s(3.0), base: base() }))
    );
}

#[test]
fn advance_leaves_the_search_on_another_reply() {
    let found = SRGBA::new(s(0.5), s(0.6), s(0.7), s(1.0));
    let start = || Exact().pick_color(base(), lch(31.5), Some(s(3.0)), false, None);
    assert_eq!(start().advance(Reply::Settled { color: found, contrast: s(3.0) }), start());
    let t = Settling { base: base(), target: s(3.0), lch: lch(62.0) };
    assert_eq!(
        Search::Settle(t).advance(Reply::Probed { lightness: s(1.0), contrast: s(3.0) }),
        Search::Settle(t)
    );
    let done = || Search::Done(Ok(found));
    assert_eq!(done().advance(Reply::Probed { lightness: s(1.0), contrast: s(3.0) }), done());
    assert_eq!(done().advance(Reply::Settled { color: found, contrast: s(3.0) }), done());
}

#[test]
fn a_search_is_done_within_a_hundred_and_one_replies() {
    let found = SRGBA::new(s(0.5), s(0.6), s(0.7), s(1.0));
    let mut search = Exact().pick_color(base(), lch(31.5), Some(s(3.0)), false, None);
    let mut replies = 0;
    loop {
        let reply = match search {
            Search::Probe(_) => Reply::Probed { lightness: s(40.0), contrast: s(2.0) },
            Search::Settle(_) => Reply::Settled { color: found, contrast: s(2.0) },
            Search::Done(_) => break,
        };
        search = search.advance(reply);
        replies += 1;
    }
    assert_eq!(replies, 101);
    assert_eq!(search, Search::Done(Err(Diagnostic::Unreachable { contrast: s(3.0), base: base() })));
}

#[test]
fn lightening_keeps_to_the_lighter_side() {
    // midpoints as a host reports them, contrast always too small
    let mut p = probing(Exact().pick_color(base(), lch(31.5), Some(s(3.0)), false, Some(true)));
    for _ in 0..50 {
        assert!(!p.lower.lt(s(31.5)));
        let mid = (f32::from_bits(p.lower.to_bits()) + f32::from_bits(p.upper.to_bits())) / 2.0;
        p = probing(p.probed(s(mid), s(1.0)));
    }
    let t = settling(p.probed(p.lower, s(3.0)));
    assert!(!t.lch.l.lt(s(31.5)));
}
