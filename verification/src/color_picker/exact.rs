//! The picker that searches for the wanted contrast by bisection.
//!
//! The search runs in the lightness of the LCH colour space. It keeps an
//! interval of lightness, asks for the contrast at its midpoint, and moves
//! one end of the interval there, up to [`ROUNDS`] times or until a midpoint
//! matches the wanted contrast. What it then holds is clamped into gamut and
//! measured once more: only a colour that matches is returned.
//!
//! Converting colours, halving an interval and measuring a contrast is
//! arithmetic on real numbers, which the host does. [`Exact::pick_color`]
//! therefore returns a [`Search`], which says what it needs next:
//!
//! * [`Search::Probe`]: the midpoint of `lower` and `upper`, and the contrast
//!   between the base colour and the colour with that lightness and the
//!   working chroma and hue. Hand both to [`Probing::probed`].
//! * [`Search::Settle`]: `lch` clamped into gamut, as a colour, and the
//!   contrast between the base colour and that colour. Hand both to
//!   [`Settling::settled`], which returns what the pick returns.
//! * [`Search::Done`]: nothing; the pick is over.

use vstd::prelude::*;
use crate::color_picker::Diagnostic;
use crate::scalar::Scalar;
use crate::util::SRGBA;

verus! {

/// The encoding of 50.0, the lightness above which black contrasts more than white.
pub const FIFTY: u32 = 0x4248_0000;

/// The encoding of 100.0, the greatest lightness.
pub const HUNDRED: u32 = 0x42c8_0000;

/// How many midpoints a search probes at most.
pub const ROUNDS: u8 = 100;

/// A colour by lightness, chroma and hue (in degrees).
#[derive(Clone, Copy, Debug, PartialEq, Eq, Structural)]
pub struct Lch {
    pub l: Scalar,
    pub chroma: Scalar,
    pub hue: Scalar,
}

impl Lch {
    /// The colour with the same chroma and hue and the given lightness.
    pub open spec fn spec_with_l(self, l: Scalar) -> Lch {
        Lch { l, chroma: self.chroma, hue: self.hue }
    }

    /// The colour with the same lightness and hue and no chroma.
    pub open spec fn spec_gray(self) -> Lch {
        Lch { l: self.l, chroma: Scalar { bits: 0 }, hue: self.hue }
    }

    /// The colour with the same chroma and hue and the given lightness.
    #[verifier::when_used_as_spec(spec_with_l)]
    pub fn with_l(self, l: Scalar) -> (r: Lch)
        ensures
            r == self.spec_with_l(l),
    {
        Lch { l, chroma: self.chroma, hue: self.hue }
    }

    /// The colour with the same lightness and hue and no chroma.
    #[verifier::when_used_as_spec(spec_gray)]
    pub fn gray(self) -> (r: Lch)
        ensures
            r == self.spec_gray(),
    {
        Lch { l: self.l, chroma: Scalar { bits: 0 }, hue: self.hue }
    }
}

/// A search that waits for the contrast at the midpoint of its interval.
#[derive(Clone, Copy, Debug, PartialEq, Eq, Structural)]
pub struct Probing {
    /// The colour to contrast with.
    pub base: SRGBA,
    /// The wanted contrast.
    pub target: Scalar,
    /// The base colour in LCH, without chroma if the pick is in grayscale.
    pub working: Lch,
    /// The lower end of the interval of lightness.
    pub lower: Scalar,
    /// The upper end of the interval of lightness.
    pub upper: Scalar,
    /// How many midpoints have been probed.
    pub rounds: u8,
}

/// A search that waits for its candidate to be clamped and measured.
#[derive(Clone, Copy, Debug, PartialEq, Eq, Structural)]
pub struct Settling {
    /// The colour to contrast with.
    pub base: SRGBA,
    /// The wanted contrast.
    pub target: Scalar,
    /// The candidate.
    pub lch: Lch,
}

/// A pick in progress: what it needs next, or what it returned.
#[derive(Debug, PartialEq, Eq)]
pub enum Search {
    Probe(Probing),
    Settle(Settling),
    Done(Result<SRGBA, Diagnostic>),
}

/// What the host hands back to a search.
#[derive(Clone, Copy, Debug, PartialEq, Eq, Structural)]
pub enum Reply {
    /// The midpoint of the interval and the contrast there.
    Probed { lightness: Scalar, contrast: Scalar },
    /// The clamped candidate as a colour and its contrast.
    Settled { color: SRGBA, contrast: Scalar },
}

impl Probing {
    /// The interval after the midpoint `lightness` showed `contrast`, which
    /// does not match the target.
    ///
    /// The midpoint replaces the lower end if it lies above the working
    /// lightness and shows too little contrast, or lies at or below it and
    /// shows too much or as much; else it replaces the upper end. The rule
    /// takes contrast to grow with the distance from the working lightness,
    /// on the side where the midpoint lies. Where the interval reaches over
    /// both sides, the search may so end on either, or match on neither.
    pub open spec fn narrowed(self, lightness: Scalar, contrast: Scalar) -> (Scalar, Scalar) {
        if self.working.l.lt(lightness) == self.target.gt(contrast) {
            (lightness, self.upper)
        } else {
            (self.lower, lightness)
        }
    }

    /// The search after the midpoint `lightness` showed `contrast`.
    ///
    /// A midpoint that matches the target becomes the candidate. Otherwise
    /// the interval narrows, and after the last round the candidate is the
    /// working colour itself, not the last midpoint.
    pub open spec fn spec_probed(self, lightness: Scalar, contrast: Scalar) -> Search {
        if self.target.approx_eq(contrast) {
            Search::Settle(
                Settling {
                    base: self.base,
                    target: self.target,
                    lch: self.working.with_l(lightness),
                },
            )
        } else if self.rounds >= ROUNDS - 1 {
            Search::Settle(Settling { base: self.base, target: self.target, lch: self.working })
        } else {
            Search::Probe(
                Probing {
                    base: self.base,
                    target: self.target,
                    working: self.working,
                    lower: self.narrowed(lightness, contrast).0,
                    upper: self.narrowed(lightness, contrast).1,
                    rounds: (self.rounds + 1) as u8,
                },
            )
        }
    }

    /// Takes the midpoint of the interval and the contrast between the base
    /// colour and the colour with that lightness.
    #[verifier::when_used_as_spec(spec_probed)]
    pub fn probed(self, lightness: Scalar, contrast: Scalar) -> (next: Search)
        ensures
            next == self.spec_probed(lightness, contrast),
    {
        if self.target.approx_eq(contrast) {
            return Search::Settle(
                Settling {
                    base: self.base,
                    target: self.target,
                    lch: self.working.with_l(lightness),
                },
            );
        }
        if self.rounds >= ROUNDS - 1 {
            return Search::Settle(
                Settling { base: self.base, target: self.target, lch: self.working },
            );
        }
        let contrast_dir = self.target.gt(contrast);
        let lightness_dir = self.working.l.lt(lightness);
        let mut lower = self.lower;
        let mut upper = self.upper;
        if lightness_dir && contrast_dir || !lightness_dir && !contrast_dir {
            lower = lightness;
        } else {
            upper = lightness;
        }
        Search::Probe(
            Probing {
                base: self.base,
                target: self.target,
                working: self.working,
                lower,
                upper,
                rounds: self.rounds + 1,
            },
        )
    }
}

impl Settling {
    /// What the pick returns when the clamped candidate is `color` and shows
    /// `contrast`: the colour if the contrast matches the target, else the
    /// failure to reach the target from the base colour.
    pub open spec fn spec_settled(self, color: SRGBA, contrast: Scalar) -> Result<
        SRGBA,
        Diagnostic,
    > {
        if self.target.approx_eq(contrast) {
            Ok(color)
        } else {
            Err(Diagnostic::Unreachable { contrast: self.target, base: self.base })
        }
    }

    /// Takes the candidate, clamped into gamut, as a colour, and the contrast
    /// between the base colour and that colour.
    #[verifier::when_used_as_spec(spec_settled)]
    pub fn settled(self, color: SRGBA, contrast: Scalar) -> (res: Result<SRGBA, Diagnostic>)
        ensures
            res == self.spec_settled(color, contrast),
    {
        if !self.target.approx_eq(contrast) {
            return Err(Diagnostic::Unreachable { contrast: self.target, base: self.base });
        }
        Ok(color)
    }
}

impl Search {
    /// Whether `reply` is what the search waits for.
    pub open spec fn awaits(self, reply: Reply) -> bool {
        match (self, reply) {
            (Search::Probe(_), Reply::Probed { .. }) => true,
            (Search::Settle(_), Reply::Settled { .. }) => true,
            _ => false,
        }
    }

    /// The search after `reply`. A reply that the search does not wait for
    /// leaves it as it is.
    pub open spec fn next(self, reply: Reply) -> Search {
        match (self, reply) {
            (Search::Probe(p), Reply::Probed { lightness, contrast }) => p.probed(
                lightness,
                contrast,
            ),
            (Search::Settle(s), Reply::Settled { color, contrast }) => Search::Done(
                s.settled(color, contrast),
            ),
            _ => self,
        }
    }

    /// Takes a reply, whichever the search waits for. A reply that it does
    /// not wait for leaves it as it is.
    pub fn advance(self, reply: Reply) -> (next: Search)
        ensures
            next == self.next(reply),
    {
        match self {
            Search::Probe(p) => match reply {
                Reply::Probed { lightness, contrast } => p.probed(lightness, contrast),
                Reply::Settled { .. } => Search::Probe(p),
            },
            Search::Settle(s) => match reply {
                Reply::Settled { color, contrast } => Search::Done(s.settled(color, contrast)),
                Reply::Probed { .. } => Search::Settle(s),
            },
            Search::Done(res) => Search::Done(res),
        }
    }

    /// The search after each of `replies` in turn.
    pub open spec fn after(self, replies: Seq<Reply>) -> Search
        decreases replies.len(),
    {
        if replies.len() == 0 {
            self
        } else {
            self.next(replies[0]).after(replies.drop_first())
        }
    }

    /// Whether the search takes `replies` in turn: each is what the search
    /// waits for when it comes.
    pub open spec fn takes(self, replies: Seq<Reply>) -> bool
        decreases replies.len(),
    {
        replies.len() == 0 || (self.awaits(replies[0]) && self.next(replies[0]).takes(
            replies.drop_first(),
        ))
    }

    /// Whether each midpoint among `replies` lies within the interval that
    /// the search has when the reply comes.
    pub open spec fn all_within(self, replies: Seq<Reply>) -> bool
        decreases replies.len(),
    {
        replies.len() == 0 || (self.within(replies[0]) && self.next(replies[0]).all_within(
            replies.drop_first(),
        ))
    }

    /// An upper bound on the number of replies until the search is done.
    pub open spec fn budget(self) -> nat {
        match self {
            Search::Probe(p) => if p.rounds < ROUNDS {
                (ROUNDS - p.rounds + 1) as nat
            } else {
                2
            },
            Search::Settle(_) => 1,
            Search::Done(_) => 0,
        }
    }

    /// Whether the search has kept to lightness at or above `floor`: its
    /// working lightness is `floor`, the lower end of its interval is a
    /// number not below `floor`, and so is the lightness of its candidate.
    pub open spec fn keeps_above(self, floor: Scalar) -> bool {
        match self {
            Search::Probe(p) => p.working.l == floor && !p.lower.is_nan() && !p.lower.lt(floor),
            Search::Settle(s) => !s.lch.l.is_nan() && !s.lch.l.lt(floor),
            Search::Done(_) => true,
        }
    }

    /// Whether the search has kept to lightness at or below `ceiling`.
    pub open spec fn keeps_below(self, ceiling: Scalar) -> bool {
        match self {
            Search::Probe(p) => p.working.l == ceiling && !p.upper.is_nan() && !p.upper.gt(
                ceiling,
            ),
            Search::Settle(s) => !s.lch.l.is_nan() && !s.lch.l.gt(ceiling),
            Search::Done(_) => true,
        }
    }

    /// Whether `reply`, if it reports a midpoint, reports a number that
    /// lies within the interval of the search.
    pub open spec fn within(self, reply: Reply) -> bool {
        match (self, reply) {
            (Search::Probe(p), Reply::Probed { lightness, contrast }) => !lightness.is_nan()
                && !lightness.lt(p.lower) && !lightness.gt(p.upper),
            _ => true,
        }
    }

    /// Whether the search neither holds nor will hold a colour with chroma:
    /// its working colour or candidate has a chroma of exactly zero.
    pub open spec fn is_gray(self) -> bool {
        match self {
            Search::Probe(p) => p.working.chroma.bits == 0,
            Search::Settle(s) => s.lch.chroma.bits == 0,
            Search::Done(_) => true,
        }
    }
}

/// The bisecting picker.
#[derive(Clone, Copy, Debug, Default)]
pub struct Exact();

impl Exact {
    /// The interval of lightness in which a pick searches: from the working
    /// lightness up when lightening, from it down when darkening, and all of
    /// lightness when free to do either.
    pub open spec fn interval(l: Scalar, lighten: Option<bool>) -> (Scalar, Scalar) {
        match lighten {
            Some(true) => (l, Scalar { bits: HUNDRED }),
            Some(false) => (Scalar { bits: 0 }, l),
            None => (Scalar { bits: 0 }, Scalar { bits: HUNDRED }),
        }
    }

    /// The most contrasting colour to one of lightness `l`: black above
    /// [`FIFTY`], else white.
    pub open spec fn extreme(l: Scalar) -> SRGBA {
        if l.gt(Scalar { bits: FIFTY }) {
            SRGBA::black()
        } else {
            SRGBA::white()
        }
    }

    /// The search that a pick begins with; see [`Exact::pick_color`].
    pub open spec fn spec_pick_color(
        color: SRGBA,
        lch: Lch,
        contrast: Option<Scalar>,
        grayscale: bool,
        lighten: Option<bool>,
    ) -> Search {
        let working = if grayscale {
            lch.gray()
        } else {
            lch
        };
        match contrast {
            Some(target) => Search::Probe(
                Probing {
                    base: color,
                    target,
                    working,
                    lower: Exact::interval(working.l, lighten).0,
                    upper: Exact::interval(working.l, lighten).1,
                    rounds: 0,
                },
            ),
            None => Search::Done(Ok(Exact::extreme(working.l))),
        }
    }

    /// Begins to pick a colour whose contrast to `color` is `contrast`;
    /// `lch` is `color` in LCH.
    ///
    /// With no contrast to reach, the pick is done at once and is black or
    /// white, whichever contrasts more. Otherwise the search starts on the
    /// interval that `lighten` allows, with `color`'s chroma and hue, or
    /// without chroma if `grayscale`.
    pub fn pick_color(
        &self,
        color: SRGBA,
        lch: Lch,
        contrast: Option<Scalar>,
        grayscale: bool,
        lighten: Option<bool>,
    ) -> (search: Search)
        ensures
            search == Exact::spec_pick_color(color, lch, contrast, grayscale, lighten),
    {
        let mut working = lch;
        if grayscale {
            working = working.gray();
        }
        match contrast {
            Some(target) => {
                let (lower, upper) = match lighten {
                    Some(b) => if b {
                        (working.l, Scalar::from_bits(HUNDRED))
                    } else {
                        (Scalar::from_bits(0), working.l)
                    },
                    None => (Scalar::from_bits(0), Scalar::from_bits(HUNDRED)),
                };
                Search::Probe(
                    Probing { base: color, target, working, lower, upper, rounds: 0 },
                )
            },
            None => {
                if working.l.gt(Scalar::from_bits(FIFTY)) {
                    Search::Done(Ok(SRGBA::black()))
                } else {
                    Search::Done(Ok(SRGBA::white()))
                }
            },
        }
    }
}

/// A pick without a contrast to reach needs nothing from the host and
/// returns black or white, by the lightness of the colour alone.
pub proof fn maximize_is_black_or_white(
    color: SRGBA,
    lch: Lch,
    grayscale: bool,
    lighten: Option<bool>,
)
    ensures
        Exact::spec_pick_color(color, lch, None, grayscale, lighten) == Search::Done(
            Ok(
                if lch.l.gt(Scalar { bits: FIFTY }) {
                    SRGBA::black()
                } else {
                    SRGBA::white()
                },
            ),
        ),
{
}

/// A pick returns a colour only if the contrast measured for it matches the
/// target, and then it is the colour that was measured.
pub proof fn returned_color_matches(s: Settling, color: SRGBA, contrast: Scalar)
    ensures
        s.settled(color, contrast) is Ok <==> s.target.approx_eq(contrast),
        s.settled(color, contrast) is Ok ==> s.settled(color, contrast) == Ok::<
            SRGBA,
            Diagnostic,
        >(color),
{
}

/// Each reply that a search waits for lowers its budget, and a search
/// without budget is done.
pub proof fn every_reply_counts(s: Search, reply: Reply)
    ensures
        s.awaits(reply) ==> s.next(reply).budget() < s.budget(),
        s.budget() == 0 <==> s is Done,
{
}

/// A search takes no more replies than its budget.
pub proof fn budget_is_kept(s: Search, replies: Seq<Reply>)
    requires
        s.takes(replies),
    ensures
        replies.len() <= s.budget(),
    decreases replies.len(),
{
    if replies.len() > 0 {
        every_reply_counts(s, replies[0]);
        budget_is_kept(s.next(replies[0]), replies.drop_first());
    }
}

/// A pick is over after at most [`ROUNDS`] probes and one settling: it takes
/// no more replies than that, whatever they are.
pub proof fn search_ends(
    color: SRGBA,
    lch: Lch,
    contrast: Option<Scalar>,
    grayscale: bool,
    lighten: Option<bool>,
    replies: Seq<Reply>,
)
    requires
        Exact::spec_pick_color(color, lch, contrast, grayscale, lighten).takes(replies),
    ensures
        replies.len() <= ROUNDS + 1,
{
    budget_is_kept(Exact::spec_pick_color(color, lch, contrast, grayscale, lighten), replies);
}

/// A search without chroma stays without chroma, whatever the replies.
pub proof fn gray_is_kept(s: Search, replies: Seq<Reply>)
    requires
        s.is_gray(),
    ensures
        s.after(replies).is_gray(),
    decreases replies.len(),
{
    if replies.len() > 0 {
        gray_is_kept(s.next(replies[0]), replies.drop_first());
    }
}

/// A pick in grayscale never asks for, nor settles on, a colour with chroma:
/// at every point of the search the chroma is exactly zero.
pub proof fn grayscale_has_no_chroma(
    color: SRGBA,
    lch: Lch,
    contrast: Option<Scalar>,
    lighten: Option<bool>,
    replies: Seq<Reply>,
)
    ensures
        Exact::spec_pick_color(color, lch, contrast, true, lighten).after(replies).is_gray(),
{
    gray_is_kept(Exact::spec_pick_color(color, lch, contrast, true, lighten), replies);
}

/// A search that has kept above a floor goes on keeping above it, as long
/// as each midpoint it is told lies in its interval.
pub proof fn above_is_kept(s: Search, floor: Scalar, replies: Seq<Reply>)
    requires
        !floor.is_nan(),
        s.keeps_above(floor),
        s.all_within(replies),
    ensures
        s.after(replies).keeps_above(floor),
    decreases replies.len(),
{
    if replies.len() > 0 {
        above_is_kept(s.next(replies[0]), floor, replies.drop_first());
    }
}

/// A search that has kept below a ceiling goes on keeping below it, as long
/// as each midpoint it is told lies in its interval.
pub proof fn below_is_kept(s: Search, ceiling: Scalar, replies: Seq<Reply>)
    requires
        !ceiling.is_nan(),
        s.keeps_below(ceiling),
        s.all_within(replies),
    ensures
        s.after(replies).keeps_below(ceiling),
    decreases replies.len(),
{
    if replies.len() > 0 {
        below_is_kept(s.next(replies[0]), ceiling, replies.drop_first());
    }
}

/// A pick that lightens never holds a candidate darker than the colour it
/// began with, and a pick that darkens never one that is lighter, as long as
/// each midpoint it is told lies in its interval.
pub proof fn direction_is_kept(
    color: SRGBA,
    lch: Lch,
    contrast: Option<Scalar>,
    grayscale: bool,
    replies: Seq<Reply>,
)
    requires
        !lch.l.is_nan(),
    ensures
        ({
            let lightening = Exact::spec_pick_color(color, lch, contrast, grayscale, Some(true));
            lightening.all_within(replies) ==> lightening.after(replies).keeps_above(lch.l)
        }),
        ({
            let darkening = Exact::spec_pick_color(color, lch, contrast, grayscale, Some(false));
            darkening.all_within(replies) ==> darkening.after(replies).keeps_below(lch.l)
        }),
{
    let lightening = Exact::spec_pick_color(color, lch, contrast, grayscale, Some(true));
    if lightening.all_within(replies) {
        above_is_kept(lightening, lch.l, replies);
    }
    let darkening = Exact::spec_pick_color(color, lch, contrast, grayscale, Some(false));
    if darkening.all_within(replies) {
        below_is_kept(darkening, lch.l, replies);
    }
}

/// Outside grayscale, a search keeps the chroma and hue it began with.
pub proof fn chroma_and_hue_are_kept(p: Probing, lightness: Scalar, contrast: Scalar)
    ensures
        match p.probed(lightness, contrast) {
            Search::Probe(q) => q.working == p.working && q.base == p.base && q.target
                == p.target,
            Search::Settle(s) => s.lch.chroma == p.working.chroma && s.lch.hue == p.working.hue
                && s.base == p.base && s.target == p.target,
            Search::Done(_) => false,
        },
{
}

} // verus!
