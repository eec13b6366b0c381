//! The colours that a theme is derived from.

use vstd::prelude::*;
use crate::scalar::Scalar;
use crate::util::SRGBA;

verus! {

/// The seed colours of a theme.
#[derive(Clone, Copy, Debug, Default)]
pub struct Selection {
    pub background: SRGBA,
    pub primary_container: SRGBA,
    pub secondary_container: SRGBA,
    pub accent: SRGBA,
    /// The colour of text in the accent colour, if it is not the accent colour.
    pub accent_text: Option<SRGBA>,
    /// The colour of navigation handle text, if it is not the accent colour.
    pub accent_nav_handle_text: Option<SRGBA>,
    pub destructive: SRGBA,
}

/// A colour that is common in an image, with the distance of its hue from
/// the hue of crimson, in degrees and without sign.
#[derive(Clone, Copy, Debug, PartialEq, Eq, Structural)]
pub struct Candidate {
    pub color: SRGBA,
    pub hue_distance: Scalar,
}

/// Why no selection can be made of a list of candidates.
#[derive(Clone, Copy, Debug, PartialEq, Eq, Structural)]
pub enum SelectionError {
    /// There are fewer than [`NEEDED`] candidates.
    TooFew,
}

/// How many candidates a selection is made of.
pub const NEEDED: usize = 5;

impl Selection {
    /// The index that the scan for the reddest candidate holds after it has
    /// looked at the candidates at indices 1 to `seen`.
    ///
    /// The scan starts out holding index 1. When the candidate at index `k`
    /// is nearer to crimson than the one held, the scan goes on holding
    /// index `k - 1`.
    pub open spec fn reddest(candidates: Seq<Candidate>, seen: int) -> int
        decreases seen,
    {
        if seen <= 0 {
            1
        } else {
            let held = Self::reddest(candidates, seen - 1);
            if candidates[seen].hue_distance.lt(candidates[held].hue_distance) {
                seen - 1
            } else {
                held
            }
        }
    }

    /// The selection made of at least [`NEEDED`] candidates, most common
    /// first: the one that the scan for the reddest ends up holding is the
    /// destructive colour, and of the others the first four are, in turn,
    /// the background, the primary container, the accent and the secondary
    /// container. Accent text and navigation handle text are in the accent
    /// colour.
    pub open spec fn chosen(candidates: Seq<Candidate>) -> Selection {
        let red = Self::reddest(candidates, candidates.len() - 1);
        let rest = candidates.remove(red);
        Selection {
            background: rest[0].color,
            primary_container: rest[1].color,
            secondary_container: rest[3].color,
            accent: rest[2].color,
            accent_text: Some(rest[2].color),
            accent_nav_handle_text: Some(rest[2].color),
            destructive: candidates[red].color,
        }
    }

    /// The index that the scan holds is never that of the first candidate
    /// and never beyond the last candidate but one that it has looked at.
    pub proof fn reddest_is_an_index(candidates: Seq<Candidate>, seen: int)
        requires
            seen < candidates.len(),
            2 <= candidates.len(),
        ensures
            1 <= Self::reddest(candidates, seen) < candidates.len(),
            seen <= 1 ==> Self::reddest(candidates, seen) == 1,
            seen >= 2 ==> Self::reddest(candidates, seen) < seen,
        decreases seen,
    {
        if seen > 0 {
            Self::reddest_is_an_index(candidates, seen - 1);
        }
    }

    /// The most common candidate is always the background: the scan for the
    /// reddest never takes it.
    pub proof fn background_is_first(candidates: Seq<Candidate>)
        requires
            candidates.len() >= NEEDED,
        ensures
            Self::chosen(candidates).background == candidates[0].color,
    {
        Self::reddest_is_an_index(candidates, candidates.len() - 1);
    }

    /// Makes a selection of the colours that are most common in an image,
    /// most common first. Fails if and only if there are fewer than
    /// [`NEEDED`].
    pub fn try_from(colors: Vec<Candidate>) -> (r: Result<Selection, SelectionError>)
        ensures
            colors@.len() < NEEDED ==> r == Err::<Selection, SelectionError>(
                SelectionError::TooFew,
            ),
            colors@.len() >= NEEDED ==> r == Ok::<Selection, SelectionError>(
                Selection::chosen(colors@),
            ),
    {
        let mut colors = colors;
        let ghost candidates = colors@;
        if colors.len() < NEEDED {
            return Err(SelectionError::TooFew);
        }
        let n: usize = colors.len();
        let mut reddest_i: usize = 1;
        let mut i: usize = 0;
        while i + 1 < n
            invariant
                colors@ == candidates,
                n == candidates.len(),
                candidates.len() >= NEEDED,
                i < candidates.len(),
                reddest_i == Self::reddest(candidates, i as int),
                reddest_i < candidates.len(),
            decreases candidates.len() - i,
        {
            let d_cur = colors[i + 1].hue_distance;
            let reddest_d = colors[reddest_i].hue_distance;
            if d_cur.lt(reddest_d) {
                reddest_i = i;
            }
            i = i + 1;
            proof {
                Self::reddest_is_an_index(candidates, i as int);
            }
        }

        let red = colors.remove(reddest_i);

        Ok(
            Selection {
                background: colors[0].color,
                primary_container: colors[1].color,
                secondary_container: colors[3].color,
                accent: colors[2].color,
                accent_text: Some(colors[2].color),
                accent_nav_handle_text: Some(colors[2].color),
                destructive: red.color,
            },
        )
    }

    /// Sets the background and nothing else.
    pub fn set_background(&mut self, rgba: SRGBA)
        ensures
            *final(self) == (Selection { background: rgba, ..*old(self) }),
    {
        self.background = rgba;
    }

    /// Sets the primary container and nothing else.
    pub fn set_primary_container(&mut self, rgba: SRGBA)
        ensures
            *final(self) == (Selection { primary_container: rgba, ..*old(self) }),
    {
        self.primary_container = rgba;
    }

    /// Sets the secondary container and nothing else.
    pub fn set_secondary_container(&mut self, rgba: SRGBA)
        ensures
            *final(self) == (Selection { secondary_container: rgba, ..*old(self) }),
    {
        self.secondary_container = rgba;
    }

    /// Sets the accent and nothing else.
    pub fn set_accent_color(&mut self, rgba: SRGBA)
        ensures
            *final(self) == (Selection { accent: rgba, ..*old(self) }),
    {
        self.accent = rgba;
    }

    /// Sets the colour of text in the accent colour and nothing else.
    pub fn set_accent_text_color(&mut self, rgba: SRGBA)
        ensures
            *final(self) == (Selection { accent_text: Some(rgba), ..*old(self) }),
    {
        self.accent_text = Some(rgba);
    }

    /// Sets the colour of navigation handle text and nothing else.
    pub fn set_accent_nav_handle_text_color(&mut self, rgba: SRGBA)
        ensures
            *final(self) == (Selection { accent_nav_handle_text: Some(rgba), ..*old(self) }),
    {
        self.accent_nav_handle_text = Some(rgba);
    }

    /// Sets the destructive colour and nothing else.
    pub fn set_destructive(&mut self, rgba: SRGBA)
        ensures
            *final(self) == (Selection { destructive: rgba, ..*old(self) }),
    {
        self.destructive = rgba;
    }
}

} // verus!
