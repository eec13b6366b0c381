//! Choosing a colour that stands at a wanted contrast to another.

use vstd::prelude::*;
use crate::model::ContainerType;
use crate::scalar::Scalar;
use crate::util::SRGBA;

pub mod exact;

verus! {

/// The encoding of 7.0, the contrast of enhanced ("AAA") text.
pub const AAA: u32 = 0x40e0_0000;

/// The encoding of 4.5, the contrast of minimum ("AA") text.
pub const AA: u32 = 0x4090_0000;

/// Where in a derivation a contrast could not be reached.
#[derive(Clone, Copy, Debug, PartialEq, Eq, Structural)]
pub enum Label {
    /// The enhanced text contrast failed.
    TextAaa,
    /// The minimum text contrast failed.
    TextAa,
    /// A graphic contrast of the given ratio failed.
    Graphic { contrast: Scalar },
    /// The divider of a widget.
    WidgetDivider,
    /// The text of a widget.
    WidgetText,
    /// The divider of a container.
    ContainerDivider(ContainerType),
    /// The text of a container.
    ContainerText(ContainerType),
    /// The default fill of the component of a container.
    ContainerComponent(ContainerType),
    /// The states of the component of a container.
    ContainerComponentDerivation(ContainerType),
    /// The states of the suggested action.
    AccentComponentDerivation,
    /// The states of the destructive action.
    DestructiveComponentDerivation,
    /// The text of a button without a fill.
    TextButtonText,
}

/// Why a colour is not the one that was asked for.
///
/// There is one root cause, a contrast that cannot be reached from a base
/// colour; everything else says where in a derivation it happened.
#[derive(Debug, PartialEq, Eq)]
pub enum Diagnostic {
    /// No colour at `contrast` to `base` was found.
    Unreachable { contrast: Scalar, base: SRGBA },
    /// `source` arose while deriving what `label` names.
    Context { label: Label, source: Box<Diagnostic> },
}

impl Diagnostic {
    /// `source`, marked as having arisen at `label`.
    pub open spec fn spec_at(label: Label, source: Diagnostic) -> Diagnostic {
        Diagnostic::Context { label, source: Box::new(source) }
    }

    /// `source`, marked as having arisen at `label`.
    #[verifier::when_used_as_spec(spec_at)]
    pub fn at(label: Label, source: Diagnostic) -> (d: Diagnostic)
        ensures
            d == Diagnostic::spec_at(label, source),
    {
        Diagnostic::Context { label, source: Box::new(source) }
    }
}

/// What [`ColorPicker::pick_color_text`] returns, given what the three
/// attempts it is made of return: at the enhanced contrast, at the minimum
/// contrast, and at no contrast in particular.
///
/// The first attempt that succeeds gives the colour. With it comes the
/// failure of the attempt before it, marked with the tier that failed. If
/// even the last attempt fails, the colour is the default colour and the
/// failure is handed on unmarked.
pub open spec fn text_outcome(
    enhanced: Result<SRGBA, Diagnostic>,
    minimum: Result<SRGBA, Diagnostic>,
    any: Result<SRGBA, Diagnostic>,
) -> (SRGBA, Option<Diagnostic>) {
    match enhanced {
        Ok(c) => (c, None),
        Err(e) => match minimum {
            Ok(c) => (c, Some(Diagnostic::at(Label::TextAaa, e))),
            Err(e) => match any {
                Ok(c) => (c, Some(Diagnostic::at(Label::TextAa, e))),
                Err(e) => (SRGBA::black(), Some(e)),
            },
        },
    }
}

/// What [`ColorPicker::pick_color_graphic`] returns, given what the two
/// attempts it is made of return: at the wanted contrast, and at no contrast
/// in particular.
pub open spec fn graphic_outcome(
    contrast: Scalar,
    wanted: Result<SRGBA, Diagnostic>,
    any: Result<SRGBA, Diagnostic>,
) -> (SRGBA, Option<Diagnostic>) {
    match wanted {
        Ok(c) => (c, None),
        Err(e) => match any {
            Ok(c) => (c, Some(Diagnostic::at(Label::Graphic { contrast }, e))),
            Err(e) => (SRGBA::black(), Some(e)),
        },
    }
}

/// A tiered pick gives the colour of the first of its attempts that
/// succeeds, and a diagnostic exactly if the first attempt fails. So as long
/// as the attempt at no contrast in particular succeeds, the colour is one
/// that the picker returned, never the default colour in its place.
pub proof fn tiers_take_the_first_success(
    enhanced: Result<SRGBA, Diagnostic>,
    minimum: Result<SRGBA, Diagnostic>,
    contrast: Scalar,
    wanted: Result<SRGBA, Diagnostic>,
    any: Result<SRGBA, Diagnostic>,
)
    ensures
        text_outcome(enhanced, minimum, any).1 is None <==> enhanced is Ok,
        enhanced matches Ok(c) ==> text_outcome(enhanced, minimum, any).0 == c,
        enhanced is Err ==> (minimum matches Ok(c) ==> text_outcome(enhanced, minimum, any).0
            == c),
        enhanced is Err && minimum is Err ==> (any matches Ok(c) ==> text_outcome(
            enhanced,
            minimum,
            any,
        ).0 == c),
        graphic_outcome(contrast, wanted, any).1 is None <==> wanted is Ok,
        wanted matches Ok(c) ==> graphic_outcome(contrast, wanted, any).0 == c,
        wanted is Err ==> (any matches Ok(c) ==> graphic_outcome(contrast, wanted, any).0 == c),
{
}

/// What [`ColorPicker::pick_color_text`] returns for the given picker and
/// arguments.
pub open spec fn text_pick<T: ColorPicker>(
    picker: &T,
    color: SRGBA,
    grayscale: bool,
    lighten: Option<bool>,
) -> (SRGBA, Option<Diagnostic>) {
    text_outcome(
        picker.picked(color, Some(Scalar { bits: AAA }), grayscale, lighten),
        picker.picked(color, Some(Scalar { bits: AA }), grayscale, lighten),
        picker.picked(color, None, grayscale, lighten),
    )
}

/// What [`ColorPicker::pick_color_graphic`] returns for the given picker and
/// arguments.
pub open spec fn graphic_pick<T: ColorPicker>(
    picker: &T,
    color: SRGBA,
    contrast: Scalar,
    grayscale: bool,
    lighten: Option<bool>,
) -> (SRGBA, Option<Diagnostic>) {
    graphic_outcome(
        contrast,
        picker.picked(color, Some(contrast), grayscale, lighten),
        picker.picked(color, None, grayscale, lighten),
    )
}

/// `errors` followed by `found`, marked with `label`, if there is one.
pub fn note(errors: &mut Vec<Diagnostic>, label: Label, found: Option<Diagnostic>)
    ensures
        final(errors)@ == old(errors)@ + noted(label, found),
{
    if let Some(e) = found {
        errors.push(Diagnostic::at(label, e));
        assert(errors@ =~= old(errors)@ + noted(label, Some(e)));
    } else {
        assert(errors@ =~= old(errors)@ + noted(label, None));
    }
}

/// The diagnostics that one pick leaves: none, or the one that came with the
/// colour, marked with `label`.
pub open spec fn noted(label: Label, found: Option<Diagnostic>) -> Seq<Diagnostic> {
    match found {
        Some(e) => seq![Diagnostic::at(label, e)],
        None => seq![],
    }
}

/// Each of `found`, marked with `label`, in the same order.
pub open spec fn all_noted(label: Label, found: Seq<Diagnostic>) -> Seq<Diagnostic> {
    found.map_values(|e: Diagnostic| Diagnostic::at(label, e))
}

/// `errors` followed by each of `found`, marked with `label`.
pub fn note_all(errors: &mut Vec<Diagnostic>, label: Label, found: Vec<Diagnostic>)
    ensures
        final(errors)@ == old(errors)@ + all_noted(label, found@),
{
    let ghost all = found@;
    for e in it: found.into_iter()
        invariant
            it.seq() == all,
            errors@ == old(errors)@ + all_noted(label, all.take(it.index() as int)),
    {
        errors.push(Diagnostic::at(label, e));
        assert(errors@ =~= old(errors)@ + all_noted(label, all.take(it.index() + 1)));
    }
    assert(all.take(all.len() as int) =~= all);
}

/// A way of choosing, for a colour, another colour at a wanted contrast to it.
///
/// An implementation supplies [`pick_color`](ColorPicker::pick_color), which
/// must be a function of its arguments: [`picked`](ColorPicker::picked) is
/// the name of what it returns, and what is proved of the tiered picks and
/// of the derivations is proved of that name. Nothing else is taken for
/// granted of an implementation; it may fail on any input. The two tiered
/// methods are built on `pick_color` and always return a colour.
pub trait ColorPicker {
    /// The result of [`pick_color`](ColorPicker::pick_color). An
    /// implementation that is not verified leaves this as it is.
    open spec fn picked(
        &self,
        color: SRGBA,
        contrast: Option<Scalar>,
        grayscale: bool,
        lighten: Option<bool>,
    ) -> Result<SRGBA, Diagnostic> {
        arbitrary()
    }

    /// A colour whose contrast to `color` is `contrast`, or else the most
    /// contrasting colour there is if `contrast` is `None`. With `grayscale`
    /// the colour has no chroma. `lighten` confines the search to colours
    /// lighter (`Some(true)`) or darker (`Some(false)`) than `color`.
    fn pick_color(
        &self,
        color: SRGBA,
        contrast: Option<Scalar>,
        grayscale: bool,
        lighten: Option<bool>,
    ) -> (res: Result<SRGBA, Diagnostic>)
        ensures
            res == self.picked(color, contrast, grayscale, lighten),
    ;

    /// A colour for text on `color`: at the enhanced contrast if that can be
    /// had, else at the minimum contrast, else the most contrasting colour.
    fn pick_color_text(&self, color: SRGBA, grayscale: bool, lighten: Option<bool>) -> (res: (
        SRGBA,
        Option<Diagnostic>,
    ))
        ensures
            res == text_outcome(
                self.picked(color, Some(Scalar { bits: AAA }), grayscale, lighten),
                self.picked(color, Some(Scalar { bits: AA }), grayscale, lighten),
                self.picked(color, None, grayscale, lighten),
            ),
    {
        let mut err: Option<Diagnostic> = None;

        match self.pick_color(color, Some(Scalar::from_bits(AAA)), grayscale, lighten) {
            Ok(c) => {
                return (c, err);
            },
            Err(e) => {
                err = Some(Diagnostic::at(Label::TextAaa, e));
            },
        }

        match self.pick_color(color, Some(Scalar::from_bits(AA)), grayscale, lighten) {
            Ok(c) => {
                return (c, err);
            },
            Err(e) => {
                err = Some(Diagnostic::at(Label::TextAa, e));
            },
        }

        match self.pick_color(color, None, grayscale, lighten) {
            Ok(c) => (c, err),
            Err(e) => (SRGBA::default(), Some(e)),
        }
    }

    /// A colour for a graphic on `color`: at `contrast` if that can be had,
    /// else the most contrasting colour.
    fn pick_color_graphic(
        &self,
        color: SRGBA,
        contrast: Scalar,
        grayscale: bool,
        lighten: Option<bool>,
    ) -> (res: (SRGBA, Option<Diagnostic>))
        ensures
            res == graphic_outcome(
                contrast,
                self.picked(color, Some(contrast), grayscale, lighten),
                self.picked(color, None, grayscale, lighten),
            ),
    {
        let mut err: Option<Diagnostic> = None;

        match self.pick_color(color, Some(contrast), grayscale, lighten) {
            Ok(c) => {
                return (c, err);
            },
            Err(e) => {
                err = Some(Diagnostic::at(Label::Graphic { contrast }, e));
            },
        }

        match self.pick_color(color, None, grayscale, lighten) {
            Ok(c) => (c, err),
            Err(e) => (SRGBA::default(), Some(e)),
        }
    }
}

} // verus!
