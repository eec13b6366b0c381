//! The whole theme.

use vstd::prelude::*;
use vstd::string::StringExecFns;
use crate::color_picker::{noted, note, text_pick, ColorPicker, Diagnostic, Label};
use crate::model::constraint::ThemeConstraints;
use crate::model::derivation;
use crate::model::derivation::{
    declaration, declare, errors_are_few, Accent, AccentDerivation, AsCss, Container, ContainerDerivation,
    ContainerType, Destructive, DestructiveDerivation, ShadeRequest, Shades,
};
use crate::model::selection::Selection;
use crate::scalar::Scalar;
use crate::util::{Rgba8, SRGBA};

verus! {

/// All the colours of a theme.
#[derive(Clone, Copy, Debug, PartialEq, Default)]
pub struct Theme<C> {
    pub background: Container<C>,
    pub primary: Container<C>,
    pub secondary: Container<C>,
    pub accent: Accent<C>,
    pub destructive: Destructive<C>,
    /// The fill of the header of a window.
    pub window_header_background: C,
    /// The text of a button without a fill.
    pub text_button_text: C,
}

/// The shades that the derivation of a theme takes: of the default fill of
/// the component of each container, of the accent colour and of the
/// destructive colour.
#[derive(Clone, Copy, Debug, PartialEq, Eq, Structural)]
pub struct Shading {
    /// Of [`ContainerDerivation::component_default`] for the background.
    pub background: Shades,
    /// Of [`ContainerDerivation::component_default`] for the primary container.
    pub primary: Shades,
    /// Of [`ContainerDerivation::component_default`] for the secondary container.
    pub secondary: Shades,
    /// Of the accent colour.
    pub accent: Shades,
    /// Of the destructive colour.
    pub destructive: Shades,
}

/// What the host is asked for before a theme is derived: the shades of the
/// default fill of each of its five widgets.
#[derive(Clone, Copy, Debug, PartialEq, Eq, Structural)]
pub struct ShadingRequest {
    pub background: ShadeRequest,
    pub primary: ShadeRequest,
    pub secondary: ShadeRequest,
    pub accent: ShadeRequest,
    pub destructive: ShadeRequest,
}

/// A theme and what went wrong on the way to it.
#[derive(Debug)]
pub struct ThemeDerivation {
    pub theme: Theme<SRGBA>,
    pub errors: Vec<Diagnostic>,
}

impl ThemeDerivation {
    /// The shades that the derivation of the theme of a selection takes:
    /// those of the default fill of the component of each container, of the
    /// accent colour and of the destructive colour.
    pub open spec fn spec_requests<T: ColorPicker>(
        selection: Selection,
        constraints: ThemeConstraints,
        picker: &T,
    ) -> ShadingRequest {
        ShadingRequest {
            background: Shades::request(
                ContainerDerivation::spec_component_default(
                    selection,
                    constraints,
                    picker,
                    ContainerType::Background,
                ),
                constraints,
            ),
            primary: Shades::request(
                ContainerDerivation::spec_component_default(
                    selection,
                    constraints,
                    picker,
                    ContainerType::Primary,
                ),
                constraints,
            ),
            secondary: Shades::request(
                ContainerDerivation::spec_component_default(
                    selection,
                    constraints,
                    picker,
                    ContainerType::Secondary,
                ),
                constraints,
            ),
            accent: Shades::request(selection.accent, constraints),
            destructive: Shades::request(selection.destructive, constraints),
        }
    }

    /// What to ask the host for before deriving the theme of a selection.
    /// [`ThemeDerivation::from`] takes the answers, each in the place of its
    /// request.
    pub fn requests<T: ColorPicker>(args: (Selection, ThemeConstraints, &T)) -> (r:
        ShadingRequest)
        ensures
            r == ThemeDerivation::spec_requests(args.0, args.1, args.2),
    {
        let (selection, constraints, picker) = args;
        ShadingRequest {
            background: Shades::request(
                ContainerDerivation::component_default(
                    (selection, constraints, picker, ContainerType::Background),
                ),
                constraints,
            ),
            primary: Shades::request(
                ContainerDerivation::component_default(
                    (selection, constraints, picker, ContainerType::Primary),
                ),
                constraints,
            ),
            secondary: Shades::request(
                ContainerDerivation::component_default(
                    (selection, constraints, picker, ContainerType::Secondary),
                ),
                constraints,
            ),
            accent: Shades::request(selection.accent, constraints),
            destructive: Shades::request(selection.destructive, constraints),
        }
    }

    /// The text of a button without a fill, and what came with it: gray
    /// text on the background, lighter or darker.
    pub open spec fn text_button_text<T: ColorPicker>(selection: Selection, picker: &T) -> (
        SRGBA,
        Option<Diagnostic>,
    ) {
        text_pick(picker, selection.background, true, None)
    }

    /// The theme of a selection.
    pub open spec fn theme<T: ColorPicker>(
        selection: Selection,
        shading: Shading,
        constraints: ThemeConstraints,
        picker: &T,
    ) -> Theme<SRGBA> {
        Theme {
            background: ContainerDerivation::container(
                selection,
                shading.background,
                constraints,
                picker,
                ContainerType::Background,
            ),
            primary: ContainerDerivation::container(
                selection,
                shading.primary,
                constraints,
                picker,
                ContainerType::Primary,
            ),
            secondary: ContainerDerivation::container(
                selection,
                shading.secondary,
                constraints,
                picker,
                ContainerType::Secondary,
            ),
            accent: AccentDerivation::accent(selection, shading.accent, constraints, picker),
            destructive: DestructiveDerivation::destructive(
                selection,
                shading.destructive,
                constraints,
                picker,
            ),
            window_header_background: selection.background,
            text_button_text: Self::text_button_text(selection, picker).0,
        }
    }

    /// What goes wrong on the way to that theme, in the order of the
    /// derivation: background, primary container, secondary container,
    /// accent, destructive, and the text of a button without a fill.
    pub open spec fn errors<T: ColorPicker>(
        selection: Selection,
        shading: Shading,
        constraints: ThemeConstraints,
        picker: &T,
    ) -> Seq<Diagnostic> {
        ContainerDerivation::errors(
            selection,
            shading.background,
            constraints,
            picker,
            ContainerType::Background,
        ) + ContainerDerivation::errors(
            selection,
            shading.primary,
            constraints,
            picker,
            ContainerType::Primary,
        ) + ContainerDerivation::errors(
            selection,
            shading.secondary,
            constraints,
            picker,
            ContainerType::Secondary,
        ) + AccentDerivation::errors(shading.accent, constraints, picker)
            + DestructiveDerivation::errors(shading.destructive, constraints, picker) + noted(
            Label::TextButtonText,
            Self::text_button_text(selection, picker).1,
        )
    }

    /// Derives the theme of a selection under the constraints. Always gives
    /// a theme, with every colour in it derived as far as it could be; what
    /// could not be reached is in `errors`.
    pub fn from<T: ColorPicker>(args: (Selection, Shading, ThemeConstraints, &T)) -> (r:
        ThemeDerivation)
        ensures
            r.theme == ThemeDerivation::theme(args.0, args.1, args.2, args.3),
            r.errors@ == ThemeDerivation::errors(args.0, args.1, args.2, args.3),
    {
        let (selection, shading, constraints, picker) = args;
        let mut errors: Vec<Diagnostic> = Vec::new();

        let ContainerDerivation { container: background, errors: mut errs } =
            ContainerDerivation::from(
            (selection, shading.background, constraints, picker, ContainerType::Background),
        );
        errors.append(&mut errs);

        let ContainerDerivation { container: primary, errors: mut errs } =
            ContainerDerivation::from(
            (selection, shading.primary, constraints, picker, ContainerType::Primary),
        );
        errors.append(&mut errs);

        let ContainerDerivation { container: secondary, errors: mut errs } =
            ContainerDerivation::from(
            (selection, shading.secondary, constraints, picker, ContainerType::Secondary),
        );
        errors.append(&mut errs);

        let AccentDerivation { accent, errors: mut errs } = AccentDerivation::from(
            (selection, shading.accent, constraints, picker),
        );
        errors.append(&mut errs);

        let DestructiveDerivation { destructive, errors: mut errs } = DestructiveDerivation::from(
            (selection, shading.destructive, constraints, picker),
        );
        errors.append(&mut errs);

        let window_header_background = selection.background;
        let (text_button_text, err) = picker.pick_color_text(selection.background, true, None);
        note(&mut errors, Label::TextButtonText, err);

        ThemeDerivation {
            theme: Theme {
                background,
                primary,
                secondary,
                accent,
                destructive,
                window_header_background,
                text_button_text,
            },
            errors,
        }
    }
}

/// Every seed colour stands in the theme as it was chosen: the surfaces of
/// the containers and the header of the window, the accent colour and what
/// is drawn in it, and the default and focused fills of the suggested and
/// the destructive action. Each container carries its own type.
pub proof fn seeds_are_kept<T: ColorPicker>(
    selection: Selection,
    shading: Shading,
    constraints: ThemeConstraints,
    picker: &T,
)
    ensures
        ({
            let theme = ThemeDerivation::theme(selection, shading, constraints, picker);
            &&& theme.background.prefix == ContainerType::Background
            &&& theme.primary.prefix == ContainerType::Primary
            &&& theme.secondary.prefix == ContainerType::Secondary
            &&& theme.background.container == selection.background
            &&& theme.primary.container == selection.primary_container
            &&& theme.secondary.container == selection.secondary_container
            &&& theme.window_header_background == selection.background
            &&& theme.accent.accent == selection.accent
            &&& theme.accent.accent_text == AccentDerivation::or_accent(
                selection.accent_text,
                selection.accent,
            )
            &&& theme.accent.accent_nav_handle_text == AccentDerivation::or_accent(
                selection.accent_nav_handle_text,
                selection.accent,
            )
            &&& theme.accent.suggested.default == selection.accent
            &&& theme.accent.suggested.focused == selection.accent
            &&& theme.destructive.destructive.default == selection.destructive
            &&& theme.destructive.destructive.focused == selection.destructive
        }),
{
}

/// The shades that a derivation takes are the hover and pressed fills of
/// the theme, and the default fill of each widget of the theme is the colour
/// whose shades are asked for, in the direction of the constraints.
pub proof fn shades_are_kept<T: ColorPicker>(
    selection: Selection,
    shading: Shading,
    constraints: ThemeConstraints,
    picker: &T,
)
    ensures
        ({
            let theme = ThemeDerivation::theme(selection, shading, constraints, picker);
            let asked = ThemeDerivation::spec_requests(selection, constraints, picker);
            &&& theme.background.container_component.default == asked.background.color
            &&& theme.primary.container_component.default == asked.primary.color
            &&& theme.secondary.container_component.default == asked.secondary.color
            &&& theme.accent.suggested.default == asked.accent.color
            &&& theme.destructive.destructive.default == asked.destructive.color
            &&& asked.background.lighten == constraints.lighten
            &&& asked.primary.lighten == constraints.lighten
            &&& asked.secondary.lighten == constraints.lighten
            &&& asked.accent.lighten == constraints.lighten
            &&& asked.destructive.lighten == constraints.lighten
            &&& theme.background.container_component.hover == shading.background.hover
            &&& theme.background.container_component.pressed == shading.background.pressed
            &&& theme.primary.container_component.hover == shading.primary.hover
            &&& theme.primary.container_component.pressed == shading.primary.pressed
            &&& theme.secondary.container_component.hover == shading.secondary.hover
            &&& theme.secondary.container_component.pressed == shading.secondary.pressed
            &&& theme.accent.suggested.hover == shading.accent.hover
            &&& theme.accent.suggested.pressed == shading.accent.pressed
            &&& theme.destructive.destructive.hover == shading.destructive.hover
            &&& theme.destructive.destructive.pressed == shading.destructive.pressed
        }),
{
}

/// A derivation makes twenty picks, and each leaves one diagnostic at most.
pub proof fn errors_are_bounded<T: ColorPicker>(
    selection: Selection,
    shading: Shading,
    constraints: ThemeConstraints,
    picker: &T,
)
    ensures
        ThemeDerivation::errors(selection, shading, constraints, picker).len() <= 20,
{
    errors_are_few(selection, shading.background, constraints, picker, ContainerType::Background);
    errors_are_few(selection, shading.primary, constraints, picker, ContainerType::Primary);
    errors_are_few(selection, shading.secondary, constraints, picker, ContainerType::Secondary);
    errors_are_few(selection, shading.accent, constraints, picker, ContainerType::Background);
    errors_are_few(selection, shading.destructive, constraints, picker, ContainerType::Background);
}

/// Where the picker reaches every contrast it is asked for, nothing goes
/// wrong on the way to a theme.
pub proof fn no_errors_where_every_contrast_is_reached<T: ColorPicker>(
    selection: Selection,
    shading: Shading,
    constraints: ThemeConstraints,
    picker: &T,
)
    requires
        forall|color: SRGBA, contrast: Scalar, grayscale: bool, lighten: Option<bool>|
            (#[trigger] picker.picked(color, Some(contrast), grayscale, lighten)) is Ok,
    ensures
        ThemeDerivation::errors(selection, shading, constraints, picker) =~= Seq::empty(),
{
    derivation::no_errors_where_every_contrast_is_reached(
        selection,
        shading.background,
        constraints,
        picker,
        ContainerType::Background,
    );
    derivation::no_errors_where_every_contrast_is_reached(
        selection,
        shading.primary,
        constraints,
        picker,
        ContainerType::Primary,
    );
    derivation::no_errors_where_every_contrast_is_reached(
        selection,
        shading.secondary,
        constraints,
        picker,
        ContainerType::Secondary,
    );
    derivation::no_errors_where_every_contrast_is_reached(
        selection,
        shading.accent,
        constraints,
        picker,
        ContainerType::Background,
    );
    derivation::no_errors_where_every_contrast_is_reached(
        selection,
        shading.destructive,
        constraints,
        picker,
        ContainerType::Background,
    );
}

impl Theme<Rgba8> {
    /// The rules of the three containers, in the order background, primary,
    /// secondary; then the outline in the accent colour and the button of
    /// the suggested action; then the button of the destructive action.
    pub open spec fn css(&self) -> Seq<char> {
        self.background.css() + self.primary.css() + self.secondary.css()
            + "/* Accent CSS */\n* {\n  background-image: none;\n"@ + declaration(
            "outline-color"@,
            self.accent.accent,
        ) + "}\n\nbutton.suggested-action {\n"@ + declaration(
            "background-color"@,
            self.accent.suggested.default,
        ) + declaration("color"@, self.accent.suggested.text)
            + "}\n\nbutton.destructive-action {\n"@ + declaration(
            "background-color"@,
            self.destructive.destructive.default,
        ) + declaration("outline-color"@, self.destructive.destructive.default) + declaration(
            "color"@,
            self.destructive.destructive.text,
        ) + "}\n"@
    }

    /// The theme as a stylesheet.
    pub fn as_css(&self) -> (s: String)
        ensures
            s@ == self.css(),
    {
        let mut css = String::new();

        css.append(self.background.as_css().as_str());
        css.append(self.primary.as_css().as_str());
        css.append(self.secondary.as_css().as_str());

        css.append("/* Accent CSS */\n* {\n  background-image: none;\n");
        declare(&mut css, "outline-color", &self.accent.accent);
        css.append("}\n\nbutton.suggested-action {\n");
        declare(&mut css, "background-color", &self.accent.suggested.default);
        declare(&mut css, "color", &self.accent.suggested.text);

        css.append("}\n\nbutton.destructive-action {\n");
        declare(&mut css, "background-color", &self.destructive.destructive.default);
        declare(&mut css, "outline-color", &self.destructive.destructive.default);
        declare(&mut css, "color", &self.destructive.destructive.text);
        css.append("}\n");
        assert(css@ =~= self.css());
        css
    }
}

} // verus!
