//! The groups of colours that make up a theme, and how each is derived.

use vstd::prelude::*;
use vstd::string::StringExecFns;
use crate::color_picker::{
    all_noted, graphic_pick, note, note_all, noted, text_pick, ColorPicker, Diagnostic, Label,
};
use crate::model::constraint::ThemeConstraints;
use crate::model::selection::Selection;
use crate::scalar::Scalar;
use crate::util::{hex, hex_from_rgba, Rgba8, SRGBA};

verus! {

/// The encoding of 0.5, the alpha of what is disabled.
pub const HALF: u32 = 0x3f00_0000;

/// The encoding of 0.8, the alpha of subdued text.
pub const FOUR_FIFTHS: u32 = 0x3f4c_cccd;

/// The encoding of 0.1: the step in lightness, as a part of the whole scale,
/// from a default fill to its hover fill and from there to its pressed fill.
pub const STEP: u32 = 0x3dcc_cccd;

/// Which of the three containers of a theme.
#[derive(Clone, Copy, Debug, PartialEq, Eq, Structural)]
pub enum ContainerType {
    Background,
    Primary,
    Secondary,
}

impl ContainerType {
    /// The name of the container in diagnostics.
    pub open spec fn name(self) -> Seq<char> {
        match self {
            ContainerType::Background => "Background"@,
            ContainerType::Primary => "Primary Container"@,
            ContainerType::Secondary => "Secondary Container"@,
        }
    }

    /// The name of the container in diagnostics.
    pub fn to_string(&self) -> (s: String)
        ensures
            s@ == self.name(),
    {
        match self {
            ContainerType::Background => "Background".to_owned(),
            ContainerType::Primary => "Primary Container".to_owned(),
            ContainerType::Secondary => "Secondary Container".to_owned(),
        }
    }
}

impl Default for ContainerType {
    fn default() -> (t: ContainerType)
        ensures
            t == ContainerType::Background,
    {
        ContainerType::Background
    }
}

/// The fills of a widget in its states, and what lies on them.
#[derive(Clone, Copy, Debug, PartialEq, Default)]
pub struct Widget<C> {
    pub default: C,
    pub hover: C,
    pub pressed: C,
    pub focused: C,
    pub divider: C,
    pub text: C,
    pub text_opacity_80: C,
    pub disabled: C,
    pub disabled_text: C,
}

/// What the host is asked for the shades of: a default fill, the direction
/// in which its shades leave it, and the step between one and the next, as a
/// part of the whole scale of lightness.
#[derive(Clone, Copy, Debug, PartialEq, Eq, Structural)]
pub struct ShadeRequest {
    pub color: SRGBA,
    pub lighten: bool,
    pub step: Scalar,
}

/// The hover and pressed fills that belong to a default fill.
///
/// Hover is the default fill moved by one step in LCH lightness, towards
/// light or towards dark; pressed is hover moved once more by as much. The
/// move is arithmetic on real numbers, so the host makes it, as a
/// [`ShadeRequest`] says.
#[derive(Clone, Copy, Debug, PartialEq, Eq, Structural)]
pub struct Shades {
    pub hover: SRGBA,
    pub pressed: SRGBA,
}

impl Shades {
    /// The request for the shades of a default fill under the constraints:
    /// in the direction of the constraints, by [`STEP`].
    pub open spec fn spec_request(default: SRGBA, constraints: ThemeConstraints) -> ShadeRequest {
        ShadeRequest { color: default, lighten: constraints.lighten, step: Scalar { bits: STEP } }
    }

    /// The request for the shades of a default fill under the constraints.
    #[verifier::when_used_as_spec(spec_request)]
    pub fn request(default: SRGBA, constraints: ThemeConstraints) -> (r: ShadeRequest)
        ensures
            r == Shades::spec_request(default, constraints),
    {
        ShadeRequest { color: default, lighten: constraints.lighten, step: Scalar::from_bits(STEP) }
    }
}

/// A widget and what went wrong on the way to it.
#[derive(Debug)]
pub struct WidgetDerivation {
    pub widget: Widget<SRGBA>,
    pub errors: Vec<Diagnostic>,
}

impl WidgetDerivation {
    /// The divider of a widget with the given pressed fill, and what came
    /// with it: a graphic at the divider contrast from the pressed fill, in
    /// the direction of the constraints.
    pub open spec fn divider<T: ColorPicker>(
        pressed: SRGBA,
        constraints: ThemeConstraints,
        picker: &T,
    ) -> (SRGBA, Option<Diagnostic>) {
        graphic_pick(
            picker,
            pressed,
            constraints.divider_contrast_ratio,
            constraints.divider_gray_scale,
            Some(constraints.lighten),
        )
    }

    /// The text of a widget with the given pressed fill, and what came with
    /// it: gray text on the pressed fill, lighter or darker.
    pub open spec fn text<T: ColorPicker>(pressed: SRGBA, picker: &T) -> (
        SRGBA,
        Option<Diagnostic>,
    ) {
        text_pick(picker, pressed, true, None)
    }

    /// The widget with the given default fill and shades.
    pub open spec fn widget<T: ColorPicker>(
        default: SRGBA,
        shades: Shades,
        constraints: ThemeConstraints,
        picker: &T,
    ) -> Widget<SRGBA> {
        let text = Self::text(shades.pressed, picker).0;
        Widget {
            default,
            hover: shades.hover,
            pressed: shades.pressed,
            focused: default,
            divider: Self::divider(shades.pressed, constraints, picker).0,
            text,
            text_opacity_80: text.with_alpha(Scalar { bits: FOUR_FIFTHS }),
            disabled: default.with_alpha(Scalar { bits: HALF }),
            disabled_text: text.with_alpha(Scalar { bits: HALF }),
        }
    }

    /// What goes wrong on the way to that widget: what came with the
    /// divider, then what came with the text.
    pub open spec fn errors<T: ColorPicker>(
        shades: Shades,
        constraints: ThemeConstraints,
        picker: &T,
    ) -> Seq<Diagnostic> {
        noted(Label::WidgetDivider, Self::divider(shades.pressed, constraints, picker).1) + noted(
            Label::WidgetText,
            Self::text(shades.pressed, picker).1,
        )
    }

    /// Derives the states of a widget from its default fill, the shades of
    /// that fill, and the constraints. Always gives a widget.
    pub fn from<T: ColorPicker>(args: (SRGBA, Shades, ThemeConstraints, &T)) -> (r:
        WidgetDerivation)
        ensures
            r.widget == WidgetDerivation::widget(args.0, args.1, args.2, args.3),
            r.errors@ == WidgetDerivation::errors(args.1, args.2, args.3),
    {
        let (default, shades, constraints, picker) = args;
        let mut errors: Vec<Diagnostic> = Vec::new();

        let hover = shades.hover;
        let pressed = shades.pressed;
        let focused = default;
        let disabled = default.with_alpha(Scalar::from_bits(HALF));

        let (divider, error) = picker.pick_color_graphic(
            pressed,
            constraints.divider_contrast_ratio,
            constraints.divider_gray_scale,
            Some(constraints.lighten),
        );
        note(&mut errors, Label::WidgetDivider, error);

        let (text, error) = picker.pick_color_text(pressed, true, None);
        note(&mut errors, Label::WidgetText, error);

        let text_opacity_80 = text.with_alpha(Scalar::from_bits(FOUR_FIFTHS));
        let disabled_text = text.with_alpha(Scalar::from_bits(HALF));

        WidgetDerivation {
            widget: Widget {
                default,
                hover,
                pressed,
                focused,
                divider,
                text,
                text_opacity_80,
                disabled,
                disabled_text,
            },
            errors,
        }
    }
}

/// A surface, what lies on it, and the component drawn on top of it.
#[derive(Clone, Copy, Debug, PartialEq, Default)]
pub struct Container<C> {
    pub prefix: ContainerType,
    pub container: C,
    pub container_component: Widget<C>,
    pub container_divider: C,
    pub container_text: C,
    pub container_text_opacity_80: C,
}

/// A container and what went wrong on the way to it.
#[derive(Debug)]
pub struct ContainerDerivation {
    pub container: Container<SRGBA>,
    pub errors: Vec<Diagnostic>,
}

impl ContainerDerivation {
    /// The seed colour of a container.
    pub open spec fn seed(selection: Selection, container_type: ContainerType) -> SRGBA {
        match container_type {
            ContainerType::Background => selection.background,
            ContainerType::Primary => selection.primary_container,
            ContainerType::Secondary => selection.secondary_container,
        }
    }

    /// The divider of a surface and what came with it: a graphic at the
    /// divider contrast from the surface, in the direction of the constraints.
    pub open spec fn divider<T: ColorPicker>(
        surface: SRGBA,
        constraints: ThemeConstraints,
        picker: &T,
    ) -> (SRGBA, Option<Diagnostic>) {
        graphic_pick(
            picker,
            surface,
            constraints.divider_contrast_ratio,
            constraints.divider_gray_scale,
            Some(constraints.lighten),
        )
    }

    /// The text on a surface and what came with it: gray text, lighter or darker.
    pub open spec fn text<T: ColorPicker>(surface: SRGBA, picker: &T) -> (
        SRGBA,
        Option<Diagnostic>,
    ) {
        text_pick(picker, surface, true, None)
    }

    /// The default fill of the component on a surface and what came with
    /// it: a graphic at the elevated contrast from the surface, with its
    /// chroma, in the direction of the constraints.
    pub open spec fn component<T: ColorPicker>(
        surface: SRGBA,
        constraints: ThemeConstraints,
        picker: &T,
    ) -> (SRGBA, Option<Diagnostic>) {
        graphic_pick(
            picker,
            surface,
            constraints.elevated_contrast_ratio,
            false,
            Some(constraints.lighten),
        )
    }

    /// The default fill of the component of a container: the colour whose
    /// shades the derivation of the container takes.
    pub open spec fn spec_component_default<T: ColorPicker>(
        selection: Selection,
        constraints: ThemeConstraints,
        picker: &T,
        container_type: ContainerType,
    ) -> SRGBA {
        Self::component(Self::seed(selection, container_type), constraints, picker).0
    }

    /// The container of the given type.
    pub open spec fn container<T: ColorPicker>(
        selection: Selection,
        shades: Shades,
        constraints: ThemeConstraints,
        picker: &T,
        container_type: ContainerType,
    ) -> Container<SRGBA> {
        let surface = Self::seed(selection, container_type);
        let text = Self::text(surface, picker).0;
        Container {
            prefix: container_type,
            container: surface,
            container_component: WidgetDerivation::widget(
                Self::component(surface, constraints, picker).0,
                shades,
                constraints,
                picker,
            ),
            container_divider: Self::divider(surface, constraints, picker).0,
            container_text: text,
            container_text_opacity_80: text.with_alpha(Scalar { bits: FOUR_FIFTHS }),
        }
    }

    /// What goes wrong on the way to that container, each marked with the
    /// type of the container: what came with the divider, with the text and
    /// with the default fill of the component, then what went wrong on the
    /// way to the states of the component.
    pub open spec fn errors<T: ColorPicker>(
        selection: Selection,
        shades: Shades,
        constraints: ThemeConstraints,
        picker: &T,
        container_type: ContainerType,
    ) -> Seq<Diagnostic> {
        let surface = Self::seed(selection, container_type);
        noted(
            Label::ContainerDivider(container_type),
            Self::divider(surface, constraints, picker).1,
        ) + noted(Label::ContainerText(container_type), Self::text(surface, picker).1) + noted(
            Label::ContainerComponent(container_type),
            Self::component(surface, constraints, picker).1,
        ) + all_noted(
            Label::ContainerComponentDerivation(container_type),
            WidgetDerivation::errors(shades, constraints, picker),
        )
    }

    /// The default fill of the component of a container. Its shades are
    /// what [`ContainerDerivation::from`] takes.
    pub fn component_default<T: ColorPicker>(
        args: (Selection, ThemeConstraints, &T, ContainerType),
    ) -> (c: SRGBA)
        ensures
            c == ContainerDerivation::spec_component_default(args.0, args.1, args.2, args.3),
    {
        let (selection, constraints, picker, container_type) = args;
        let container = match container_type {
            ContainerType::Background => selection.background,
            ContainerType::Primary => selection.primary_container,
            ContainerType::Secondary => selection.secondary_container,
        };
        let (component_default, _) = picker.pick_color_graphic(
            container,
            constraints.elevated_contrast_ratio,
            false,
            Some(constraints.lighten),
        );
        component_default
    }

    /// Derives a container from its seed colour, the shades of the default
    /// fill of its component, and the constraints. Always gives a container.
    pub fn from<T: ColorPicker>(
        args: (Selection, Shades, ThemeConstraints, &T, ContainerType),
    ) -> (r: ContainerDerivation)
        ensures
            r.container == ContainerDerivation::container(
                args.0,
                args.1,
                args.2,
                args.3,
                args.4,
            ),
            r.errors@ == ContainerDerivation::errors(args.0, args.1, args.2, args.3, args.4),
    {
        let (selection, shades, constraints, picker, container_type) = args;
        let mut errors: Vec<Diagnostic> = Vec::new();

        let container = match container_type {
            ContainerType::Background => selection.background,
            ContainerType::Primary => selection.primary_container,
            ContainerType::Secondary => selection.secondary_container,
        };

        let (container_divider, err) = picker.pick_color_graphic(
            container,
            constraints.divider_contrast_ratio,
            constraints.divider_gray_scale,
            Some(constraints.lighten),
        );
        note(&mut errors, Label::ContainerDivider(container_type), err);

        let (container_text, err) = picker.pick_color_text(container, true, None);
        note(&mut errors, Label::ContainerText(container_type), err);

        let container_text_opacity_80 = container_text.with_alpha(Scalar::from_bits(FOUR_FIFTHS));

        let (component_default, err) = picker.pick_color_graphic(
            container,
            constraints.elevated_contrast_ratio,
            false,
            Some(constraints.lighten),
        );
        note(&mut errors, Label::ContainerComponent(container_type), err);

        let WidgetDerivation { widget: container_component, errors: errs } = WidgetDerivation::from(
            (component_default, shades, constraints, picker),
        );
        note_all(&mut errors, Label::ContainerComponentDerivation(container_type), errs);

        ContainerDerivation {
            container: Container {
                prefix: container_type,
                container,
                container_divider,
                container_text,
                container_text_opacity_80,
                container_component,
            },
            errors,
        }
    }
}

/// The accent colour, what is drawn in it, and the suggested action.
#[derive(Clone, Copy, Debug, PartialEq, Default)]
pub struct Accent<C> {
    pub accent: C,
    pub accent_text: C,
    pub accent_nav_handle_text: C,
    pub suggested: Widget<C>,
}

/// An accent group and what went wrong on the way to it.
#[derive(Debug)]
pub struct AccentDerivation {
    pub accent: Accent<SRGBA>,
    pub errors: Vec<Diagnostic>,
}

impl AccentDerivation {
    /// `chosen` if there is one, else `accent`.
    pub open spec fn or_accent(chosen: Option<SRGBA>, accent: SRGBA) -> SRGBA {
        match chosen {
            Some(c) => c,
            None => accent,
        }
    }

    /// The accent group of a selection.
    pub open spec fn accent<T: ColorPicker>(
        selection: Selection,
        shades: Shades,
        constraints: ThemeConstraints,
        picker: &T,
    ) -> Accent<SRGBA> {
        Accent {
            accent: selection.accent,
            accent_text: Self::or_accent(selection.accent_text, selection.accent),
            accent_nav_handle_text: Self::or_accent(
                selection.accent_nav_handle_text,
                selection.accent,
            ),
            suggested: WidgetDerivation::widget(selection.accent, shades, constraints, picker),
        }
    }

    /// What goes wrong on the way to that group: what went wrong on the way
    /// to the suggested action, each marked as such.
    pub open spec fn errors<T: ColorPicker>(
        shades: Shades,
        constraints: ThemeConstraints,
        picker: &T,
    ) -> Seq<Diagnostic> {
        all_noted(
            Label::AccentComponentDerivation,
            WidgetDerivation::errors(shades, constraints, picker),
        )
    }

    /// Derives the accent group from the accent colour, its shades, and the
    /// constraints. Always gives a group.
    pub fn from<T: ColorPicker>(args: (Selection, Shades, ThemeConstraints, &T)) -> (r:
        AccentDerivation)
        ensures
            r.accent == AccentDerivation::accent(args.0, args.1, args.2, args.3),
            r.errors@ == AccentDerivation::errors(args.1, args.2, args.3),
    {
        let (selection, shades, constraints, picker) = args;
        let accent = selection.accent;
        let mut errors: Vec<Diagnostic> = Vec::new();

        let WidgetDerivation { widget: suggested, errors: errs } = WidgetDerivation::from(
            (accent, shades, constraints, picker),
        );
        note_all(&mut errors, Label::AccentComponentDerivation, errs);

        let accent_text = match selection.accent_text {
            Some(c) => c,
            None => accent,
        };
        let accent_nav_handle_text = match selection.accent_nav_handle_text {
            Some(c) => c,
            None => accent,
        };

        AccentDerivation {
            accent: Accent { accent, accent_text, accent_nav_handle_text, suggested },
            errors,
        }
    }
}

/// The destructive action.
#[derive(Clone, Copy, Debug, PartialEq, Default)]
pub struct Destructive<C> {
    pub destructive: Widget<C>,
}

/// A destructive group and what went wrong on the way to it.
#[derive(Debug)]
pub struct DestructiveDerivation {
    pub destructive: Destructive<SRGBA>,
    pub errors: Vec<Diagnostic>,
}

impl DestructiveDerivation {
    /// The destructive group of a selection.
    pub open spec fn destructive<T: ColorPicker>(
        selection: Selection,
        shades: Shades,
        constraints: ThemeConstraints,
        picker: &T,
    ) -> Destructive<SRGBA> {
        Destructive {
            destructive: WidgetDerivation::widget(
                selection.destructive,
                shades,
                constraints,
                picker,
            ),
        }
    }

    /// What goes wrong on the way to that group: what went wrong on the way
    /// to the destructive action, each marked as such.
    pub open spec fn errors<T: ColorPicker>(
        shades: Shades,
        constraints: ThemeConstraints,
        picker: &T,
    ) -> Seq<Diagnostic> {
        all_noted(
            Label::DestructiveComponentDerivation,
            WidgetDerivation::errors(shades, constraints, picker),
        )
    }

    /// Derives the destructive group from the destructive colour, its
    /// shades, and the constraints. Always gives a group.
    pub fn from<T: ColorPicker>(args: (Selection, Shades, ThemeConstraints, &T)) -> (r:
        DestructiveDerivation)
        ensures
            r.destructive == DestructiveDerivation::destructive(
                args.0,
                args.1,
                args.2,
                args.3,
            ),
            r.errors@ == DestructiveDerivation::errors(args.1, args.2, args.3),
    {
        let (selection, shades, constraints, picker) = args;
        let mut errors: Vec<Diagnostic> = Vec::new();

        let WidgetDerivation { widget: destructive, errors: errs } = WidgetDerivation::from(
            (selection.destructive, shades, constraints, picker),
        );
        note_all(&mut errors, Label::DestructiveComponentDerivation, errs);

        DestructiveDerivation { destructive: Destructive { destructive }, errors }
    }
}

/// A widget takes two picks, a container three more, and each leaves one
/// diagnostic at most.
pub proof fn errors_are_few<T: ColorPicker>(
    selection: Selection,
    shades: Shades,
    constraints: ThemeConstraints,
    picker: &T,
    container_type: ContainerType,
)
    ensures
        WidgetDerivation::errors(shades, constraints, picker).len() <= 2,
        ContainerDerivation::errors(selection, shades, constraints, picker, container_type).len()
            <= 5,
        AccentDerivation::errors(shades, constraints, picker).len() <= 2,
        DestructiveDerivation::errors(shades, constraints, picker).len() <= 2,
{
}

/// Where the picker reaches every contrast it is asked for, nothing goes
/// wrong on the way to a widget, a container, or an action.
pub proof fn no_errors_where_every_contrast_is_reached<T: ColorPicker>(
    selection: Selection,
    shades: Shades,
    constraints: ThemeConstraints,
    picker: &T,
    container_type: ContainerType,
)
    requires
        forall|color: SRGBA, contrast: Scalar, grayscale: bool, lighten: Option<bool>|
            (#[trigger] picker.picked(color, Some(contrast), grayscale, lighten)) is Ok,
    ensures
        WidgetDerivation::errors(shades, constraints, picker) =~= Seq::empty(),
        ContainerDerivation::errors(selection, shades, constraints, picker, container_type)
            =~= Seq::empty(),
        AccentDerivation::errors(shades, constraints, picker) =~= Seq::empty(),
        DestructiveDerivation::errors(shades, constraints, picker) =~= Seq::empty(),
{
}

/// What can be written as rules of a stylesheet.
pub trait AsCss {
    /// The rules as text.
    spec fn css(&self) -> Seq<char>;

    /// The rules as text.
    fn as_css(&self) -> (s: String)
        ensures
            s@ == self.css(),
    ;
}

/// One declaration in a rule: two spaces, the property, a colon, the colour
/// and a semicolon, on a line of its own.
pub open spec fn declaration(property: Seq<char>, color: Rgba8) -> Seq<char> {
    "  "@ + property + ": "@ + hex(color) + ";\n"@
}

/// The rule for one state of the widgets of a class: its fill, its outline
/// in the default fill if `outlined`, its text, rounded corners and a border
/// in the default fill; then an empty line.
pub open spec fn state_rule(
    class: Seq<char>,
    state: Seq<char>,
    fill: Rgba8,
    outlined: bool,
    widget: Widget<Rgba8>,
) -> Seq<char> {
    "*."@ + class + state + " {\n"@ + declaration("background-color"@, fill) + (if outlined {
        declaration("outline-color"@, widget.default)
    } else {
        Seq::<char>::empty()
    }) + declaration("color"@, widget.text) + "  border-radius: 8px;\n"@ + declaration(
        "border-color"@,
        widget.default,
    ) + "}\n\n"@
}

/// The rules for the widgets of a class in each state: default, hover, the
/// state named `selected`, active and disabled.
pub open spec fn widget_rules(class: Seq<char>, selected: Seq<char>, widget: Widget<Rgba8>) -> Seq<
    char,
> {
    state_rule(class, Seq::<char>::empty(), widget.default, false, widget) + state_rule(
        class,
        ":hover"@,
        widget.hover,
        false,
        widget,
    ) + state_rule(class, selected, widget.focused, true, widget) + state_rule(
        class,
        ":active"@,
        widget.pressed,
        false,
        widget,
    ) + state_rule(class, ":disabled"@, widget.disabled, false, widget)
}

/// The rule for the dividers of a class, without an empty line after it.
pub open spec fn divider_rule(prefix: Seq<char>, fill: Rgba8) -> Seq<char> {
    "*."@ + prefix + "-divider {\n"@ + declaration("background-color"@, fill) + "}\n"@
}

/// Appends a declaration to a stylesheet.
pub fn declare(css: &mut String, property: &str, color: &Rgba8)
    ensures
        final(css)@ == old(css)@ + declaration(property@, *color),
{
    let value = hex_from_rgba(color);
    css.append("  ");
    css.append(property);
    css.append(": ");
    css.append(value.as_str());
    css.append(";\n");
    assert(css@ =~= old(css)@ + declaration(property@, *color));
}

/// Appends the rule for one state of the widgets of a class to a stylesheet.
pub fn write_state_rule(
    css: &mut String,
    class: &str,
    state: &str,
    fill: &Rgba8,
    outlined: bool,
    widget: &Widget<Rgba8>,
)
    ensures
        final(css)@ == old(css)@ + state_rule(class@, state@, *fill, outlined, *widget),
{
    css.append("*.");
    css.append(class);
    css.append(state);
    css.append(" {\n");
    declare(css, "background-color", fill);
    if outlined {
        declare(css, "outline-color", &widget.default);
    }
    declare(css, "color", &widget.text);
    css.append("  border-radius: 8px;\n");
    declare(css, "border-color", &widget.default);
    css.append("}\n\n");
    assert(css@ =~= old(css)@ + state_rule(class@, state@, *fill, outlined, *widget));
}

/// Appends the rules for the widgets of a class in each state to a stylesheet.
pub fn write_widget_rules(css: &mut String, class: &str, selected: &str, widget: &Widget<Rgba8>)
    ensures
        final(css)@ == old(css)@ + widget_rules(class@, selected@, *widget),
{
    proof {
        reveal_strlit("");
        assert(""@ =~= Seq::<char>::empty());
    }
    write_state_rule(css, class, "", &widget.default, false, widget);
    write_state_rule(css, class, ":hover", &widget.hover, false, widget);
    write_state_rule(css, class, selected, &widget.focused, true, widget);
    write_state_rule(css, class, ":active", &widget.pressed, false, widget);
    write_state_rule(css, class, ":disabled", &widget.disabled, false, widget);
    assert(css@ =~= old(css)@ + widget_rules(class@, selected@, *widget));
}

/// Appends the rule for the dividers of a class to a stylesheet.
pub fn write_divider_rule(css: &mut String, prefix: &str, fill: &Rgba8)
    ensures
        final(css)@ == old(css)@ + divider_rule(prefix@, *fill),
{
    css.append("*.");
    css.append(prefix);
    css.append("-divider {\n");
    declare(css, "background-color", fill);
    css.append("}\n");
    assert(css@ =~= old(css)@ + divider_rule(prefix@, *fill));
}

impl ContainerType {
    /// The name of the container in class names.
    pub open spec fn spec_class(self) -> Seq<char> {
        match self {
            ContainerType::Background => "background"@,
            ContainerType::Primary => "primary-container"@,
            ContainerType::Secondary => "secondary-container"@,
        }
    }

    /// What rounds the corners of the container; the background has none.
    pub open spec fn spec_corners(self) -> Seq<char> {
        match self {
            ContainerType::Background => ""@,
            _ => "border-radius: 8px;"@,
        }
    }

    /// The name of the container in class names.
    pub fn class(self) -> (name: &'static str)
        ensures
            name@ == self.spec_class(),
    {
        match self {
            ContainerType::Background => "background",
            ContainerType::Primary => "primary-container",
            ContainerType::Secondary => "secondary-container",
        }
    }

    /// What rounds the corners of the container; the background has none.
    pub fn corners(self) -> (declaration: &'static str)
        ensures
            declaration@ == self.spec_corners(),
    {
        match self {
            ContainerType::Background => "",
            _ => "border-radius: 8px;",
        }
    }
}

impl AsCss for Container<Rgba8> {
    /// A heading; the rule for the surface, with its fill, its text and its
    /// corners; the rules for its component in each state; the rule for the
    /// dividers on the surface and the rule for the dividers on the
    /// component, both for the same class.
    open spec fn css(&self) -> Seq<char> {
        let class = self.prefix.spec_class();
        "/* "@ + class + " CSS */\n*."@ + class + " {\n"@ + declaration(
            "background-color"@,
            self.container,
        ) + declaration("color"@, self.container_text) + "  "@ + self.prefix.spec_corners()
            + "\n}\n\n"@ + widget_rules(
            class + "-component"@,
            ":selected"@,
            self.container_component,
        ) + divider_rule(class, self.container_divider) + "\n"@ + divider_rule(
            class,
            self.container_component.divider,
        )
    }

    fn as_css(&self) -> (s: String) {
        let class = self.prefix.class();
        let mut component = String::from_str(class);
        component.append("-component");

        let mut css = String::from_str("/* ");
        css.append(class);
        css.append(" CSS */\n*.");
        css.append(class);
        css.append(" {\n");
        declare(&mut css, "background-color", &self.container);
        declare(&mut css, "color", &self.container_text);
        css.append("  ");
        css.append(self.prefix.corners());
        css.append("\n}\n\n");
        write_widget_rules(&mut css, component.as_str(), ":selected", &self.container_component);
        write_divider_rule(&mut css, class, &self.container_divider);
        css.append("\n");
        write_divider_rule(&mut css, class, &self.container_component.divider);
        assert(css@ =~= self.css());
        css
    }
}

impl AsCss for Accent<Rgba8> {
    /// A heading and the rules for the suggested action in each state.
    open spec fn css(&self) -> Seq<char> {
        "/* Suggested CSS */\n"@ + widget_rules(
            "suggested-action"@,
            ":selected"@,
            self.suggested,
        )
    }

    fn as_css(&self) -> (s: String) {
        let mut css = String::from_str("/* Suggested CSS */\n");
        write_widget_rules(&mut css, "suggested-action", ":selected", &self.suggested);
        css
    }
}

impl AsCss for Destructive<Rgba8> {
    /// A heading and the rules for the destructive action in each state.
    open spec fn css(&self) -> Seq<char> {
        "/* Destructive CSS */\n"@ + widget_rules(
            "destructive-action"@,
            ":seleceted"@,
            self.destructive,
        )
    }

    fn as_css(&self) -> (s: String) {
        let mut css = String::from_str("/* Destructive CSS */\n");
        write_widget_rules(&mut css, "destructive-action", ":seleceted", &self.destructive);
        css
    }
}

} // verus!
