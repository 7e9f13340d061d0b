//! What one frame declares: the entries of the menu bar and the widgets of
//! the central region, in the order in which they are laid out.

use vstd::prelude::*;
use crate::decimal::Decimal;
use crate::model::{AppView, SLIDER_MAX_THOUSANDTHS, SLIDER_MIN_THOUSANDTHS};
use crate::state::TemplateApp;
use crate::target::Target;

verus! {

/// Side of the square that the circle is drawn in, in logical units.
pub const CIRCLE_BOX_SIDE: u32 = 16;

/// Width of the circle's outline, in logical units.
pub const CIRCLE_STROKE_WIDTH: u32 = 1;

/// An entry of the menu bar.
#[derive(Clone, Copy, Debug, PartialEq, Eq, Structural)]
pub enum MenuItem {
    /// The action "Quit" of the menu "File", which asks the runtime to
    /// close the application.
    Quit,
    /// The switch between the light, the dark and the system's theme. The
    /// runtime draws it and acts on it.
    ThemePreference,
}

/// An opaque colour, by its red, green and blue parts.
#[derive(Clone, Copy, Debug, PartialEq, Eq, Structural)]
pub struct Color {
    pub red: u8,
    pub green: u8,
    pub blue: u8,
}

/// A circle drawn as an outline in the middle of a square box. All lengths
/// are in logical units.
#[derive(Clone, Copy, Debug, PartialEq, Eq, Structural)]
pub struct CircleOutline {
    /// Side of the box that is set aside for the circle.
    pub box_side: u32,
    /// Radius of the circle.
    pub radius: u32,
    /// Width of the outline.
    pub stroke_width: u32,
    /// Colour of the outline.
    pub stroke_color: Color,
}

/// A widget of the central region.
#[derive(Debug, PartialEq, Eq)]
pub enum Widget {
    /// The heading.
    Heading,
    /// The circle: an ornament that answers to nothing.
    Circle(CircleOutline),
    /// The single-line text field, showing the label.
    LabelField(String),
    /// The slider, showing the value on a scale from `low` to `high`.
    ValueSlider { value: Decimal, low: Decimal, high: Decimal },
    /// The button "Increment".
    IncrementButton,
    /// The warning that this is a debug build, at the bottom of the region.
    DebugWarning,
}

/// The model of a [`Widget`].
pub enum WidgetView {
    Heading,
    Circle(CircleOutline),
    LabelField(Seq<char>),
    ValueSlider { value: int, low: int, high: int },
    IncrementButton,
    DebugWarning,
}

impl View for Widget {
    type V = WidgetView;

    open spec fn view(&self) -> WidgetView {
        match self {
            Widget::Heading => WidgetView::Heading,
            Widget::Circle(outline) => WidgetView::Circle(*outline),
            Widget::LabelField(text) => WidgetView::LabelField(text@),
            Widget::ValueSlider { value, low, high } => WidgetView::ValueSlider {
                value: value@,
                low: low@,
                high: high@,
            },
            Widget::IncrementButton => WidgetView::IncrementButton,
            Widget::DebugWarning => WidgetView::DebugWarning,
        }
    }
}

/// What one frame declares.
#[derive(Debug, PartialEq, Eq)]
pub struct Frame {
    /// The entries of the menu bar, from left to right.
    pub menu: Vec<MenuItem>,
    /// The widgets of the central region, from left to right.
    pub content: Vec<Widget>,
}

/// The model of a [`Frame`].
pub struct FrameView {
    pub menu: Seq<MenuItem>,
    pub content: Seq<WidgetView>,
}

impl View for Frame {
    type V = FrameView;

    open spec fn view(&self) -> FrameView {
        FrameView {
            menu: self.menu@,
            content: self.content@.map_values(|widget: Widget| widget@),
        }
    }
}

/// White.
pub open spec fn white() -> Color {
    Color { red: 255, green: 255, blue: 255 }
}

/// The circle that fits a box of the given side: its radius is half the
/// side less one unit, and never below zero. Its outline is white and one
/// unit wide.
pub open spec fn circle_within(box_side: u32) -> CircleOutline {
    CircleOutline {
        box_side,
        radius: if box_side / 2 >= 1 {
            (box_side / 2 - 1) as u32
        } else {
            0
        },
        stroke_width: CIRCLE_STROKE_WIDTH,
        stroke_color: white(),
    }
}

/// The text shown on a menu entry, where the application sets one.
pub open spec fn menu_caption(item: MenuItem) -> Option<Seq<char>> {
    match item {
        MenuItem::Quit => Some("Quit"@),
        MenuItem::ThemePreference => None,
    }
}

/// The title of the menu that holds an entry, where it lies in one.
pub open spec fn menu_title(item: MenuItem) -> Option<Seq<char>> {
    match item {
        MenuItem::Quit => Some("File"@),
        MenuItem::ThemePreference => None,
    }
}

/// The text shown with a widget, where the application sets one.
pub open spec fn widget_caption(widget: WidgetView) -> Option<Seq<char>> {
    match widget {
        WidgetView::Heading => Some("Electricity"@),
        WidgetView::Circle(_) => None,
        WidgetView::LabelField(_) => Some("we fixed it: "@),
        WidgetView::ValueSlider { .. } => Some("value"@),
        WidgetView::IncrementButton => Some("Increment"@),
        WidgetView::DebugWarning => None,
    }
}

/// The model of an optional text.
pub open spec fn text_view(text: Option<&str>) -> Option<Seq<char>> {
    match text {
        Some(text) => Some(text@),
        None => None,
    }
}

/// The menu bar on a target: "Quit" first, where the target can exit at
/// all, then the theme switch.
pub open spec fn menu_of(target: Target) -> Seq<MenuItem> {
    if target.supports_process_exit {
        seq![MenuItem::Quit, MenuItem::ThemePreference]
    } else {
        seq![MenuItem::ThemePreference]
    }
}

/// The widgets that every frame declares, from left to right: the heading,
/// the circle, the text field with the label, the slider with the value on
/// its scale from 0.0 to 10.0, and the button.
pub open spec fn widgets_of(state: AppView) -> Seq<WidgetView> {
    seq![
        WidgetView::Heading,
        WidgetView::Circle(circle_within(CIRCLE_BOX_SIDE)),
        WidgetView::LabelField(state.label),
        WidgetView::ValueSlider {
            value: state.value,
            low: SLIDER_MIN_THOUSANDTHS as int,
            high: SLIDER_MAX_THOUSANDTHS as int,
        },
        WidgetView::IncrementButton,
    ]
}

/// The central region for a state on a target: the widgets of every frame
/// and, in a debug build, the warning after them.
pub open spec fn content_of(state: AppView, target: Target) -> Seq<WidgetView> {
    if target.debug_build {
        widgets_of(state).push(WidgetView::DebugWarning)
    } else {
        widgets_of(state)
    }
}

/// The frame for a state on a target.
pub open spec fn frame_of(state: AppView, target: Target) -> FrameView {
    FrameView { menu: menu_of(target), content: content_of(state, target) }
}

impl MenuItem {
    /// The text shown on this entry, where the application sets one.
    pub fn caption(&self) -> (text: Option<&'static str>)
        ensures
            text_view(text) == menu_caption(*self),
    {
        match self {
            MenuItem::Quit => Some("Quit"),
            MenuItem::ThemePreference => None,
        }
    }

    /// The title of the menu that holds this entry, where it lies in one.
    pub fn menu(&self) -> (title: Option<&'static str>)
        ensures
            text_view(title) == menu_title(*self),
    {
        match self {
            MenuItem::Quit => Some("File"),
            MenuItem::ThemePreference => None,
        }
    }
}

impl CircleOutline {
    /// The circle that fits a box of the given side.
    pub fn within(box_side: u32) -> (outline: CircleOutline)
        ensures
            outline == circle_within(box_side),
    {
        let half: u32 = box_side / 2;
        let radius: u32 = if half >= 1 {
            half - 1
        } else {
            0
        };
        CircleOutline {
            box_side,
            radius,
            stroke_width: CIRCLE_STROKE_WIDTH,
            stroke_color: Color { red: 255, green: 255, blue: 255 },
        }
    }
}

impl Widget {
    /// The text shown with this widget, where the application sets one.
    pub fn caption(&self) -> (text: Option<&'static str>)
        ensures
            text_view(text) == widget_caption(self@),
    {
        match self {
            Widget::Heading => Some("Electricity"),
            Widget::Circle(_) => None,
            Widget::LabelField(_) => Some("we fixed it: "),
            Widget::ValueSlider { .. } => Some("value"),
            Widget::IncrementButton => Some("Increment"),
            Widget::DebugWarning => None,
        }
    }
}

impl TemplateApp {
    /// What the frame for this state declares on the given target.
    ///
    /// The state is only read: the text field and the slider show the label
    /// and the value as they are, the value also where it lies beyond the
    /// slider's scale. The menu bar holds "Quit" exactly where the target
    /// can exit, and the central region ends with the debug warning exactly
    /// in a debug build.
    pub fn frame(&self, target: &Target) -> (frame: Frame)
        ensures
            frame@ == frame_of(self@, *target),
            frame@.menu.contains(MenuItem::Quit) <==> target.supports_process_exit,
            frame@.content.contains(WidgetView::DebugWarning) <==> target.debug_build,
    {
        let mut menu: Vec<MenuItem> = Vec::new();
        if target.supports_process_exit {
            menu.push(MenuItem::Quit);
        }
        menu.push(MenuItem::ThemePreference);

        let mut content: Vec<Widget> = Vec::new();
        content.push(Widget::Heading);
        content.push(Widget::Circle(CircleOutline::within(CIRCLE_BOX_SIDE)));
        content.push(Widget::LabelField(self.label().to_owned()));
        content.push(
            Widget::ValueSlider {
                value: self.value(),
                low: Decimal::from_thousandths(SLIDER_MIN_THOUSANDTHS),
                high: Decimal::from_thousandths(SLIDER_MAX_THOUSANDTHS),
            },
        );
        content.push(Widget::IncrementButton);
        if target.debug_build {
            content.push(Widget::DebugWarning);
        }
        let frame = Frame { menu, content };
        proof {
            assert(frame@.menu =~= menu_of(*target));
            assert(frame@.content =~= content_of(self@, *target));
            lemma_menu_holds_quit(*target);
            lemma_content_holds_warning(self@, *target);
        }
        frame
    }
}

/// The menu bar holds "Quit" exactly on a target that can exit.
pub proof fn lemma_menu_holds_quit(target: Target)
    ensures
        menu_of(target).contains(MenuItem::Quit) <==> target.supports_process_exit,
{
    if target.supports_process_exit {
        assert(menu_of(target)[0] == MenuItem::Quit);
    }
}

/// The central region holds the debug warning exactly in a debug build.
pub proof fn lemma_content_holds_warning(state: AppView, target: Target)
    ensures
        content_of(state, target).contains(WidgetView::DebugWarning) <==> target.debug_build,
{
    if target.debug_build {
        assert(content_of(state, target)[5] == WidgetView::DebugWarning);
    }
}

} // verus!
