use template_app::{
    CircleOutline, Color, Decimal, Event, Frame, MenuItem, PersistedState, Target, TemplateApp,
    Widget,
};

const WHITE: Color = Color { red: 255, green: 255, blue: 255 };

fn slider(thousandths: i64) -> Widget {
    Widget::ValueSlider {
        value: Decimal::from_thousandths(thousandths),
        low: Decimal::from_thousandths(0),
        high: Decimal::from_thousandths(10_000),
    }
}

fn circle() -> Widget {
    Widget::Circle(CircleOutline { box_side: 16, radius: 7, stroke_width: 1, stroke_color: WHITE })
}

#[test]
fn desktop_menu_holds_quit() {
    for debug_build in [false, true] {
        let frame = TemplateApp::default().frame(&Target::native(debug_build));
        assert_eq!(frame.menu, vec![MenuItem::Quit, MenuItem::ThemePreference]);
        assert!(frame.menu.contains(&MenuItem::Quit));
    }
}

#[test]
fn web_menu_never_holds_quit() {
    for debug_build in [false, true] {
        let frame = TemplateApp::default().frame(&Target::web(debug_build));
        assert_eq!(frame.menu, vec![MenuItem::ThemePreference]);
        assert!(!frame.menu.contains(&MenuItem::Quit));
        assert!(frame.menu.iter().all(|item| item.caption() != Some("Quit")));
    }
}

#[test]
fn web_menu_has_no_quit_whatever_the_state() {
    let target = Target::web(false);
    let mut app = TemplateApp::default();
    for _ in 0..20 {
        app.update(&target, Event::IncrementClicked);
        app.update(&target, Event::QuitClicked);
        assert!(!app.frame(&target).menu.contains(&MenuItem::Quit));
    }
}

#[test]
fn release_frame_of_the_default_state() {
    let frame = TemplateApp::default().frame(&Target::native(false));
    assert_eq!(
        frame,
        Frame {
            menu: vec![MenuItem::Quit, MenuItem::ThemePreference],
            content: vec![
                Widget::Heading,
                circle(),
                Widget::LabelField("Hello World!".to_owned()),
                slider(2700),
                Widget::IncrementButton,
            ],
        }
    );
}

#[test]
fn debug_frame_ends_with_the_warning() {
    for target in [Target::native(true), Target::web(true)] {
        let frame = TemplateApp::default().frame(&target);
        assert_eq!(
            frame.content,
            vec![
                Widget::Heading,
                circle(),
                Widget::LabelField("Hello World!".to_owned()),
                slider(2700),
                Widget::IncrementButton,
                Widget::DebugWarning,
            ]
        );
    }
}

#[test]
fn release_frame_has_no_warning() {
    for target in [Target::native(false), Target::web(false)] {
        let frame = TemplateApp::default().frame(&target);
        assert!(!frame.content.contains(&Widget::DebugWarning));
        assert_eq!(frame.content.len(), 5);
    }
}

#[test]
fn frame_shows_the_state_as_it_is() {
    let app = TemplateApp::new(Some(PersistedState {
        label: Some("amps".to_owned()),
        value: Some(Decimal::from_thousandths(6125)),
    }));
    let frame = app.frame(&Target::native(false));
    assert_eq!(frame.content[2], Widget::LabelField("amps".to_owned()));
    assert_eq!(frame.content[3], slider(6125));
}

#[test]
fn frame_shows_a_value_beyond_the_scale() {
    let target = Target::native(false);
    let mut app = TemplateApp::default();
    for _ in 0..9 {
        app.update(&target, Event::IncrementClicked);
    }
    let frame = app.frame(&target);
    assert_eq!(frame.content[3], slider(11_700));
}

#[test]
fn frame_follows_each_interaction() {
    let target = Target::web(false);
    let mut app = TemplateApp::default();
    app.update(&target, Event::LabelEdited("typed".to_owned()));
    app.update(&target, Event::SliderMoved(Decimal::from_thousandths(1500)));
    let frame = app.frame(&target);
    assert_eq!(frame.content[2], Widget::LabelField("typed".to_owned()));
    assert_eq!(frame.content[3], slider(1500));
}

#[test]
fn frame_leaves_the_state_alone() {
    let app = TemplateApp::default();
    let before = app.clone();
    let first = app.frame(&Target::native(true));
    let second = app.frame(&Target::native(true));
    assert_eq!(first, second);
    assert_eq!(app, before);
}

#[test]
fn circle_of_the_frame() {
    let frame = TemplateApp::default().frame(&Target::native(false));
    match &frame.content[1] {
        Widget::Circle(outline) => {
            assert_eq!(outline.box_side, 16);
            assert_eq!(outline.radius, 7);
            assert_eq!(outline.stroke_width, 1);
            assert_eq!(outline.stroke_color, WHITE);
            assert_eq!(outline.radius as f32, 16.0_f32 / 2.0 - 1.0);
        }
        other => panic!("the second widget is {other:?}"),
    }
}

#[test]
fn circle_within_a_box() {
    assert_eq!(CircleOutline::within(16).radius, 7);
    assert_eq!(CircleOutline::within(17).radius, 7);
    assert_eq!(CircleOutline::within(4).radius, 1);
    assert_eq!(CircleOutline::within(3).radius, 0);
    assert_eq!(CircleOutline::within(2).radius, 0);
    assert_eq!(CircleOutline::within(1).radius, 0);
    assert_eq!(CircleOutline::within(0).radius, 0);
    assert_eq!(CircleOutline::within(u32::MAX).radius, u32::MAX / 2 - 1);
    let outline = CircleOutline::within(40);
    assert_eq!(
        outline,
        CircleOutline { box_side: 40, radius: 19, stroke_width: 1, stroke_color: WHITE }
    );
}

#[test]
fn menu_captions() {
    assert_eq!(MenuItem::Quit.caption(), Some("Quit"));
    assert_eq!(MenuItem::Quit.menu(), Some("File"));
    assert_eq!(MenuItem::ThemePreference.caption(), None);
    assert_eq!(MenuItem::ThemePreference.menu(), None);
}

#[test]
fn widget_captions() {
    assert_eq!(Widget::Heading.caption(), Some("Electricity"));
    assert_eq!(circle().caption(), None);
    assert_eq!(Widget::LabelField("anything".to_owned()).caption(), Some("we fixed it: "));
    assert_eq!(slider(1).caption(), Some("value"));
    assert_eq!(Widget::IncrementButton.caption(), Some("Increment"));
    assert_eq!(Widget::DebugWarning.caption(), None);
}
