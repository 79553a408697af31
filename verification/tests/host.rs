//! The host application's state: starts black, replaces its color on
//! every selection message.

use color_wheel::color::Frac;
use color_wheel::color::Rgb;
use color_wheel::color::hsv_to_rgb;
use color_wheel::host::App;
use color_wheel::host::Message;
use color_wheel::widget::PointerEvent;
use color_wheel::widget::Position;
use color_wheel::widget::Rainbow;
use color_wheel::widget::State;

#[test]
fn starts_black() {
    let app = App::default();
    assert_eq!(app.color, Rgb { red: 0, green: 0, blue: 0, den: 1 });
}

#[test]
fn selection_replaces_the_color_wholesale() {
    let mut app = App::default();
    let c1 = hsv_to_rgb(10, Frac::new(1, 2), Frac::new(1, 3));
    let c2 = hsv_to_rgb(350, Frac::new(2, 3), Frac::new(1, 1));
    app.update(Message::ColorChange(c1));
    assert_eq!(app.color, c1);
    app.update(Message::ColorChange(c2));
    assert_eq!(app.color, c2);
}

#[test]
fn a_drag_feeds_the_host_its_color() {
    // The loop a host runs: widget events in, selection messages out.
    let widget = Rainbow::new(0);
    let mut state = State::default();
    let mut app = App::default();
    let bounds: u32 = 100;
    let script = [
        (PointerEvent::Pressed, Some(Position { x: 50, y: 50 })),
        (PointerEvent::Moved, Some(Position { x: 50, y: 80 })),
        (PointerEvent::Released, None),
    ];
    for (event, cursor) in script {
        let res = widget.update(&mut state, &event, cursor, bounds, bounds);
        if let Some(color) = res.emitted {
            app.update(Message::ColorChange(color));
        }
    }
    assert!(!state.is_dragging);
    assert_eq!(
        app.color,
        Rgb { red: 480000, green: 240000, blue: 240000, den: 600000 }
    );
}
