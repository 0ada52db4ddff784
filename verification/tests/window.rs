use graphics_examples::scalar::Tenths;
use graphics_examples::window::{
    cube_window, loop_settings, requested_api, triangle_window, Event, LoopSettings, OpenGl,
    RenderArgs, WindowSettings,
};

#[test]
fn both_programs_ask_for_opengl_3_2() {
    assert_eq!(requested_api(), OpenGl { major: 3, minor: 2 });
}

#[test]
fn cube_window_is_640_by_480() {
    assert_eq!(
        cube_window(),
        WindowSettings { title: "cube", size: [640, 480], fullscreen: false, exit_on_esc: true }
    );
}

#[test]
fn triangle_window_is_800_by_600() {
    assert_eq!(
        triangle_window(),
        WindowSettings { title: "Test", size: [800, 600], fullscreen: false, exit_on_esc: true }
    );
}

#[test]
fn loop_updates_120_times_and_draws_60_frames_a_second() {
    assert_eq!(
        loop_settings(),
        LoopSettings { updates_per_second: 120, max_frames_per_second: 60 }
    );
}

#[test]
fn render_events_carry_the_size() {
    let event = Event::Render(RenderArgs { width: 640, height: 480 });
    assert!(matches!(event, Event::Render(RenderArgs { width: 640, height: 480 })));
    assert_ne!(event, Event::Update);
    assert_ne!(Event::Update, Event::Other);
}

#[test]
fn tenths_stand_for_the_decimal_fractions() {
    assert_eq!(Tenths(3).0 as f32 / 10.0, 0.3f32);
    assert_eq!(Tenths(1).0 as f32 / 10.0, 0.1f32);
    assert_eq!(Tenths(10).0 as f32 / 10.0, 1.0f32);
    assert_eq!(Tenths(15).0 as f32 / 10.0, 1.5f32);
    assert_eq!(Tenths(-5).0 as f64 / 10.0, -0.5f64);
    assert_eq!(Tenths(0), Tenths(0));
    assert_ne!(Tenths(3), Tenths(-3));
}
