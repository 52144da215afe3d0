use painting::traffic_lights::{
    TrafficLight, TrafficLightColor, TrafficLightFill, TrafficLights, TrafficLightsStory,
};

#[test]
fn new_row_has_focus() {
    let row = TrafficLights::new();
    assert!(row.window_has_focus);
}

#[test]
fn focus_builder_overrides_the_flag() {
    let row = TrafficLights::new().window_has_focus(false);
    assert!(!row.window_has_focus);
    let row = row.window_has_focus(true);
    assert!(row.window_has_focus);
}

#[test]
fn focused_lights_keep_their_own_color() {
    assert_eq!(
        TrafficLight::new(TrafficLightColor::Red, true).fill(),
        TrafficLightFill::Red
    );
    assert_eq!(
        TrafficLight::new(TrafficLightColor::Yellow, true).fill(),
        TrafficLightFill::Yellow
    );
    assert_eq!(
        TrafficLight::new(TrafficLightColor::Green, true).fill(),
        TrafficLightFill::Green
    );
}

#[test]
fn unfocused_lights_are_muted() {
    assert_eq!(
        TrafficLight::new(TrafficLightColor::Red, false).fill(),
        TrafficLightFill::Muted
    );
    assert_eq!(
        TrafficLight::new(TrafficLightColor::Green, false).fill(),
        TrafficLightFill::Muted
    );
}

#[test]
fn lights_come_in_render_order() {
    let row = TrafficLights::new().window_has_focus(false);
    let lights = row.lights();
    assert_eq!(lights.len(), 3);
    assert_eq!(lights[0].color, TrafficLightColor::Red);
    assert_eq!(lights[1].color, TrafficLightColor::Yellow);
    assert_eq!(lights[2].color, TrafficLightColor::Green);
    assert!(lights.iter().all(|l| !l.window_has_focus));
}

#[test]
fn story_shows_focused_then_unfocused() {
    let story = TrafficLightsStory::new();
    let rows = story.examples();
    assert_eq!(rows.len(), 2);
    assert!(rows[0].window_has_focus);
    assert!(!rows[1].window_has_focus);
}
