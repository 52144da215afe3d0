//! The three-circle window status indicator: a row of red, yellow and
//! green lights whose fill dims to a common muted tone when the window
//! loses focus.

use vstd::prelude::*;

verus! {

#[derive(Clone, Copy, PartialEq, Eq, Structural, Debug)]
pub enum TrafficLightColor {
    Red,
    Yellow,
    Green,
}

/// The theme tone a light is filled with: its own color while the window
/// has focus, the muted tone otherwise.
#[derive(Clone, Copy, PartialEq, Eq, Structural, Debug)]
pub enum TrafficLightFill {
    Red,
    Yellow,
    Green,
    Muted,
}

pub open spec fn fill_of(color: TrafficLightColor, window_has_focus: bool) -> TrafficLightFill {
    if !window_has_focus {
        TrafficLightFill::Muted
    } else {
        match color {
            TrafficLightColor::Red => TrafficLightFill::Red,
            TrafficLightColor::Yellow => TrafficLightFill::Yellow,
            TrafficLightColor::Green => TrafficLightFill::Green,
        }
    }
}

/// One light of the row.
#[derive(Clone, Copy, PartialEq, Eq, Structural, Debug)]
pub struct TrafficLight {
    pub color: TrafficLightColor,
    pub window_has_focus: bool,
}

impl TrafficLight {
    pub fn new(color: TrafficLightColor, window_has_focus: bool) -> (r: TrafficLight)
        ensures
            r.color == color,
            r.window_has_focus == window_has_focus,
    {
        TrafficLight { color, window_has_focus }
    }

    /// The fill tone this light renders with.
    pub fn fill(&self) -> (r: TrafficLightFill)
        ensures
            r == fill_of(self.color, self.window_has_focus),
    {
        if !self.window_has_focus {
            TrafficLightFill::Muted
        } else {
            match self.color {
                TrafficLightColor::Red => TrafficLightFill::Red,
                TrafficLightColor::Yellow => TrafficLightFill::Yellow,
                TrafficLightColor::Green => TrafficLightFill::Green,
            }
        }
    }
}

/// The whole indicator row.
#[derive(Clone, Copy, PartialEq, Eq, Structural, Debug)]
pub struct TrafficLights {
    pub window_has_focus: bool,
}

impl TrafficLights {
    pub fn new() -> (r: TrafficLights)
        ensures
            r.window_has_focus,
    {
        TrafficLights { window_has_focus: true }
    }

    pub fn window_has_focus(self, window_has_focus: bool) -> (r: TrafficLights)
        ensures
            r.window_has_focus == window_has_focus,
    {
        TrafficLights { window_has_focus }
    }

    /// The three lights in render order: red, yellow, green, each sharing
    /// the row's focus flag.
    pub fn lights(&self) -> (r: Vec<TrafficLight>)
        ensures
            r@.len() == 3,
            r@[0] == (TrafficLight {
                color: TrafficLightColor::Red,
                window_has_focus: self.window_has_focus,
            }),
            r@[1] == (TrafficLight {
                color: TrafficLightColor::Yellow,
                window_has_focus: self.window_has_focus,
            }),
            r@[2] == (TrafficLight {
                color: TrafficLightColor::Green,
                window_has_focus: self.window_has_focus,
            }),
    {
        let mut r: Vec<TrafficLight> = Vec::new();
        r.push(TrafficLight::new(TrafficLightColor::Red, self.window_has_focus));
        r.push(TrafficLight::new(TrafficLightColor::Yellow, self.window_has_focus));
        r.push(TrafficLight::new(TrafficLightColor::Green, self.window_has_focus));
        r
    }
}

/// The gallery entry showing the indicator in its two states.
#[derive(Clone, Copy, PartialEq, Eq, Structural, Debug)]
pub struct TrafficLightsStory;

impl TrafficLightsStory {
    pub fn new() -> (r: TrafficLightsStory)
    {
        TrafficLightsStory
    }

    /// The rows the gallery renders: the default focused row, then an
    /// unfocused one.
    pub fn examples(&self) -> (r: Vec<TrafficLights>)
        ensures
            r@.len() == 2,
            r@[0].window_has_focus,
            !r@[1].window_has_focus,
    {
        let mut r: Vec<TrafficLights> = Vec::new();
        r.push(TrafficLights::new());
        r.push(TrafficLights::new().window_has_focus(false));
        r
    }
}

} // verus!
