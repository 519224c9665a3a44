//! Translation of platform input into the engine's input vocabulary.
//!
//! Coordinates and deltas are single-precision numbers that this crate only
//! stores and passes on, so they are held by their bit patterns.

use vstd::prelude::*;

verus! {

/// Pixels that one scrolled line stands for, horizontally and vertically.
pub const LINE_SIZE: u32 = 76;

/// A point in device pixels; each coordinate is the bit pattern of an `f32`.
#[derive(Clone, Copy, Debug, PartialEq, Eq, Structural)]
pub struct DevicePoint {
    pub x_bits: u32,
    pub y_bits: u32,
}

/// A mouse button as the platform reports it.
#[derive(Clone, Copy, Debug, PartialEq, Eq, Structural)]
pub enum RawButton {
    Left,
    Right,
    Middle,
    Back,
    Forward,
    Other(u16),
}

/// A mouse button as the engine names it.
#[derive(Clone, Copy, Debug, PartialEq, Eq, Structural)]
pub enum EngineButton {
    Left,
    Middle,
    Right,
    Back,
    Forward,
    Other(u16),
}

/// Whether a button went down or came up, as the platform reports it.
#[derive(Clone, Copy, Debug, PartialEq, Eq, Structural)]
pub enum ButtonState {
    Pressed,
    Released,
}

/// What the engine is told about a button.
#[derive(Clone, Copy, Debug, PartialEq, Eq, Structural)]
pub enum ButtonAction {
    Down,
    Up,
}

/// A scroll amount as the platform reports it: in lines or in pixels. Each
/// component is the bit pattern of an `f32`.
#[derive(Clone, Copy, Debug, PartialEq, Eq, Structural)]
pub enum ScrollDelta {
    Lines { x_bits: u32, y_bits: u32 },
    Pixels { x_bits: u32, y_bits: u32 },
}

/// The unit in which the engine is to read a wheel delta.
#[derive(Clone, Copy, Debug, PartialEq, Eq, Structural)]
pub enum WheelMode {
    Pixel,
    Line,
    Page,
}

/// A wheel delta for the engine. The amount scrolled along each axis is the
/// `f32` with the given bits multiplied by `pixels_per_unit`.
#[derive(Clone, Copy, Debug, PartialEq, Eq, Structural)]
pub struct WheelDelta {
    pub x_bits: u32,
    pub y_bits: u32,
    pub pixels_per_unit: u32,
    pub mode: WheelMode,
}

pub open spec fn engine_button(button: RawButton) -> EngineButton {
    match button {
        RawButton::Left => EngineButton::Left,
        RawButton::Right => EngineButton::Right,
        RawButton::Middle => EngineButton::Middle,
        RawButton::Back => EngineButton::Back,
        RawButton::Forward => EngineButton::Forward,
        RawButton::Other(code) => EngineButton::Other(code),
    }
}

pub open spec fn button_action(state: ButtonState) -> ButtonAction {
    match state {
        ButtonState::Pressed => ButtonAction::Down,
        ButtonState::Released => ButtonAction::Up,
    }
}

pub open spec fn wheel_delta(delta: ScrollDelta) -> WheelDelta {
    match delta {
        ScrollDelta::Lines { x_bits, y_bits } => WheelDelta {
            x_bits,
            y_bits,
            pixels_per_unit: LINE_SIZE,
            mode: WheelMode::Pixel,
        },
        ScrollDelta::Pixels { x_bits, y_bits } => WheelDelta {
            x_bits,
            y_bits,
            pixels_per_unit: 1,
            mode: WheelMode::Pixel,
        },
    }
}

/// Names the engine's button for a platform button; an unnamed button keeps
/// its code.
pub fn translate_button(button: RawButton) -> (out: EngineButton)
    ensures
        out == engine_button(button),
{
    match button {
        RawButton::Left => EngineButton::Left,
        RawButton::Right => EngineButton::Right,
        RawButton::Middle => EngineButton::Middle,
        RawButton::Back => EngineButton::Back,
        RawButton::Forward => EngineButton::Forward,
        RawButton::Other(code) => EngineButton::Other(code),
    }
}

/// A pressed button goes down, a released one comes up.
pub fn translate_button_state(state: ButtonState) -> (out: ButtonAction)
    ensures
        out == button_action(state),
{
    match state {
        ButtonState::Pressed => ButtonAction::Down,
        ButtonState::Released => ButtonAction::Up,
    }
}

/// Turns a scroll amount into a pixel delta: lines are scaled by
/// [`LINE_SIZE`], pixels pass through.
pub fn translate_wheel(delta: ScrollDelta) -> (out: WheelDelta)
    ensures
        out == wheel_delta(delta),
{
    match delta {
        ScrollDelta::Lines { x_bits, y_bits } => WheelDelta {
            x_bits,
            y_bits,
            pixels_per_unit: LINE_SIZE,
            mode: WheelMode::Pixel,
        },
        ScrollDelta::Pixels { x_bits, y_bits } => WheelDelta {
            x_bits,
            y_bits,
            pixels_per_unit: 1,
            mode: WheelMode::Pixel,
        },
    }
}

} // verus!
