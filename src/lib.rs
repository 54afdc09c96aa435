//! Input state core: press states, axis readings, per-device input views and the
//! translation of gamepad events into those views.
pub mod axis;
pub mod clock;
pub mod state;
pub mod view;
pub mod gamepad;

pub use clock::Clock;
pub use axis::{AxisState, AxisStateVecExt, AxisValue};
pub use state::{ButtonState, Duration, Timestamp, PressState};
pub use view::{GamepadAxisType, GamepadButtonType, InputReceiver, InputSource, InputView};
pub use gamepad::{
    Gamepad, GamepadEvent, GamepadEventType, GamepadInputHandlingSystem, GamepadMarker,
};
