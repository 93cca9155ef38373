pub mod input;
pub mod logging;
pub mod peripherals;
pub mod render;
pub mod runner;
pub mod time;

pub use input::{
    button_mapping, connect_gamepad, AgbInputPlugin, gamepad_connection, update_gamepad, ButtonChange,
    ButtonController, ConnectionInfo, GameBoyGamepad, GamepadButton, GamepadEvents, GamepadInput,
    GbaButton, RawGamepadEvent,
};
pub use logging::{debug_level_for, max_level, AgbLogPlugin, DebugLevel, LogLevel, MgbaLogger};
pub use peripherals::{AgbUnpackPlugin, AlreadyClaimed, OnceFlag};
pub use render::{
    make_object, render_objects, AgbRenderPlugin, Oam, OamCursor, ObjectAttributes, Renderable,
    Sprite, OAM_SLOTS,
};
pub use runner::{AgbRunnerPlugin, AppExit, FrameRunner, RunnerAction, RunnerPhase};
pub use time::{
    elapsed_nanos, next_tick, timer_2_settings, AgbTimePlugin, Divider, TimerSettings,
    NANOS_PER_TICK, TIMER_OVERFLOW,
};
