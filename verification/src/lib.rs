pub mod bridge;
pub mod controller;
pub mod frame;
pub mod gamepads;
