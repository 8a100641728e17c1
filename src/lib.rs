pub mod device_map;
pub mod usb_bridge;
pub mod registry;
pub mod commands;
