//! The decisions behind a couch remote's screens, stated and proved.

pub mod activity_buttons;
pub mod activity_pages;
pub mod battery;
pub mod camera;
pub mod commands;
pub mod connections;
pub mod core_floor;
pub mod device_state;
pub mod dispatch;
pub mod display;
pub mod home;
pub mod kodi_pictures;
pub mod lanes;
pub mod light_screen;
pub mod light_work;
pub mod lights;
pub mod media_player;
pub mod mic;
pub mod model;
pub mod network_info;
pub mod network_press;
pub mod num;
pub mod panel;
pub mod player_worker;
pub mod plugin_pages;
pub mod power_ui;
pub mod room_list;
pub mod room_sonos;
pub mod rounding;
pub mod sonos;
pub mod state_cache;
pub mod text;
pub mod volume;
