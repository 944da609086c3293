//! Verified decision core of the Computer Use runtime and its host client.

pub mod application;
pub mod client;
pub mod client_batch;
pub mod client_exchange;
pub mod client_protocol;
pub mod contracts;
pub mod dcc_http;
pub mod dcc_tool_defs;
pub mod dcc_tools;
pub mod desktop_session;
pub mod drag_sequences;
pub mod driver;
pub mod driver_host;
pub mod error_contracts;
pub mod errors;
pub mod evidence;
pub mod input_state;
pub mod input_target_policy;
pub mod interactive_desktop;
pub mod json;
pub mod live_observation;
pub mod media;
pub mod pixel_observation;
pub mod platform_errors;
pub mod private_worker;
pub mod recording;
pub mod sensitive_target_policy;
pub mod session;
pub mod session_action;
pub mod session_calls;
pub mod session_evidence;
pub mod session_frames;
pub mod session_health;
pub mod session_lifecycle;
pub mod session_observation;
pub mod session_pixels;
pub mod session_recording;
pub mod session_reports;
pub mod session_start;
pub mod session_tools;
pub mod session_windows;
pub mod steps;
pub mod text;
pub mod text_sets;
pub mod tool_binding;
pub mod window_capture;
pub mod window_target;
