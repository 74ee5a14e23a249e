//! Persona and transport rules of the Bimp browser patches: which request
//! headers reach the impersonating HTTP client, which navigator, screen,
//! plugin and media values scripts observe, and how canvas exports are
//! perturbed.

pub mod text;
pub mod headers;
pub mod curl_impersonate_loader;
pub mod canvas_fingerprint;
pub mod plugins;
pub mod navigator_ua_data;
pub mod navigator_info;
pub mod screen;
pub mod media_devices;
pub mod webgl_debug_renderer_info;
pub mod workers;
pub mod client;
pub mod bimp_net_loader;
pub mod domrect_fingerprint;
pub mod null_paint;
pub mod storage_thread;
