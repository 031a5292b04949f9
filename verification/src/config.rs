//! Fixed settings of the application window.
use vstd::prelude::*;

verus! {

/// The application identifier, window title and initial window size.
#[derive(Debug, Clone, Copy)]
pub struct AppConfig {
    pub app_id: &'static str,
    pub window_title: &'static str,
    pub default_width: i32,
    pub default_height: i32,
}

impl Default for AppConfig {
    fn default() -> (config: Self)
        ensures
            config.app_id@ == "io.vmedia.native-player"@,
            config.window_title@ == "VMedia Native Player"@,
            config.default_width == 1280,
            config.default_height == 800,
    {
        AppConfig {
            app_id: "io.vmedia.native-player",
            window_title: "VMedia Native Player",
            default_width: 1280,
            default_height: 800,
        }
    }
}

} // verus!
