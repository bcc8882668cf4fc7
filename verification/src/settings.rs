//! The preferences of the user: theme, chart colours, and the sampling
//! interval. Loading and saving them is the caller's part.

use crate::text::{copy_strings, string_views};
use vstd::prelude::*;
use vstd::string::*;

verus! {

/// The preferences of the user. Colours are written `#rrggbb`.
#[derive(Debug)]
pub struct AppSettings {
    pub dark_mode: bool,
    pub use_uniform_cpu: bool,
    pub cpu_color: String,
    pub ram_color: String,
    pub gpu_color: String,
    pub net_color: String,
    pub cpu_core_colors: Vec<String>,
    pub refresh_rate_ms: u64,
}

/// The plain content of an [`AppSettings`].
pub struct AppSettingsView {
    pub dark_mode: bool,
    pub use_uniform_cpu: bool,
    pub cpu_color: Seq<char>,
    pub ram_color: Seq<char>,
    pub gpu_color: Seq<char>,
    pub net_color: Seq<char>,
    pub cpu_core_colors: Seq<Seq<char>>,
    pub refresh_rate_ms: u64,
}

impl View for AppSettings {
    type V = AppSettingsView;

    open spec fn view(&self) -> AppSettingsView {
        AppSettingsView {
            dark_mode: self.dark_mode,
            use_uniform_cpu: self.use_uniform_cpu,
            cpu_color: self.cpu_color@,
            ram_color: self.ram_color@,
            gpu_color: self.gpu_color@,
            net_color: self.net_color@,
            cpu_core_colors: string_views(self.cpu_core_colors@),
            refresh_rate_ms: self.refresh_rate_ms,
        }
    }
}

impl Clone for AppSettings {
    fn clone(&self) -> (copy: Self)
        ensures
            copy@ == self@,
    {
        AppSettings {
            dark_mode: self.dark_mode,
            use_uniform_cpu: self.use_uniform_cpu,
            cpu_color: self.cpu_color.clone(),
            ram_color: self.ram_color.clone(),
            gpu_color: self.gpu_color.clone(),
            net_color: self.net_color.clone(),
            cpu_core_colors: copy_strings(&self.cpu_core_colors),
            refresh_rate_ms: self.refresh_rate_ms,
        }
    }
}

/// The preferences of a user who chose nothing yet: the light theme, one
/// colour per core, blue, green, purple and orange charts, and two samples
/// per second.
pub open spec fn default_settings() -> AppSettingsView {
    AppSettingsView {
        dark_mode: false,
        use_uniform_cpu: false,
        cpu_color: "#3498db"@,
        ram_color: "#2ecc71"@,
        gpu_color: "#9b59b6"@,
        net_color: "#e67e22"@,
        cpu_core_colors: Seq::empty(),
        refresh_rate_ms: 500,
    }
}

impl Default for AppSettings {
    fn default() -> (settings: Self)
        ensures
            settings@ == default_settings(),
    {
        let cpu_core_colors: Vec<String> = Vec::new();
        assert(string_views(cpu_core_colors@) =~= Seq::<Seq<char>>::empty());
        AppSettings {
            dark_mode: false,
            use_uniform_cpu: false,
            cpu_color: String::from_str("#3498db"),
            ram_color: String::from_str("#2ecc71"),
            gpu_color: String::from_str("#9b59b6"),
            net_color: String::from_str("#e67e22"),
            cpu_core_colors,
            refresh_rate_ms: 500,
        }
    }
}

impl AppSettings {
    /// The preferences that were read, or those of a user who chose nothing
    /// yet where none could be read.
    pub fn loaded_or_default(loaded: Option<AppSettings>) -> (settings: AppSettings)
        ensures
            settings@ == match loaded {
                Some(s) => s@,
                None => default_settings(),
            },
    {
        match loaded {
            Some(s) => s,
            None => AppSettings::default(),
        }
    }
}

} // verus!
