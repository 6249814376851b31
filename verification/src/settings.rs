//! User settings: their defaults, how a persisted file is read over the
//! defaults, and what is written back.
//!
//! Every setting has a default, so a file that lacks some of them still
//! gives a complete record. Opacities, sizes and positions are thousandths.

use crate::text::text_of;
use vstd::prelude::*;
use vstd::string::*;

verus! {

/// The colour theme.
#[derive(Clone, Copy, Debug, PartialEq, Eq, Structural)]
pub enum Theme {
    Dark,
    Light,
    Solarized,
    Tokyo,
}

/// How a metric is shown.
#[derive(Clone, Copy, Debug, PartialEq, Eq, Structural)]
pub enum MonitorStyle {
    Bar,
    Chart,
    Text,
}

/// The look of one section of the widget.
#[derive(Debug, PartialEq, Eq)]
pub struct SectionStyle {
    pub opacity: i64,
    /// Background colour as a hex code.
    pub bg_color: String,
    pub font_size: i64,
    pub border_radius: i64,
    pub font_family: String,
}

/// The look of a section as a plain value.
pub struct SectionStyleView {
    pub opacity: i64,
    pub bg_color: Seq<char>,
    pub font_size: i64,
    pub border_radius: i64,
    pub font_family: Seq<char>,
}

impl View for SectionStyle {
    type V = SectionStyleView;

    open spec fn view(&self) -> SectionStyleView {
        SectionStyleView {
            opacity: self.opacity,
            bg_color: self.bg_color@,
            font_size: self.font_size,
            border_radius: self.border_radius,
            font_family: self.font_family@,
        }
    }
}

/// Where a section of the widget stands and how large it is.
#[derive(Clone, Copy, Debug, PartialEq, Eq, Structural)]
pub struct WidgetLayout {
    pub x: i64,
    pub y: i64,
    pub width: i64,
    pub height: i64,
}

/// The look of a section as the persisted file gives it: any part of it may
/// be missing.
#[derive(Debug, PartialEq, Eq)]
pub struct SectionStyleFile {
    pub opacity: Option<i64>,
    pub bg_color: Option<String>,
    pub font_size: Option<i64>,
    pub border_radius: Option<i64>,
    pub font_family: Option<String>,
}

/// Place and size of a section as the persisted file gives them: any part
/// may be missing.
#[derive(Clone, Copy, Debug, PartialEq, Eq, Structural)]
pub struct WidgetLayoutFile {
    pub x: Option<i64>,
    pub y: Option<i64>,
    pub width: Option<i64>,
    pub height: Option<i64>,
}

/// The settings of the widget.
#[derive(Debug, PartialEq, Eq)]
pub struct Settings {
    pub theme: Theme,
    pub show_terminal: bool,
    pub show_monitoring: bool,
    pub show_shortcuts_panel: bool,
    pub show_cpu: bool,
    pub show_gpu: bool,
    pub show_ram: bool,
    pub show_network: bool,
    pub monitor_style: MonitorStyle,
    pub launch_at_start: bool,
    pub lock_in_place: bool,
    pub lock_size: bool,
    /// Path of the shell that the terminal runs.
    pub shell: String,
    pub terminal_style: SectionStyle,
    pub monitoring_style: SectionStyle,
    pub shortcuts_style: SectionStyle,
    pub terminal_layout: WidgetLayout,
    pub monitoring_layout: WidgetLayout,
    pub shortcuts_layout: WidgetLayout,
}

/// The settings as a plain value.
pub struct SettingsView {
    pub theme: Theme,
    pub show_terminal: bool,
    pub show_monitoring: bool,
    pub show_shortcuts_panel: bool,
    pub show_cpu: bool,
    pub show_gpu: bool,
    pub show_ram: bool,
    pub show_network: bool,
    pub monitor_style: MonitorStyle,
    pub launch_at_start: bool,
    pub lock_in_place: bool,
    pub lock_size: bool,
    pub shell: Seq<char>,
    pub terminal_style: SectionStyleView,
    pub monitoring_style: SectionStyleView,
    pub shortcuts_style: SectionStyleView,
    pub terminal_layout: WidgetLayout,
    pub monitoring_layout: WidgetLayout,
    pub shortcuts_layout: WidgetLayout,
}

impl View for Settings {
    type V = SettingsView;

    open spec fn view(&self) -> SettingsView {
        SettingsView {
            theme: self.theme,
            show_terminal: self.show_terminal,
            show_monitoring: self.show_monitoring,
            show_shortcuts_panel: self.show_shortcuts_panel,
            show_cpu: self.show_cpu,
            show_gpu: self.show_gpu,
            show_ram: self.show_ram,
            show_network: self.show_network,
            monitor_style: self.monitor_style,
            launch_at_start: self.launch_at_start,
            lock_in_place: self.lock_in_place,
            lock_size: self.lock_size,
            shell: self.shell@,
            terminal_style: self.terminal_style@,
            monitoring_style: self.monitoring_style@,
            shortcuts_style: self.shortcuts_style@,
            terminal_layout: self.terminal_layout,
            monitoring_layout: self.monitoring_layout,
            shortcuts_layout: self.shortcuts_layout,
        }
    }
}

/// The settings as the persisted file gives them: any of them may be
/// missing.
#[derive(Debug, PartialEq, Eq)]
pub struct SettingsFile {
    pub theme: Option<Theme>,
    pub show_terminal: Option<bool>,
    pub show_monitoring: Option<bool>,
    pub show_shortcuts_panel: Option<bool>,
    pub show_cpu: Option<bool>,
    pub show_gpu: Option<bool>,
    pub show_ram: Option<bool>,
    pub show_network: Option<bool>,
    pub monitor_style: Option<MonitorStyle>,
    pub launch_at_start: Option<bool>,
    pub lock_in_place: Option<bool>,
    pub lock_size: Option<bool>,
    pub shell: Option<String>,
    pub terminal_style: Option<SectionStyleFile>,
    pub monitoring_style: Option<SectionStyleFile>,
    pub shortcuts_style: Option<SectionStyleFile>,
    pub terminal_layout: Option<WidgetLayoutFile>,
    pub monitoring_layout: Option<WidgetLayoutFile>,
    pub shortcuts_layout: Option<WidgetLayoutFile>,
}

/// What has to happen to the autostart registration of the operating system
/// after the setting changed.
#[derive(Clone, Copy, Debug, PartialEq, Eq, Structural)]
pub enum AutoLaunchChange {
    /// Register the program to start with the session.
    Enable,
    /// Take the registration back.
    Disable,
}

/// The font family of a section that names none.
pub open spec fn default_font_text() -> Seq<char> {
    "Sans"@
}

/// The look of a section by default.
pub open spec fn default_section_style() -> SectionStyleView {
    SectionStyleView {
        opacity: 780,
        bg_color: "#12161e"@,
        font_size: 11_000,
        border_radius: 18_000,
        font_family: "Sans"@,
    }
}

/// Place and size of a section by default.
pub open spec fn default_widget_layout() -> WidgetLayout {
    WidgetLayout { x: 0, y: 0, width: 300_000, height: 200_000 }
}

/// The shell by default: the one that the environment names, or the
/// standard one if it names none.
pub open spec fn default_shell_text(env_shell: Option<Seq<char>>) -> Seq<char> {
    match env_shell {
        Some(shell) => shell,
        None => "/bin/bash"@,
    }
}

/// The settings by default, given the shell that the environment names.
pub open spec fn default_settings(env_shell: Option<Seq<char>>) -> SettingsView {
    SettingsView {
        theme: Theme::Dark,
        show_terminal: true,
        show_monitoring: true,
        show_shortcuts_panel: true,
        show_cpu: true,
        show_gpu: true,
        show_ram: true,
        show_network: true,
        monitor_style: MonitorStyle::Text,
        launch_at_start: false,
        lock_in_place: true,
        lock_size: true,
        shell: default_shell_text(env_shell),
        terminal_style: SectionStyleView {
            opacity: 780,
            bg_color: "#12161e"@,
            font_size: 11_000,
            border_radius: 18_000,
            font_family: "Monospace"@,
        },
        monitoring_style: default_section_style(),
        shortcuts_style: default_section_style(),
        terminal_layout: WidgetLayout { x: 50_000, y: 50_000, width: 600_000, height: 400_000 },
        monitoring_layout: WidgetLayout { x: 50_000, y: 470_000, width: 600_000, height: 200_000 },
        shortcuts_layout: WidgetLayout { x: 670_000, y: 50_000, width: 250_000, height: 620_000 },
    }
}

/// A setting as the file gives it, or its default where the file has none.
pub open spec fn or_default<T>(given: Option<T>, default: T) -> T {
    match given {
        Some(value) => value,
        None => default,
    }
}

/// A text as the file gives it, or its default where the file has none.
pub open spec fn text_or_default(given: Option<String>, default: Seq<char>) -> Seq<char> {
    match given {
        Some(text) => text@,
        None => default,
    }
}

/// The look of a section: every part as the file gives it, every part that
/// the file lacks as in `default`, the section's own default.
pub open spec fn style_of_file(file: SectionStyleFile, default: SectionStyleView) -> SectionStyleView {
    SectionStyleView {
        opacity: or_default(file.opacity, default.opacity),
        bg_color: text_or_default(file.bg_color, default.bg_color),
        font_size: or_default(file.font_size, default.font_size),
        border_radius: or_default(file.border_radius, default.border_radius),
        font_family: text_or_default(file.font_family, default.font_family),
    }
}

/// The look of a section as the file gives it, part by part, or the
/// section's own default where the file has no such section.
pub open spec fn style_or_default(
    given: Option<SectionStyleFile>,
    default: SectionStyleView,
) -> SectionStyleView {
    match given {
        Some(file) => style_of_file(file, default),
        None => default,
    }
}

/// Place and size of a section: every part as the file gives it, every part
/// that the file lacks as in `default`, the section's own default.
pub open spec fn layout_of_file(file: WidgetLayoutFile, default: WidgetLayout) -> WidgetLayout {
    WidgetLayout {
        x: or_default(file.x, default.x),
        y: or_default(file.y, default.y),
        width: or_default(file.width, default.width),
        height: or_default(file.height, default.height),
    }
}

/// Place and size of a section as the file gives them, part by part, or the
/// section's own default where the file has no such section.
pub open spec fn layout_or_default(
    given: Option<WidgetLayoutFile>,
    default: WidgetLayout,
) -> WidgetLayout {
    match given {
        Some(file) => layout_of_file(file, default),
        None => default,
    }
}

/// The defaults with every setting that the file gives laid over them.
pub open spec fn merged(defaults: SettingsView, file: SettingsFile) -> SettingsView {
    SettingsView {
        theme: or_default(file.theme, defaults.theme),
        show_terminal: or_default(file.show_terminal, defaults.show_terminal),
        show_monitoring: or_default(file.show_monitoring, defaults.show_monitoring),
        show_shortcuts_panel: or_default(file.show_shortcuts_panel, defaults.show_shortcuts_panel),
        show_cpu: or_default(file.show_cpu, defaults.show_cpu),
        show_gpu: or_default(file.show_gpu, defaults.show_gpu),
        show_ram: or_default(file.show_ram, defaults.show_ram),
        show_network: or_default(file.show_network, defaults.show_network),
        monitor_style: or_default(file.monitor_style, defaults.monitor_style),
        launch_at_start: or_default(file.launch_at_start, defaults.launch_at_start),
        lock_in_place: or_default(file.lock_in_place, defaults.lock_in_place),
        lock_size: or_default(file.lock_size, defaults.lock_size),
        shell: text_or_default(file.shell, defaults.shell),
        terminal_style: style_or_default(file.terminal_style, defaults.terminal_style),
        monitoring_style: style_or_default(file.monitoring_style, defaults.monitoring_style),
        shortcuts_style: style_or_default(file.shortcuts_style, defaults.shortcuts_style),
        terminal_layout: layout_or_default(file.terminal_layout, defaults.terminal_layout),
        monitoring_layout: layout_or_default(file.monitoring_layout, defaults.monitoring_layout),
        shortcuts_layout: layout_or_default(file.shortcuts_layout, defaults.shortcuts_layout),
    }
}

/// The settings that loading gives: the defaults where there is no usable
/// file, else the defaults with the file laid over them.
pub open spec fn loaded(persisted: Option<SettingsFile>, env_shell: Option<Seq<char>>) -> SettingsView {
    match persisted {
        Some(file) => merged(default_settings(env_shell), file),
        None => default_settings(env_shell),
    }
}

/// Whether `file` gives the look `style` in full.
pub open spec fn records_style(file: Option<SectionStyleFile>, style: SectionStyleView) -> bool {
    &&& file matches Some(file)
    &&& file.opacity == Some(style.opacity)
    &&& text_of(file.bg_color) == Some(style.bg_color)
    &&& file.font_size == Some(style.font_size)
    &&& file.border_radius == Some(style.border_radius)
    &&& text_of(file.font_family) == Some(style.font_family)
}

/// Whether `file` gives place and size `layout` in full.
pub open spec fn records_layout(file: Option<WidgetLayoutFile>, layout: WidgetLayout) -> bool {
    file == Some(
        WidgetLayoutFile {
            x: Some(layout.x),
            y: Some(layout.y),
            width: Some(layout.width),
            height: Some(layout.height),
        },
    )
}

/// Whether `file` is what saving `settings` writes: every setting present,
/// with its value.
pub open spec fn records(file: SettingsFile, settings: SettingsView) -> bool {
    &&& file.theme == Some(settings.theme)
    &&& file.show_terminal == Some(settings.show_terminal)
    &&& file.show_monitoring == Some(settings.show_monitoring)
    &&& file.show_shortcuts_panel == Some(settings.show_shortcuts_panel)
    &&& file.show_cpu == Some(settings.show_cpu)
    &&& file.show_gpu == Some(settings.show_gpu)
    &&& file.show_ram == Some(settings.show_ram)
    &&& file.show_network == Some(settings.show_network)
    &&& file.monitor_style == Some(settings.monitor_style)
    &&& file.launch_at_start == Some(settings.launch_at_start)
    &&& file.lock_in_place == Some(settings.lock_in_place)
    &&& file.lock_size == Some(settings.lock_size)
    &&& text_of(file.shell) == Some(settings.shell)
    &&& records_style(file.terminal_style, settings.terminal_style)
    &&& records_style(file.monitoring_style, settings.monitoring_style)
    &&& records_style(file.shortcuts_style, settings.shortcuts_style)
    &&& records_layout(file.terminal_layout, settings.terminal_layout)
    &&& records_layout(file.monitoring_layout, settings.monitoring_layout)
    &&& records_layout(file.shortcuts_layout, settings.shortcuts_layout)
}

/// Whether `file` gives no setting at all.
pub open spec fn gives_nothing(file: SettingsFile) -> bool {
    &&& file.theme is None
    &&& file.show_terminal is None
    &&& file.show_monitoring is None
    &&& file.show_shortcuts_panel is None
    &&& file.show_cpu is None
    &&& file.show_gpu is None
    &&& file.show_ram is None
    &&& file.show_network is None
    &&& file.monitor_style is None
    &&& file.launch_at_start is None
    &&& file.lock_in_place is None
    &&& file.lock_size is None
    &&& file.shell is None
    &&& file.terminal_style is None
    &&& file.monitoring_style is None
    &&& file.shortcuts_style is None
    &&& file.terminal_layout is None
    &&& file.monitoring_layout is None
    &&& file.shortcuts_layout is None
}

/// The font family of a section that names none.
pub fn default_font() -> (font: String)
    ensures
        font@ == default_font_text(),
{
    "Sans".to_owned()
}

/// The shell by default: `env_shell`, which is what the environment names,
/// or the standard shell if it names none.
pub fn default_shell(env_shell: Option<String>) -> (shell: String)
    ensures
        shell@ == default_shell_text(text_of(env_shell)),
{
    match env_shell {
        Some(shell) => shell,
        None => "/bin/bash".to_owned(),
    }
}

impl Default for SectionStyle {
    fn default() -> (style: SectionStyle)
        ensures
            style@ == default_section_style(),
    {
        SectionStyle {
            opacity: 780,
            bg_color: "#12161e".to_owned(),
            font_size: 11_000,
            border_radius: 18_000,
            font_family: default_font(),
        }
    }
}

impl Clone for SectionStyle {
    fn clone(&self) -> (copy: SectionStyle)
        ensures
            copy@ == self@,
    {
        SectionStyle {
            opacity: self.opacity,
            bg_color: self.bg_color.clone(),
            font_size: self.font_size,
            border_radius: self.border_radius,
            font_family: self.font_family.clone(),
        }
    }
}

impl Default for SettingsFile {
    /// A file that gives no setting.
    fn default() -> (file: SettingsFile)
        ensures
            gives_nothing(file),
    {
        SettingsFile {
            theme: None,
            show_terminal: None,
            show_monitoring: None,
            show_shortcuts_panel: None,
            show_cpu: None,
            show_gpu: None,
            show_ram: None,
            show_network: None,
            monitor_style: None,
            launch_at_start: None,
            lock_in_place: None,
            lock_size: None,
            shell: None,
            terminal_style: None,
            monitoring_style: None,
            shortcuts_style: None,
            terminal_layout: None,
            monitoring_layout: None,
            shortcuts_layout: None,
        }
    }
}

impl Default for WidgetLayout {
    fn default() -> (layout: WidgetLayout)
        ensures
            layout == default_widget_layout(),
    {
        WidgetLayout { x: 0, y: 0, width: 300_000, height: 200_000 }
    }
}

impl SectionStyle {
    /// The look of a section from what the file gives of it: every part
    /// that the file lacks is taken from `default`, the section's own
    /// default.
    pub fn from_file(file: SectionStyleFile, default: SectionStyle) -> (style: SectionStyle)
        ensures
            style@ == style_of_file(file, default@),
    {
        SectionStyle {
            opacity: match file.opacity {
                Some(value) => value,
                None => default.opacity,
            },
            bg_color: match file.bg_color {
                Some(value) => value,
                None => default.bg_color,
            },
            font_size: match file.font_size {
                Some(value) => value,
                None => default.font_size,
            },
            border_radius: match file.border_radius {
                Some(value) => value,
                None => default.border_radius,
            },
            font_family: match file.font_family {
                Some(value) => value,
                None => default.font_family,
            },
        }
    }

    /// What is written to the file for this look: all of it.
    pub fn to_file(&self) -> (file: SectionStyleFile)
        ensures
            records_style(Some(file), self@),
    {
        SectionStyleFile {
            opacity: Some(self.opacity),
            bg_color: Some(self.bg_color.clone()),
            font_size: Some(self.font_size),
            border_radius: Some(self.border_radius),
            font_family: Some(self.font_family.clone()),
        }
    }
}

impl WidgetLayout {
    /// Place and size of a section from what the file gives of them: every
    /// part that the file lacks is taken from `default`, the section's own
    /// default.
    pub fn from_file(file: WidgetLayoutFile, default: WidgetLayout) -> (layout: WidgetLayout)
        ensures
            layout == layout_of_file(file, default),
    {
        WidgetLayout {
            x: match file.x {
                Some(value) => value,
                None => default.x,
            },
            y: match file.y {
                Some(value) => value,
                None => default.y,
            },
            width: match file.width {
                Some(value) => value,
                None => default.width,
            },
            height: match file.height {
                Some(value) => value,
                None => default.height,
            },
        }
    }

    /// What is written to the file for this place and size: all of it.
    pub fn to_file(&self) -> (file: WidgetLayoutFile)
        ensures
            records_layout(Some(file), *self),
    {
        WidgetLayoutFile {
            x: Some(self.x),
            y: Some(self.y),
            width: Some(self.width),
            height: Some(self.height),
        }
    }
}

impl Clone for Settings {
    fn clone(&self) -> (copy: Settings)
        ensures
            copy@ == self@,
    {
        Settings {
            theme: self.theme,
            show_terminal: self.show_terminal,
            show_monitoring: self.show_monitoring,
            show_shortcuts_panel: self.show_shortcuts_panel,
            show_cpu: self.show_cpu,
            show_gpu: self.show_gpu,
            show_ram: self.show_ram,
            show_network: self.show_network,
            monitor_style: self.monitor_style,
            launch_at_start: self.launch_at_start,
            lock_in_place: self.lock_in_place,
            lock_size: self.lock_size,
            shell: self.shell.clone(),
            terminal_style: self.terminal_style.clone(),
            monitoring_style: self.monitoring_style.clone(),
            shortcuts_style: self.shortcuts_style.clone(),
            terminal_layout: self.terminal_layout,
            monitoring_layout: self.monitoring_layout,
            shortcuts_layout: self.shortcuts_layout,
        }
    }
}

impl Settings {
    /// The settings by default. `env_shell` is the shell that the
    /// environment names, if it names one.
    pub fn defaults(env_shell: Option<String>) -> (settings: Settings)
        ensures
            settings@ == default_settings(text_of(env_shell)),
    {
        Settings {
            theme: Theme::Dark,
            show_terminal: true,
            show_monitoring: true,
            show_shortcuts_panel: true,
            show_cpu: true,
            show_gpu: true,
            show_ram: true,
            show_network: true,
            monitor_style: MonitorStyle::Text,
            launch_at_start: false,
            lock_in_place: true,
            lock_size: true,
            shell: default_shell(env_shell),
            terminal_style: SectionStyle {
                opacity: 780,
                bg_color: "#12161e".to_owned(),
                font_size: 11_000,
                border_radius: 18_000,
                font_family: "Monospace".to_owned(),
            },
            monitoring_style: SectionStyle::default(),
            shortcuts_style: SectionStyle::default(),
            terminal_layout: WidgetLayout { x: 50_000, y: 50_000, width: 600_000, height: 400_000 },
            monitoring_layout: WidgetLayout {
                x: 50_000,
                y: 470_000,
                width: 600_000,
                height: 200_000,
            },
            shortcuts_layout: WidgetLayout {
                x: 670_000,
                y: 50_000,
                width: 250_000,
                height: 620_000,
            },
        }
    }

    /// The settings that a persisted file gives: every setting of the file
    /// as it stands there, every other one at its default. `persisted` is
    /// `None` for a file that is absent, unreadable or not a valid record,
    /// which gives the defaults throughout. `env_shell` is the shell that
    /// the environment names, if it names one.
    pub fn load(persisted: Option<SettingsFile>, env_shell: Option<String>) -> (settings: Settings)
        ensures
            settings@ == loaded(persisted, text_of(env_shell)),
            persisted is None ==> settings@ == default_settings(text_of(env_shell)),
    {
        let defaults = Settings::defaults(env_shell);
        match persisted {
            None => defaults,
            Some(file) => Settings {
                theme: match file.theme {
                    Some(value) => value,
                    None => defaults.theme,
                },
                show_terminal: match file.show_terminal {
                    Some(value) => value,
                    None => defaults.show_terminal,
                },
                show_monitoring: match file.show_monitoring {
                    Some(value) => value,
                    None => defaults.show_monitoring,
                },
                show_shortcuts_panel: match file.show_shortcuts_panel {
                    Some(value) => value,
                    None => defaults.show_shortcuts_panel,
                },
                show_cpu: match file.show_cpu {
                    Some(value) => value,
                    None => defaults.show_cpu,
                },
                show_gpu: match file.show_gpu {
                    Some(value) => value,
                    None => defaults.show_gpu,
                },
                show_ram: match file.show_ram {
                    Some(value) => value,
                    None => defaults.show_ram,
                },
                show_network: match file.show_network {
                    Some(value) => value,
                    None => defaults.show_network,
                },
                monitor_style: match file.monitor_style {
                    Some(value) => value,
                    None => defaults.monitor_style,
                },
                launch_at_start: match file.launch_at_start {
                    Some(value) => value,
                    None => defaults.launch_at_start,
                },
                lock_in_place: match file.lock_in_place {
                    Some(value) => value,
                    None => defaults.lock_in_place,
                },
                lock_size: match file.lock_size {
                    Some(value) => value,
                    None => defaults.lock_size,
                },
                shell: match file.shell {
                    Some(value) => value,
                    None => defaults.shell,
                },
                terminal_style: match file.terminal_style {
                    Some(value) => SectionStyle::from_file(value, defaults.terminal_style),
                    None => defaults.terminal_style,
                },
                monitoring_style: match file.monitoring_style {
                    Some(value) => SectionStyle::from_file(value, defaults.monitoring_style),
                    None => defaults.monitoring_style,
                },
                shortcuts_style: match file.shortcuts_style {
                    Some(value) => SectionStyle::from_file(value, defaults.shortcuts_style),
                    None => defaults.shortcuts_style,
                },
                terminal_layout: match file.terminal_layout {
                    Some(value) => WidgetLayout::from_file(value, defaults.terminal_layout),
                    None => defaults.terminal_layout,
                },
                monitoring_layout: match file.monitoring_layout {
                    Some(value) => WidgetLayout::from_file(value, defaults.monitoring_layout),
                    None => defaults.monitoring_layout,
                },
                shortcuts_layout: match file.shortcuts_layout {
                    Some(value) => WidgetLayout::from_file(value, defaults.shortcuts_layout),
                    None => defaults.shortcuts_layout,
                },
            },
        }
    }

    /// What is written to the persisted file: every setting, with its
    /// value.
    pub fn save(&self) -> (file: SettingsFile)
        ensures
            records(file, self@),
    {
        SettingsFile {
            theme: Some(self.theme),
            show_terminal: Some(self.show_terminal),
            show_monitoring: Some(self.show_monitoring),
            show_shortcuts_panel: Some(self.show_shortcuts_panel),
            show_cpu: Some(self.show_cpu),
            show_gpu: Some(self.show_gpu),
            show_ram: Some(self.show_ram),
            show_network: Some(self.show_network),
            monitor_style: Some(self.monitor_style),
            launch_at_start: Some(self.launch_at_start),
            lock_in_place: Some(self.lock_in_place),
            lock_size: Some(self.lock_size),
            shell: Some(self.shell.clone()),
            terminal_style: Some(self.terminal_style.to_file()),
            monitoring_style: Some(self.monitoring_style.to_file()),
            shortcuts_style: Some(self.shortcuts_style.to_file()),
            terminal_layout: Some(self.terminal_layout.to_file()),
            monitoring_layout: Some(self.monitoring_layout.to_file()),
            shortcuts_layout: Some(self.shortcuts_layout.to_file()),
        }
    }

    /// Turns starting with the session on or off. Only that setting
    /// changes. The result says what has to happen to the registration with
    /// the operating system, which is to be done after the settings have
    /// been persisted; whether it succeeds does not touch the setting.
    pub fn set_auto_launch(&mut self, enable: bool) -> (change: AutoLaunchChange)
        ensures
            final(self)@ == (SettingsView { launch_at_start: enable, ..old(self)@ }),
            change == if enable {
                AutoLaunchChange::Enable
            } else {
                AutoLaunchChange::Disable
            },
    {
        self.launch_at_start = enable;
        if enable {
            AutoLaunchChange::Enable
        } else {
            AutoLaunchChange::Disable
        }
    }
}

/// A file that gives no setting loads as the defaults.
pub proof fn lemma_nothing_given_is_defaults(defaults: SettingsView, file: SettingsFile)
    requires
        gives_nothing(file),
    ensures
        merged(defaults, file) == defaults,
{
}

/// What was saved loads as the very settings it was saved from, whatever
/// the defaults are at the time of loading.
pub proof fn lemma_load_of_saved(file: SettingsFile, settings: SettingsView, defaults: SettingsView)
    requires
        records(file, settings),
    ensures
        merged(defaults, file) == settings,
{
}

/// Saving what was loaded and loading that again changes nothing: the file
/// written for loaded settings loads as the same settings.
pub proof fn lemma_load_is_idempotent(
    persisted: Option<SettingsFile>,
    env_shell: Option<Seq<char>>,
    saved: SettingsFile,
    later_env_shell: Option<Seq<char>>,
)
    requires
        records(saved, loaded(persisted, env_shell)),
    ensures
        loaded(Some(saved), later_env_shell) == loaded(persisted, env_shell),
{
    lemma_load_of_saved(saved, loaded(persisted, env_shell), default_settings(later_env_shell));
}

} // verus!
