use vitray_widget::settings::{
    default_font, default_shell, AutoLaunchChange, MonitorStyle, SectionStyle, SectionStyleFile,
    Settings, SettingsFile, Theme, WidgetLayout, WidgetLayoutFile,
};

fn no_style() -> SectionStyleFile {
    SectionStyleFile {
        opacity: None,
        bg_color: None,
        font_size: None,
        border_radius: None,
        font_family: None,
    }
}

fn full_layout(x: i64, y: i64, width: i64, height: i64) -> WidgetLayoutFile {
    WidgetLayoutFile { x: Some(x), y: Some(y), width: Some(width), height: Some(height) }
}

fn style(font_family: &str) -> SectionStyle {
    SectionStyle {
        opacity: 780,
        bg_color: "#12161e".to_string(),
        font_size: 11_000,
        border_radius: 18_000,
        font_family: font_family.to_string(),
    }
}

fn expected_defaults(shell: &str) -> Settings {
    Settings {
        theme: Theme::Dark,
        show_terminal: true,
        show_monitoring: true,
        show_shortcuts_panel: true,
        show_cpu: true,
        show_gpu: true,
        show_ram: true,
        show_network: true,
        monitor_style: MonitorStyle::Text,
        launch_at_start: false,
        lock_in_place: true,
        lock_size: true,
        shell: shell.to_string(),
        terminal_style: style("Monospace"),
        monitoring_style: style("Sans"),
        shortcuts_style: style("Sans"),
        terminal_layout: WidgetLayout { x: 50_000, y: 50_000, width: 600_000, height: 400_000 },
        monitoring_layout: WidgetLayout { x: 50_000, y: 470_000, width: 600_000, height: 200_000 },
        shortcuts_layout: WidgetLayout { x: 670_000, y: 50_000, width: 250_000, height: 620_000 },
    }
}

#[test]
fn defaults_are_complete() {
    assert_eq!(Settings::defaults(None), expected_defaults("/bin/bash"));
}

#[test]
fn default_shell_follows_the_environment() {
    assert_eq!(Settings::defaults(Some("/usr/bin/fish".to_string())), expected_defaults("/usr/bin/fish"));
    assert_eq!(default_shell(Some("/bin/zsh".to_string())), "/bin/zsh");
    assert_eq!(default_shell(None), "/bin/bash");
}

#[test]
fn default_font_is_sans() {
    assert_eq!(default_font(), "Sans");
}

#[test]
fn default_section_style_is_translucent_dark() {
    assert_eq!(SectionStyle::default(), style("Sans"));
}

#[test]
fn default_layout_is_at_the_origin() {
    assert_eq!(WidgetLayout::default(), WidgetLayout { x: 0, y: 0, width: 300_000, height: 200_000 });
}

#[test]
fn load_without_a_file_gives_the_defaults() {
    assert_eq!(Settings::load(None, None), expected_defaults("/bin/bash"));
    assert_eq!(Settings::load(None, Some("/bin/sh".to_string())), expected_defaults("/bin/sh"));
}

#[test]
fn load_of_a_file_that_gives_nothing_gives_the_defaults() {
    assert_eq!(Settings::load(Some(SettingsFile::default()), None), expected_defaults("/bin/bash"));
}

#[test]
fn load_lays_the_file_over_the_defaults() {
    let mut file = SettingsFile::default();
    file.theme = Some(Theme::Tokyo);
    file.show_gpu = Some(false);
    file.monitor_style = Some(MonitorStyle::Chart);
    file.lock_size = Some(false);
    file.shortcuts_layout = Some(full_layout(1, 2, 3, 4));
    let mut expected = expected_defaults("/bin/zsh");
    expected.theme = Theme::Tokyo;
    expected.show_gpu = false;
    expected.monitor_style = MonitorStyle::Chart;
    expected.lock_size = false;
    expected.shortcuts_layout = WidgetLayout { x: 1, y: 2, width: 3, height: 4 };
    assert_eq!(Settings::load(Some(file), Some("/bin/zsh".to_string())), expected);
}

#[test]
fn load_takes_the_shell_of_the_file_over_the_environment() {
    let mut file = SettingsFile::default();
    file.shell = Some("/usr/bin/nu".to_string());
    let loaded = Settings::load(Some(file), Some("/bin/zsh".to_string()));
    assert_eq!(loaded, expected_defaults("/usr/bin/nu"));
}

#[test]
fn load_takes_every_toggle_of_the_file() {
    let mut file = SettingsFile::default();
    file.show_terminal = Some(false);
    file.show_monitoring = Some(false);
    file.show_shortcuts_panel = Some(false);
    file.show_cpu = Some(false);
    file.show_ram = Some(false);
    file.show_network = Some(false);
    file.launch_at_start = Some(true);
    file.lock_in_place = Some(false);
    let loaded = Settings::load(Some(file), None);
    let mut expected = expected_defaults("/bin/bash");
    expected.show_terminal = false;
    expected.show_monitoring = false;
    expected.show_shortcuts_panel = false;
    expected.show_cpu = false;
    expected.show_ram = false;
    expected.show_network = false;
    expected.launch_at_start = true;
    expected.lock_in_place = false;
    assert_eq!(loaded, expected);
}

#[test]
fn section_that_gives_only_some_parts_gets_the_rest_from_its_own_default() {
    let mut file = SettingsFile::default();
    file.show_cpu = Some(false);
    file.terminal_style = Some(SectionStyleFile { opacity: Some(500), ..no_style() });
    let loaded = Settings::load(Some(file), None);
    let mut expected = expected_defaults("/bin/bash");
    expected.show_cpu = false;
    expected.terminal_style = SectionStyle {
        opacity: 500,
        bg_color: "#12161e".to_string(),
        font_size: 11_000,
        border_radius: 18_000,
        font_family: "Monospace".to_string(),
    };
    assert_eq!(loaded, expected);
}

#[test]
fn section_without_a_font_gets_the_font_of_its_own_default() {
    let given = SectionStyleFile {
        opacity: Some(500),
        bg_color: Some("#000000".to_string()),
        font_size: Some(9_500),
        border_radius: Some(0),
        font_family: None,
    };
    let mut file = SettingsFile::default();
    file.terminal_style = Some(SectionStyleFile { font_family: None, ..no_style() });
    file.monitoring_style = Some(given);
    let loaded = Settings::load(Some(file), None);
    assert_eq!(loaded.terminal_style, style("Monospace"));
    assert_eq!(
        loaded.monitoring_style,
        SectionStyle {
            opacity: 500,
            bg_color: "#000000".to_string(),
            font_size: 9_500,
            border_radius: 0,
            font_family: "Sans".to_string(),
        }
    );
    assert_eq!(loaded.shortcuts_style, style("Sans"));
}

#[test]
fn section_that_gives_nothing_is_its_own_default() {
    let mut file = SettingsFile::default();
    file.terminal_style = Some(no_style());
    file.shortcuts_style = Some(no_style());
    file.monitoring_layout =
        Some(WidgetLayoutFile { x: None, y: None, width: None, height: None });
    assert_eq!(Settings::load(Some(file), None), expected_defaults("/bin/bash"));
}

#[test]
fn section_takes_every_part_that_the_file_gives() {
    let given = SectionStyleFile {
        opacity: Some(1_000),
        bg_color: Some("#ffffff".to_string()),
        font_size: Some(14_000),
        border_radius: Some(4_000),
        font_family: Some("Fira Code".to_string()),
    };
    assert_eq!(
        SectionStyle::from_file(given, style("Sans")),
        SectionStyle {
            opacity: 1_000,
            bg_color: "#ffffff".to_string(),
            font_size: 14_000,
            border_radius: 4_000,
            font_family: "Fira Code".to_string(),
        }
    );
    let partly = SectionStyleFile {
        bg_color: Some("#010203".to_string()),
        border_radius: Some(1),
        ..no_style()
    };
    assert_eq!(
        SectionStyle::from_file(partly, style("Serif")),
        SectionStyle {
            opacity: 780,
            bg_color: "#010203".to_string(),
            font_size: 11_000,
            border_radius: 1,
            font_family: "Serif".to_string(),
        }
    );
}

#[test]
fn layout_that_gives_only_some_parts_gets_the_rest_from_its_own_default() {
    let mut file = SettingsFile::default();
    file.terminal_layout =
        Some(WidgetLayoutFile { x: Some(10_000), y: None, width: None, height: Some(5) });
    file.shortcuts_layout =
        Some(WidgetLayoutFile { x: None, y: None, width: Some(123_000), height: None });
    let loaded = Settings::load(Some(file), None);
    assert_eq!(
        loaded.terminal_layout,
        WidgetLayout { x: 10_000, y: 50_000, width: 600_000, height: 5 }
    );
    assert_eq!(
        loaded.shortcuts_layout,
        WidgetLayout { x: 670_000, y: 50_000, width: 123_000, height: 620_000 }
    );
    assert_eq!(
        loaded.monitoring_layout,
        WidgetLayout { x: 50_000, y: 470_000, width: 600_000, height: 200_000 }
    );
    assert_eq!(
        WidgetLayout::from_file(
            WidgetLayoutFile { x: None, y: Some(-1), width: None, height: None },
            WidgetLayout::default()
        ),
        WidgetLayout { x: 0, y: -1, width: 300_000, height: 200_000 }
    );
}

#[test]
fn save_writes_every_setting() {
    let file = expected_defaults("/bin/bash").save();
    assert_eq!(file.theme, Some(Theme::Dark));
    assert_eq!(file.show_terminal, Some(true));
    assert_eq!(file.show_monitoring, Some(true));
    assert_eq!(file.show_shortcuts_panel, Some(true));
    assert_eq!(file.show_cpu, Some(true));
    assert_eq!(file.show_gpu, Some(true));
    assert_eq!(file.show_ram, Some(true));
    assert_eq!(file.show_network, Some(true));
    assert_eq!(file.monitor_style, Some(MonitorStyle::Text));
    assert_eq!(file.launch_at_start, Some(false));
    assert_eq!(file.lock_in_place, Some(true));
    assert_eq!(file.lock_size, Some(true));
    assert_eq!(file.shell, Some("/bin/bash".to_string()));
    assert_eq!(
        file.terminal_style,
        Some(SectionStyleFile {
            opacity: Some(780),
            bg_color: Some("#12161e".to_string()),
            font_size: Some(11_000),
            border_radius: Some(18_000),
            font_family: Some("Monospace".to_string()),
        })
    );
    assert_eq!(file.monitoring_style, Some(style("Sans").to_file()));
    assert_eq!(file.shortcuts_style, Some(style("Sans").to_file()));
    assert_eq!(file.terminal_layout, Some(full_layout(50_000, 50_000, 600_000, 400_000)));
    assert_eq!(file.monitoring_layout, Some(full_layout(50_000, 470_000, 600_000, 200_000)));
    assert_eq!(file.shortcuts_layout, Some(full_layout(670_000, 50_000, 250_000, 620_000)));
}

#[test]
fn saved_settings_load_as_themselves() {
    let mut settings = expected_defaults("/usr/bin/fish");
    settings.theme = Theme::Solarized;
    settings.monitor_style = MonitorStyle::Bar;
    settings.show_network = false;
    settings.launch_at_start = true;
    settings.terminal_style.font_family = "JetBrains Mono".to_string();
    settings.monitoring_style.opacity = 333;
    settings.shortcuts_style.bg_color = "#abcdef".to_string();
    settings.terminal_layout = WidgetLayout { x: -5_000, y: 0, width: 1, height: i64::MAX };
    assert_eq!(Settings::load(Some(settings.save()), None), settings);
    assert_eq!(Settings::load(Some(settings.save()), Some("/bin/other".to_string())), settings);
}

#[test]
fn loading_twice_gives_the_same_settings() {
    let mut file = SettingsFile::default();
    file.theme = Some(Theme::Light);
    file.show_cpu = Some(false);
    file.monitoring_style = Some(SectionStyleFile {
        opacity: Some(100),
        bg_color: None,
        font_size: Some(8_000),
        border_radius: None,
        font_family: None,
    });
    file.terminal_layout =
        Some(WidgetLayoutFile { x: Some(7), y: None, width: None, height: None });
    let first = Settings::load(Some(file), Some("/bin/zsh".to_string()));
    let second = Settings::load(Some(first.save()), Some("/bin/bash".to_string()));
    assert_eq!(second, first);
    let third = Settings::load(Some(second.save()), None);
    assert_eq!(third, first);
}

#[test]
fn set_auto_launch_changes_only_that_setting() {
    let mut settings = expected_defaults("/bin/bash");
    assert_eq!(settings.set_auto_launch(true), AutoLaunchChange::Enable);
    let mut expected = expected_defaults("/bin/bash");
    expected.launch_at_start = true;
    assert_eq!(settings, expected);
    assert_eq!(settings.set_auto_launch(true), AutoLaunchChange::Enable);
    assert_eq!(settings, expected);
    assert_eq!(settings.set_auto_launch(false), AutoLaunchChange::Disable);
    assert_eq!(settings, expected_defaults("/bin/bash"));
}

#[test]
fn set_auto_launch_is_what_gets_saved() {
    let mut settings = expected_defaults("/bin/bash");
    settings.set_auto_launch(true);
    assert_eq!(settings.save().launch_at_start, Some(true));
    assert!(Settings::load(Some(settings.save()), None).launch_at_start);
}

#[test]
fn cloned_settings_are_equal() {
    let settings = expected_defaults("/bin/bash");
    assert_eq!(settings.clone(), settings);
    assert_eq!(style("Serif").clone(), style("Serif"));
}
