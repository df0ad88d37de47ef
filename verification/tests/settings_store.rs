use rust_flipit::display_type::DisplayType;
use rust_flipit::ini_file::IniFile;
use rust_flipit::location::Location;
use rust_flipit::clock::UtcDateTime;
use rust_flipit::settings::{settings_base_folder, FlipItSettings, ScreenSetting};

fn devices() -> Vec<(i32, String, i32, i32)> {
    vec![(1, "\\\\.\\DISPLAY1".to_string(), 1920, 1080), (2, "DISPLAY2".to_string(), 1280, 1024)]
}

#[test]
fn display_type_codes() {
    assert_eq!(DisplayType::from_int(0), DisplayType::Nothing);
    assert_eq!(DisplayType::from_int(1), DisplayType::CurrentTime);
    assert_eq!(DisplayType::from_int(6), DisplayType::WorldTime);
    assert_eq!(DisplayType::from_int(2), DisplayType::Nothing);
    assert_eq!(DisplayType::from_int(-1), DisplayType::Nothing);
    for d in [DisplayType::Nothing, DisplayType::CurrentTime, DisplayType::WorldTime] {
        assert_eq!(DisplayType::from_int(d.to_int()), d);
    }
    assert_eq!(DisplayType::WorldTime.to_int(), 6);
}

#[test]
fn screen_setting_new_and_description() {
    let s = ScreenSetting::new(1, "DISPLAY1", 1920, 1080);
    assert_eq!(s.screen_number, 1);
    assert_eq!(s.device_name, "DISPLAY1");
    assert_eq!(s.display_type, DisplayType::CurrentTime);
    assert!(s.locations.is_empty());
    assert_eq!(s.description(), "Screen 1 - 1920 x 1080");
    assert_eq!(ScreenSetting::new(-2, "X", 0, -5).description(), "Screen -2 - 0 x -5");
}

#[test]
fn clean_device_name_strips_backslashes_then_dots() {
    assert_eq!(FlipItSettings::clean_device_name("\\\\.\\DISPLAY1"), "\\DISPLAY1");
    assert_eq!(FlipItSettings::clean_device_name("\\\\..DISPLAY1"), "DISPLAY1");
    assert_eq!(FlipItSettings::clean_device_name(".\\X"), "\\X");
    assert_eq!(FlipItSettings::clean_device_name(""), "");
}

#[test]
fn default_locations_list() {
    let v = FlipItSettings::default_locations();
    assert_eq!(v.len(), 9);
    assert_eq!(v[0].display_name, "Los Angeles");
    assert_eq!(v[0].time_zone_id, "Pacific Standard Time");
    assert_eq!(v[1].display_name, "New York (EST)");
    assert_eq!(v[5].time_zone_id, "UTC");
    assert_eq!(v[8].display_name, "Hawaii");
    assert_eq!(v[8].time_zone_id, "Hawaiian Standard Time");
}

#[test]
fn loading_an_empty_store_gives_defaults() {
    let ini = IniFile::new("Settings.ini");
    let s = FlipItSettings::from_ini(&ini, &devices());
    assert!(s.display_24h);
    assert!(s.show_dst);
    assert_eq!(s.scale, 100);
    assert_eq!(s.font_color, 0x00b7b7b7);
    assert_eq!(s.font_alpha, 255);
    assert_eq!(s.screen_settings.len(), 2);
    assert_eq!(s.screen_settings[0].device_name, "\\DISPLAY1");
    assert_eq!(s.screen_settings[1].device_name, "DISPLAY2");
    assert_eq!(s.screen_settings[1].width, 1280);
    assert_eq!(s.screen_settings[1].display_type, DisplayType::CurrentTime);
}

#[test]
fn loading_reads_screens_and_cities() {
    let ini = IniFile::parse(
        "Settings.ini",
        "[General]\nDisplay24Hr=0\nScale=70\nFontColor=-1\nFontAlpha=128\n[Screen DISPLAY2]\nDisplayType=6\n[Screen DISPLAY2 Locations]\nTokyo=Tokyo Standard Time\nNowhere=\nLondon=GMT Standard Time\n",
    );
    let s = FlipItSettings::from_ini(&ini, &devices());
    assert!(!s.display_24h);
    assert!(s.show_dst);
    assert_eq!(s.scale, 70);
    assert_eq!(s.font_color, 0xffff_ffff);
    assert_eq!(s.font_alpha, 128);
    let screen = &s.screen_settings[1];
    assert_eq!(screen.display_type, DisplayType::WorldTime);
    let cities: Vec<(&str, &str)> =
        screen.locations.iter().map(|l| (l.display_name.as_str(), l.time_zone_id.as_str())).collect();
    assert_eq!(cities, vec![("London", "GMT Standard Time"), ("Tokyo", "Tokyo Standard Time")]);
    assert_eq!(s.screen_settings[0].display_type, DisplayType::CurrentTime);
}

#[test]
fn screen_section_without_display_type_reads_current_time() {
    let ini = IniFile::parse("Settings.ini", "[Screen DISPLAY2]\nOther=1\n");
    let s = FlipItSettings::from_ini(&ini, &devices());
    assert_eq!(s.screen_settings[1].display_type, DisplayType::CurrentTime);
    let ini = IniFile::parse("Settings.ini", "[Screen DISPLAY2]\nDisplayType=3\n");
    let s = FlipItSettings::from_ini(&ini, &devices());
    assert_eq!(s.screen_settings[1].display_type, DisplayType::Nothing);
}

#[test]
fn saving_then_loading_gives_settings_back() {
    let mut screen = ScreenSetting::new(2, "DISPLAY2", 1280, 1024);
    screen.display_type = DisplayType::WorldTime;
    screen.locations.push(Location::new("Tokyo Standard Time", "Tokyo"));
    screen.locations.push(Location::new("UTC", "Greenwich"));
    let settings = FlipItSettings {
        display_24h: false,
        show_dst: false,
        scale: 40,
        font_color: 0x00ff_8000,
        font_alpha: 200,
        screen_settings: vec![ScreenSetting::new(1, "\\DISPLAY1", 1920, 1080), screen],
    };
    let mut ini = IniFile::parse("Settings.ini", "[Screen DISPLAY2 Locations]\nOld=UTC\n");
    settings.write_to(&mut ini);
    let back_ini = IniFile::parse("Settings.ini", &ini.to_text());
    let back = FlipItSettings::from_ini(&back_ini, &devices());
    assert_eq!(back.display_24h, false);
    assert_eq!(back.show_dst, false);
    assert_eq!(back.scale, 40);
    assert_eq!(back.font_color, 0x00ff_8000);
    assert_eq!(back.font_alpha, 200);
    assert_eq!(back.screen_settings[1].display_type, DisplayType::WorldTime);
    let cities: Vec<&str> = back.screen_settings[1].locations.iter().map(|l| l.display_name.as_str()).collect();
    assert_eq!(cities, vec!["Greenwich", "Tokyo"]);
    assert!(!back_ini.get_keys("Screen DISPLAY2 Locations").contains(&"Old".to_string()));
    assert_eq!(back_ini.get_int("Screen \\DISPLAY1", "DisplayType", 9), 1);
}

#[test]
fn large_colour_is_stored_as_negative_number() {
    let settings = FlipItSettings {
        display_24h: true,
        show_dst: true,
        scale: 100,
        font_color: 0xffff_ffff,
        font_alpha: 255,
        screen_settings: vec![],
    };
    let mut ini = IniFile::new("x.ini");
    settings.write_to(&mut ini);
    assert_eq!(ini.get_string("General", "FontColor"), Some("-1"));
    assert_eq!(ini.get_string("General", "Display24Hr"), Some("1"));
    assert_eq!(ini.get_string("General", "FontAlpha"), Some("255"));
}

#[test]
fn settings_folder_base() {
    assert_eq!(settings_base_folder(Some("D:\\Local"), Some("C:\\Users\\me")), "D:\\Local");
    assert_eq!(settings_base_folder(None, Some("C:\\Users\\me")), "C:\\Users\\me\\AppData\\Local");
    assert_eq!(settings_base_folder(None, None), "C:\\\\AppData\\Local");
}

#[test]
fn default_locations_all_refresh_and_differ() {
    let now = UtcDateTime::new(2024, 6, 1, 12, 0, 0).unwrap();
    let mut v = FlipItSettings::default_locations();
    for l in v.iter_mut() {
        l.refresh_time(&now);
        assert!(!l.has_error, "{}", l.time_zone_id);
        assert_eq!(l.current_time.len(), 5);
    }
    for i in 0..v.len() {
        for j in 0..v.len() {
            if i != j {
                assert_ne!(v[i].display_name, v[j].display_name);
            }
        }
    }
}

#[test]
fn unsorted_cities_come_back_sorted_through_the_file() {
    let mut s = FlipItSettings {
        display_24h: false,
        show_dst: true,
        scale: 70,
        font_color: 0x00123456,
        font_alpha: 200,
        screen_settings: vec![ScreenSetting::new(1, "DISPLAY1", 1920, 1080)],
    };
    s.screen_settings[0].display_type = DisplayType::WorldTime;
    s.screen_settings[0].locations = vec![
        Location::new("Tokyo Standard Time", "Tokyo"),
        Location::new("GMT Standard Time", "London"),
        Location::new("", "Nowhere"),
        Location::new("UTC", "London"),
    ];
    let mut ini = IniFile::new("Settings.ini");
    s.write_to(&mut ini);
    let back = IniFile::parse("Settings.ini", &ini.to_text());
    let r = FlipItSettings::from_ini(&back, &[(1, "DISPLAY1".to_string(), 1920, 1080)]);
    assert!(!r.display_24h);
    assert_eq!(r.scale, 70);
    assert_eq!(r.font_color, 0x00123456);
    assert_eq!(r.font_alpha, 200);
    assert_eq!(r.screen_settings[0].display_type, DisplayType::WorldTime);
    let names: Vec<(&str, &str)> = r.screen_settings[0]
        .locations
        .iter()
        .map(|l| (l.display_name.as_str(), l.time_zone_id.as_str()))
        .collect();
    assert_eq!(names, vec![("London", "UTC"), ("Tokyo", "Tokyo Standard Time")]);
}

#[test]
fn saving_into_an_old_file_keeps_its_sections_and_reads_back() {
    let old = IniFile::parse(
        "Settings.ini",
        "junk line\n; comment\nx = 1\n[Other]\n k = [v] \n[General]\nScale=30\n",
    );
    let mut s = FlipItSettings {
        display_24h: true,
        show_dst: false,
        scale: 50,
        font_color: 0x00b7b7b7,
        font_alpha: 255,
        screen_settings: vec![ScreenSetting::new(1, "DISPLAY1", 1920, 1080)],
    };
    s.screen_settings[0].locations = vec![
        Location::new("Tokyo Standard Time", "Tokyo"),
        Location::new("GMT Standard Time", "London"),
    ];
    let mut ini = old;
    s.write_to(&mut ini);
    let text = ini.to_text();
    let back = IniFile::parse("Settings.ini", &text);
    assert_eq!(back.get_string("Other", "k"), Some("[v]"));
    assert_eq!(back.get_string("ROOT", "x"), Some("1"));
    let r = FlipItSettings::from_ini(&back, &[(1, "DISPLAY1".to_string(), 1920, 1080)]);
    assert!(!r.show_dst);
    assert_eq!(r.scale, 50);
    let names: Vec<&str> = r.screen_settings[0].locations.iter().map(|l| l.display_name.as_str()).collect();
    assert_eq!(names, vec!["London", "Tokyo"]);
}
