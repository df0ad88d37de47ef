use rust_flipit::ini_file::IniFile;

fn sample() -> IniFile {
    IniFile::parse(
        "flipit.ini",
        "[General]\nDisplay24Hr=1\n  Scale = 70  \n; a comment\n# another\nno equals sign here\n[Screen DISPLAY1]\nDisplayType=6\n",
    )
}

#[test]
fn parse_reads_sections_and_trims() {
    let ini = sample();
    assert!(ini.section_exists("General"));
    assert!(ini.section_exists("Screen DISPLAY1"));
    assert!(!ini.section_exists("Screen DISPLAY2"));
    assert_eq!(ini.get_int("General", "Scale", 100), 70);
    assert!(ini.get_bool("General", "Display24Hr", false));
    assert_eq!(ini.get_int("Screen DISPLAY1", "DisplayType", 1), 6);
    assert_eq!(ini.get_keys("General"), vec!["Display24Hr".to_string(), "Scale".to_string()]);
    assert_eq!(ini.get_string("General", "no equals sign here"), None);
}

#[test]
fn entries_before_any_section_go_to_root() {
    let ini = IniFile::parse("x.ini", "a=b\n[S]\nc=d");
    assert_eq!(ini.get_string("ROOT", "a"), Some("b"));
    assert_eq!(ini.get_string("S", "c"), Some("d"));
}

#[test]
fn value_split_at_first_equals_sign() {
    let ini = IniFile::parse("x.ini", "[S]\nk = a=b \n");
    assert_eq!(ini.get_string("S", "k"), Some("a=b"));
}

#[test]
fn crlf_line_ends_are_trimmed() {
    let ini = IniFile::parse("x.ini", "[A]\r\nk=v\r\n");
    assert_eq!(ini.get_string("A", "k"), Some("v"));
}

#[test]
fn later_value_wins() {
    let ini = IniFile::parse("x.ini", "[A]\nk=1\nk=2\n[A]\nj=3\n");
    assert_eq!(ini.get_string("A", "k"), Some("2"));
    assert_eq!(ini.get_keys("A"), vec!["j".to_string(), "k".to_string()]);
}

#[test]
fn empty_text_has_nothing() {
    let ini = IniFile::parse("x.ini", "");
    assert!(!ini.section_exists("ROOT"));
    assert_eq!(ini.to_text(), "");
    assert!(ini.get_keys("ROOT").is_empty());
}

#[test]
fn get_int_edge_cases() {
    let ini = IniFile::parse(
        "x.ini",
        "[N]\nbig=2147483648\nmin=-2147483648\nplus=+5\nword=abc\nempty=\nsign=-\nspace=1 2\n",
    );
    assert_eq!(ini.get_int("N", "big", 7), 7);
    assert_eq!(ini.get_int("N", "min", 7), i32::MIN);
    assert_eq!(ini.get_int("N", "plus", 7), 5);
    assert_eq!(ini.get_int("N", "word", 7), 7);
    assert_eq!(ini.get_int("N", "empty", 7), 7);
    assert_eq!(ini.get_int("N", "sign", 7), 7);
    assert_eq!(ini.get_int("N", "space", 7), 7);
    assert_eq!(ini.get_int("N", "missing", -3), -3);
    assert_eq!(ini.get_int("Missing", "missing", 4), 4);
}

#[test]
fn get_bool_reads_only_one_as_true() {
    let ini = IniFile::parse("x.ini", "[B]\ntwo=2\none=1\nzero=0\n");
    assert!(!ini.get_bool("B", "two", true));
    assert!(ini.get_bool("B", "one", false));
    assert!(!ini.get_bool("B", "zero", true));
    assert!(ini.get_bool("B", "missing", true));
    assert!(!ini.get_bool("B", "missing", false));
}

#[test]
fn set_then_get_returns_written_value() {
    let mut ini = IniFile::new("x.ini");
    ini.set_string("S", "k", "v");
    ini.set_string("S", "k", "w");
    ini.set_string("S", "other", "o");
    assert_eq!(ini.get_string("S", "k"), Some("w"));
    assert_eq!(ini.get_string("S", "other"), Some("o"));
    ini.set_int("S", "n", -42);
    assert_eq!(ini.get_string("S", "n"), Some("-42"));
    assert_eq!(ini.get_int("S", "n", 0), -42);
    ini.set_int("S", "m", i32::MIN);
    assert_eq!(ini.get_int("S", "m", 0), i32::MIN);
    ini.set_bool("S", "b", true);
    assert_eq!(ini.get_string("S", "b"), Some("1"));
    assert!(ini.get_bool("S", "b", false));
    ini.set_bool("S", "b", false);
    assert_eq!(ini.get_string("S", "b"), Some("0"));
    assert!(!ini.get_bool("S", "b", true));
}

#[test]
fn delete_key_keeps_empty_section() {
    let mut ini = IniFile::new("x.ini");
    ini.set_string("S", "k", "v");
    ini.delete_key("S", "k");
    ini.delete_key("S", "absent");
    ini.delete_key("Absent", "k");
    assert!(ini.section_exists("S"));
    assert_eq!(ini.get_string("S", "k"), None);
    assert!(ini.get_keys("S").is_empty());
    assert_eq!(ini.to_text(), "");
}

#[test]
fn delete_section_removes_everything() {
    let mut ini = sample();
    ini.delete_section("General");
    ini.delete_section("Absent");
    assert!(!ini.section_exists("General"));
    assert_eq!(ini.get_int("General", "Scale", 100), 100);
    assert!(ini.section_exists("Screen DISPLAY1"));
}

#[test]
fn text_is_in_name_order() {
    let mut ini = IniFile::new("x.ini");
    ini.set_string("b", "x", "1");
    ini.set_string("a", "z", "2");
    ini.set_string("a", "y", "3");
    ini.set_string("B", "q", "4");
    assert_eq!(ini.to_text(), "[B]\nq=4\n\n[a]\ny=3\nz=2\n\n[b]\nx=1\n\n");
    assert_eq!(ini.get_keys("a"), vec!["y".to_string(), "z".to_string()]);
}

#[test]
fn text_round_trip() {
    let mut ini = IniFile::new("x.ini");
    ini.set_string("General", "Scale", "70");
    ini.set_string("Screen DISPLAY1 Locations", "New York (EST)", "Eastern Standard Time");
    ini.set_string("Screen DISPLAY1 Locations", "", "");
    ini.set_string("Empty", "gone", "x");
    ini.delete_key("Empty", "gone");
    let back = IniFile::parse("x.ini", &ini.to_text());
    assert_eq!(back.to_text(), ini.to_text());
    assert_eq!(back.get_string("General", "Scale"), Some("70"));
    assert_eq!(
        back.get_string("Screen DISPLAY1 Locations", "New York (EST)"),
        Some("Eastern Standard Time")
    );
    assert_eq!(back.get_string("Screen DISPLAY1 Locations", ""), Some(""));
    assert!(!back.section_exists("Empty"));
}

#[test]
fn unicode_names_sort_by_code_point() {
    let mut ini = IniFile::new("x.ini");
    ini.set_string("S", "é", "1");
    ini.set_string("S", "z", "2");
    ini.set_string("S", "Z", "3");
    assert_eq!(ini.get_keys("S"), vec!["Z".to_string(), "z".to_string(), "é".to_string()]);
}

#[test]
fn same_contents_same_layout() {
    let mut a = IniFile::new("x.ini");
    a.set_string("S", "k2", "2");
    a.set_string("T", "k", "t");
    a.set_string("S", "k1", "1");
    let mut b = IniFile::new("y.ini");
    b.set_string("T", "k", "old");
    b.set_string("S", "k1", "1");
    b.set_string("T", "k", "t");
    b.set_string("S", "k2", "2");
    assert_eq!(a.to_text(), b.to_text());
    assert_eq!(a.path(), "x.ini");
    assert_eq!(b.path(), "y.ini");
}

#[test]
fn write_survives_changes_elsewhere() {
    let mut ini = IniFile::new("x.ini");
    ini.set_string("S", "k", "v");
    ini.set_string("S", "j", "1");
    ini.set_int("T", "k", 5);
    ini.delete_key("S", "j");
    ini.delete_section("T");
    ini.set_bool("S", "kk", true);
    ini.delete_key("U", "k");
    ini.delete_section("s");
    assert_eq!(ini.get_string("S", "k"), Some("v"));
    ini.delete_section("S");
    assert_eq!(ini.get_string("S", "k"), None);
}
