//! The screensaver's settings: general options and, for each screen, what
//! it shows; read from and written to the INI store.

use vstd::prelude::*;
use crate::display_type::{DisplayType, display_code, display_of_code};
use crate::assoc::{assoc_map, keys_of, keys_sorted, keys_unique, lemma_sorted_unique, lemma_assoc_lookup, lemma_assoc_insert, lemma_assoc_determined};
use crate::ini_file::{ini_wf, ini_model, section_maps};
use crate::number::lemma_int_text_parses;
use crate::display_type::lemma_display_code_round_trip;
use crate::ini_laws::{lemma_get_after_set, lemma_get_int_after_set_int, lemma_get_bool_after_set_bool, lemma_text_round_trip, ini_writable, without_empty_sections, model_writable, entry_writable, plain_text, lemma_set_writable, lemma_writable_store};
use crate::number::{dec, is_digit, lemma_dec_digits};
use crate::text::{lacks, is_white_space};
use crate::ini_file::{ini_text, text_model};
use crate::ini_file::{IniFile, ini_get, ini_set, int_or, section_entries};
use crate::location::Location;
use crate::time_zones::{time_zone_table, zone_offset_secs, lemma_table_minutes_found, lemma_table_within_half_day};
use crate::number::{int_text, push_int};
use crate::text::{chars_of, string_of_range, push_str, str_lt};

verus! {

/// One screen: its number and device name, its size, what it shows and,
/// for world time, its cities.
#[derive(Debug, Clone)]
pub struct ScreenSetting {
    pub screen_number: i32,
    pub device_name: String,
    pub width: i32,
    pub height: i32,
    pub display_type: DisplayType,
    pub locations: Vec<Location>,
}

/// All settings.
#[derive(Debug, Clone)]
pub struct FlipItSettings {
    pub display_24h: bool,
    pub show_dst: bool,
    /// Clock size, 0 to 100 in steps of 10.
    pub scale: i32,
    /// The text colour as GDI stores it (0x00BBGGRR).
    pub font_color: u32,
    /// The text opacity, 0 to 255.
    pub font_alpha: u32,
    pub screen_settings: Vec<ScreenSetting>,
}

/// `s` without the leading copies of `c` (`str::trim_start_matches`).
pub open spec fn strip_leading(s: Seq<char>, c: char) -> Seq<char>
    decreases s.len(),
{
    if s.len() > 0 && s[0] == c {
        strip_leading(s.drop_first(), c)
    } else {
        s
    }
}

/// A Windows device name such as `\\.\DISPLAY1` without its leading
/// backslashes and then dots.
pub open spec fn clean_name(s: Seq<char>) -> Seq<char> {
    strip_leading(strip_leading(s, '\\'), '.')
}

/// Stripping leading copies of `c` leaves a suffix of `s` that does not
/// start with `c`, and drops only copies of `c`.
pub proof fn lemma_strip_leading(s: Seq<char>, c: char) -> (k: int)
    ensures
        0 <= k <= s.len(),
        strip_leading(s, c) == s.skip(k),
        forall|i: int| 0 <= i < k ==> s[i] == c,
        k < s.len() ==> s[k] != c,
    decreases s.len(),
{
    if s.len() > 0 && s[0] == c {
        let k = lemma_strip_leading(s.drop_first(), c);
        assert(s.drop_first().skip(k) =~= s.skip(k + 1));
        assert forall|i: int| 0 <= i < k + 1 implies s[i] == c by {
            if i > 0 {
                assert(s[i] == s.drop_first()[i - 1]);
            }
        }
        if k + 1 < s.len() {
            assert(s[k + 1] == s.drop_first()[k]);
        }
        k + 1
    } else {
        assert(s.skip(0) =~= s);
        0
    }
}

/// A device name loses exactly its leading backslashes and then the dots
/// after them: what is left is the rest of the name, which does not start
/// with a dot.
pub proof fn lemma_clean_name(s: Seq<char>) -> (r: (int, int))
    ensures
        0 <= r.0 <= r.1 <= s.len(),
        clean_name(s) == s.skip(r.1),
        forall|i: int| 0 <= i < r.0 ==> s[i] == '\\',
        forall|i: int| r.0 <= i < r.1 ==> s[i] == '.',
        r.0 < s.len() ==> s[r.0] != '\\',
        r.1 < s.len() ==> s[r.1] != '.',
{
    let a = lemma_strip_leading(s, '\\');
    let t = s.skip(a);
    let k = lemma_strip_leading(t, '.');
    assert(t.skip(k) =~= s.skip(a + k));
    assert forall|i: int| a <= i < a + k implies s[i] == '.' by {
        assert(t[i - a] == s[i]);
    }
    if a + k < s.len() {
        assert(t[k] == s[a + k]);
    }
    if k == 0 && a < s.len() {
        assert(t[0] == s[a]);
    }
    if k > 0 {
        assert(t[0] == s[a]);
    }
    (a, a + k)
}

/// The INI section of a screen's options: `Screen ` and its device name.
pub open spec fn screen_section(name: Seq<char>) -> Seq<char> {
    "Screen "@ + name
}

/// The INI section of a screen's cities.
pub open spec fn locations_section(name: Seq<char>) -> Seq<char> {
    "Screen "@ + name + " Locations"@
}

/// The entries of a cities section that name a zone, in key order.
pub open spec fn named_zones(e: Seq<(Seq<char>, Seq<char>)>) -> Seq<(Seq<char>, Seq<char>)>
    decreases e.len(),
{
    if e.len() == 0 {
        Seq::empty()
    } else if e.last().1.len() > 0 {
        named_zones(e.drop_last()).push(e.last())
    } else {
        named_zones(e.drop_last())
    }
}

/// What loading reads of the general options: the 24-hour flag (default
/// on), the daylight-time flag (default on), the scale (default 100), the
/// colour (default 0x00B7B7B7) and the opacity (default 255).
pub open spec fn loaded_general(m: Map<Seq<char>, Map<Seq<char>, Seq<char>>>) -> (bool, bool, i32, u32, u32) {
    (
        int_or(ini_get(m, "General"@, "Display24Hr"@), 1) == 1,
        int_or(ini_get(m, "General"@, "ShowDstIndicator"@), 1) == 1,
        int_or(ini_get(m, "General"@, "Scale"@), 100),
        int_or(ini_get(m, "General"@, "FontColor"@), 0x00b7b7b7) as u32,
        int_or(ini_get(m, "General"@, "FontAlpha"@), 255) as u32,
    )
}

/// What loading reads for the screen `device` from the store `v`: its
/// number, clean device name and size; its display type when the store has
/// its section (`DisplayType`, default the current time), else the current
/// time; and a city for each entry of its cities section that names a zone.
pub open spec fn loaded_screen(
    v: Seq<(Seq<char>, Seq<(Seq<char>, Seq<char>)>)>,
    m: Map<Seq<char>, Map<Seq<char>, Seq<char>>>,
    device: (i32, String, i32, i32),
    ss: ScreenSetting,
) -> bool {
    let name = clean_name(device.1@);
    let zones = named_zones(section_entries(v, locations_section(name)));
    &&& ss.screen_number == device.0
    &&& ss.device_name@ == name
    &&& ss.width == device.2
    &&& ss.height == device.3
    &&& ss.display_type == (if m.contains_key(screen_section(name)) {
        display_of_code(int_or(ini_get(m, screen_section(name), "DisplayType"@), 1))
    } else {
        DisplayType::CurrentTime
    })
    &&& ss.locations@.len() == zones.len()
    &&& forall|j: int|
        #![trigger ss.locations@[j]]
        0 <= j < zones.len() ==> ss.locations@[j].is_new(zones[j].1, zones[j].0)
}

/// A flag as written: `1` or `0`.
pub open spec fn bool_text(b: bool) -> Seq<char> {
    if b { seq!['1'] } else { seq!['0'] }
}

/// The store after saving the general options.
pub open spec fn with_general(
    m: Map<Seq<char>, Map<Seq<char>, Seq<char>>>,
    s: FlipItSettings,
) -> Map<Seq<char>, Map<Seq<char>, Seq<char>>> {
    let m1 = ini_set(m, "General"@, "Display24Hr"@, bool_text(s.display_24h));
    let m2 = ini_set(m1, "General"@, "ShowDstIndicator"@, bool_text(s.show_dst));
    let m3 = ini_set(m2, "General"@, "Scale"@, int_text(s.scale as int));
    let m4 = ini_set(m3, "General"@, "FontColor"@, int_text((s.font_color as i32) as int));
    ini_set(m4, "General"@, "FontAlpha"@, int_text((s.font_alpha as i32) as int))
}

/// The store after writing the cities `locs` into `section`, in order.
pub open spec fn with_locations(
    m: Map<Seq<char>, Map<Seq<char>, Seq<char>>>,
    section: Seq<char>,
    locs: Seq<Location>,
) -> Map<Seq<char>, Map<Seq<char>, Seq<char>>>
    decreases locs.len(),
{
    if locs.len() == 0 {
        m
    } else {
        ini_set(
            with_locations(m, section, locs.drop_last()),
            section,
            locs.last().display_name@,
            locs.last().time_zone_id@,
        )
    }
}

/// The store after saving one screen: its display type, then its cities
/// section written afresh.
pub open spec fn with_screen(
    m: Map<Seq<char>, Map<Seq<char>, Seq<char>>>,
    ss: ScreenSetting,
) -> Map<Seq<char>, Map<Seq<char>, Seq<char>>> {
    let m1 = ini_set(
        m,
        screen_section(ss.device_name@),
        "DisplayType"@,
        int_text(display_code(ss.display_type) as int),
    );
    let loc = locations_section(ss.device_name@);
    with_locations(m1.remove(loc), loc, ss.locations@)
}

/// The store after saving the screens in order.
pub open spec fn with_screens(
    m: Map<Seq<char>, Map<Seq<char>, Seq<char>>>,
    ss: Seq<ScreenSetting>,
) -> Map<Seq<char>, Map<Seq<char>, Seq<char>>>
    decreases ss.len(),
{
    if ss.len() == 0 {
        m
    } else {
        with_screen(with_screens(m, ss.drop_last()), ss.last())
    }
}

/// The store after saving `s`: the general options, then each screen.
pub open spec fn saved_settings(
    m: Map<Seq<char>, Map<Seq<char>, Seq<char>>>,
    s: FlipItSettings,
) -> Map<Seq<char>, Map<Seq<char>, Seq<char>>> {
    with_screens(with_general(m, s), s.screen_settings@)
}

/// The cities shown by default: each zone id with its city.
pub open spec fn default_location_list() -> Seq<(Seq<char>, Seq<char>)> {
    seq![
        ("Pacific Standard Time"@, "Los Angeles"@),
        ("Eastern Standard Time"@, "New York (EST)"@),
        ("E. Australia Standard Time"@, "Brisbane"@),
        ("New Zealand Standard Time"@, "Wellington"@),
        ("AUS Eastern Standard Time"@, "Melbourne"@),
        ("UTC"@, "UTC"@),
        ("GMT Standard Time"@, "London"@),
        ("Romance Standard Time"@, "Paris"@),
        ("Hawaiian Standard Time"@, "Hawaii"@),
    ]
}

/// Every city shown by default has a zone that the table knows, so that
/// refreshing it never fails, and no two of them share a name.
pub proof fn lemma_default_locations_known()
    ensures
        forall|i: int|
            0 <= i < default_location_list().len() ==> zone_offset_secs(
                (#[trigger] default_location_list()[i]).0,
            ) is Some,
        forall|i: int, j: int|
            0 <= i < default_location_list().len() && 0 <= j < default_location_list().len() && i
                != j ==> (#[trigger] default_location_list()[i]).1 != (
            #[trigger] default_location_list()[j]).1,
{
    let d = default_location_list();
    let t = time_zone_table();
    assert(t.len() == 40) by {
        reveal(time_zone_table);
    }
    assert(t[4].0 == d[0].0 && t[8].0 == d[1].0 && t[38].0 == d[2].0 && t[39].0 == d[3].0 && t[37].0
        == d[4].0 && t[13].0 == d[5].0 && t[14].0 == d[6].0 && t[18].0 == d[7].0 && t[2].0
        == d[8].0) by {
        reveal(time_zone_table);
    }
    let idx = seq![4int, 8, 38, 39, 37, 13, 14, 18, 2];
    assert forall|i: int| 0 <= i < d.len() implies zone_offset_secs(
        (#[trigger] d[i]).0,
    ) is Some by {
        let k = idx[i];
        assert(t[k].0 == d[i].0);
        let j = lemma_table_minutes_found(t, k);
        lemma_table_within_half_day(j);
    }
    reveal_strlit("Los Angeles");
    reveal_strlit("New York (EST)");
    reveal_strlit("Brisbane");
    reveal_strlit("Wellington");
    reveal_strlit("Melbourne");
    reveal_strlit("UTC");
    reveal_strlit("London");
    reveal_strlit("Paris");
    reveal_strlit("Hawaii");
    assert forall|i: int, j: int|
        0 <= i < d.len() && 0 <= j < d.len() && i != j implies (#[trigger] d[i]).1 != (
        #[trigger] d[j]).1 by {
        assert(d[i].1[0] != d[j].1[0] || d[i].1.len() != d[j].1.len() || d[i].1[1] != d[j].1[1]);
    }
}

/// The folder under which the settings folder stands: the local
/// application data folder when it is known, else the `AppData\Local`
/// folder of the user's profile, or of `C:\` when that is not known either.
pub open spec fn base_folder(local_app_data: Option<Seq<char>>, user_profile: Option<Seq<char>>) -> Seq<char> {
    match local_app_data {
        Some(l) => l,
        None => {
            let home = match user_profile {
                Some(h) => h,
                None => "C:\\"@,
            };
            home + "\\AppData\\Local"@
        },
    }
}

/// The folder under which the settings folder stands (`base_folder`), from
/// the values of `LOCALAPPDATA` and `USERPROFILE` where they are set.
pub fn settings_base_folder(local_app_data: Option<&str>, user_profile: Option<&str>) -> (r: String)
    ensures
        r@ == base_folder(
            match local_app_data {
                Some(l) => Some(l@),
                None => None,
            },
            match user_profile {
                Some(h) => Some(h@),
                None => None,
            },
        ),
{
    let mut r = String::new();
    match local_app_data {
        Some(l) => {
            push_str(&mut r, l);
        },
        None => {
            match user_profile {
                Some(h) => push_str(&mut r, h),
                None => push_str(&mut r, "C:\\"),
            }
            push_str(&mut r, "\\AppData\\Local");
        },
    }
    r
}

/// The string `prefix` followed by `name`.
fn prefixed(prefix: &str, name: &str) -> (r: String)
    ensures
        r@ == prefix@ + name@,
{
    let mut s = String::new();
    push_str(&mut s, prefix);
    push_str(&mut s, name);
    assert(s@ =~= prefix@ + name@);
    s
}

/// The string `prefix` followed by `name` and `suffix`.
fn joined(prefix: &str, name: &str, suffix: &str) -> (r: String)
    ensures
        r@ == prefix@ + name@ + suffix@,
{
    let mut s = String::new();
    push_str(&mut s, prefix);
    push_str(&mut s, name);
    push_str(&mut s, suffix);
    assert(s@ =~= prefix@ + name@ + suffix@);
    s
}

impl ScreenSetting {
    /// A screen showing the current time, with no cities.
    pub fn new(screen_number: i32, device_name: &str, width: i32, height: i32) -> (r: Self)
        ensures
            r.screen_number == screen_number,
            r.device_name@ == device_name@,
            r.width == width,
            r.height == height,
            r.display_type == DisplayType::CurrentTime,
            r.locations@.len() == 0,
    {
        ScreenSetting {
            screen_number,
            device_name: device_name.to_owned(),
            width,
            height,
            display_type: DisplayType::CurrentTime,
            locations: Vec::new(),
        }
    }

    /// `Screen N - W x H`.
    pub fn description(&self) -> (r: String)
        ensures
            r@ == "Screen "@ + int_text(self.screen_number as int) + " - "@ + int_text(
                self.width as int,
            ) + " x "@ + int_text(self.height as int),
    {
        let mut s = String::new();
        push_str(&mut s, "Screen ");
        push_int(&mut s, self.screen_number as i64);
        push_str(&mut s, " - ");
        push_int(&mut s, self.width as i64);
        push_str(&mut s, " x ");
        push_int(&mut s, self.height as i64);
        s
    }
}

impl FlipItSettings {
    /// The device name `name` without its leading backslashes and then
    /// dots.
    pub fn clean_device_name(name: &str) -> (r: String)
        ensures
            r@ == clean_name(name@),
    {
        let v = chars_of(name);
        let n = v.len();
        let mut i: usize = 0;
        assert(v@.skip(0) =~= v@);
        while i < n && v[i] == '\\'
            invariant
                i <= n == v@.len(),
                strip_leading(name@, '\\') == strip_leading(v@.skip(i as int), '\\'),
            decreases n - i,
        {
            assert(v@.skip(i as int).drop_first() =~= v@.skip(i + 1));
            i = i + 1;
        }
        let ghost mid = v@.skip(i as int);
        assert(strip_leading(name@, '\\') == mid);
        let mut j = i;
        assert(v@.skip(j as int) =~= mid);
        while j < n && v[j] == '.'
            invariant
                i <= j <= n == v@.len(),
                clean_name(name@) == strip_leading(v@.skip(j as int), '.'),
            decreases n - j,
        {
            assert(v@.skip(j as int).drop_first() =~= v@.skip(j + 1));
            j = j + 1;
        }
        assert(v@.subrange(j as int, n as int) =~= v@.skip(j as int));
        string_of_range(&v, j, n)
    }

    /// The cities shown by default (see `default_location_list`).
    pub fn default_locations() -> (r: Vec<Location>)
        ensures
            r@.len() == default_location_list().len(),
            forall|i: int|
                #![trigger r@[i]]
                0 <= i < r@.len() ==> r@[i].is_new(
                    default_location_list()[i].0,
                    default_location_list()[i].1,
                ),
    {
        let mut v: Vec<Location> = Vec::new();
        v.push(Location::new("Pacific Standard Time", "Los Angeles"));
        v.push(Location::new("Eastern Standard Time", "New York (EST)"));
        v.push(Location::new("E. Australia Standard Time", "Brisbane"));
        v.push(Location::new("New Zealand Standard Time", "Wellington"));
        v.push(Location::new("AUS Eastern Standard Time", "Melbourne"));
        v.push(Location::new("UTC", "UTC"));
        v.push(Location::new("GMT Standard Time", "London"));
        v.push(Location::new("Romance Standard Time", "Paris"));
        v.push(Location::new("Hawaiian Standard Time", "Hawaii"));
        v
    }

    /// The cities of a screen's cities section that name a zone, in key
    /// order.
    fn load_locations(ini: &IniFile, loc_sec: &str) -> (r: Vec<Location>)
        ensures
            r@.len() == named_zones(section_entries(ini@, loc_sec@)).len(),
            forall|j: int|
                #![trigger r@[j]]
                0 <= j < r@.len() ==> r@[j].is_new(
                    named_zones(section_entries(ini@, loc_sec@))[j].1,
                    named_zones(section_entries(ini@, loc_sec@))[j].0,
                ),
    {
        let ghost e = section_entries(ini@, loc_sec@);
        let mut locs: Vec<Location> = Vec::new();
        if ini.section_exists(loc_sec) {
            let keys = ini.get_keys(loc_sec);
            proof {
                lemma_sorted_unique(e);
            }
            let n = keys.len();
            for k in 0..n
                invariant
                    n == keys@.len() == e.len(),
                    forall|i: int| 0 <= i < n ==> #[trigger] keys@[i]@ == e[i].0,
                    crate::assoc::keys_unique(e),
                    ini.model().contains_key(loc_sec@),
                    ini.model()[loc_sec@] == assoc_map(e),
                    locs@.len() == named_zones(e.take(k as int)).len(),
                    forall|j: int|
                        #![trigger locs@[j]]
                        0 <= j < locs@.len() ==> locs@[j].is_new(
                            named_zones(e.take(k as int))[j].1,
                            named_zones(e.take(k as int))[j].0,
                        ),
            {
                assert(e.take(k + 1).drop_last() =~= e.take(k as int));
                assert(e.take(k + 1).last() == e[k as int]);
                proof {
                    lemma_assoc_lookup(e, k as int);
                }
                match ini.get_string(loc_sec, keys[k].as_str()) {
                    Some(tz_id) => {
                        if !tz_id.is_empty() {
                            locs.push(Location::new(tz_id, keys[k].as_str()));
                        }
                    },
                    None => {},
                }
            }
            assert(e.take(n as int) =~= e);
        } else {
            assert(named_zones(e) =~= Seq::<(Seq<char>, Seq<char>)>::empty());
        }
        locs
    }

    /// The settings that the store `ini` holds for the screens
    /// `screen_devices` (number, device name, width, height).
    pub fn from_ini(ini: &IniFile, screen_devices: &[(i32, String, i32, i32)]) -> (r: Self)
        ensures
            (r.display_24h, r.show_dst, r.scale, r.font_color, r.font_alpha) == loaded_general(
                ini.model(),
            ),
            r.screen_settings@.len() == screen_devices@.len(),
            forall|i: int|
                #![trigger r.screen_settings@[i]]
                0 <= i < screen_devices@.len() ==> loaded_screen(
                    ini@,
                    ini.model(),
                    screen_devices@[i],
                    r.screen_settings@[i],
                ),
    {
        let display_24h = ini.get_bool("General", "Display24Hr", true);
        let show_dst = ini.get_bool("General", "ShowDstIndicator", true);
        let scale = ini.get_int("General", "Scale", 100);
        let font_color = #[verifier::truncate] (ini.get_int("General", "FontColor", 0x00b7b7b7) as u32);
        let font_alpha = #[verifier::truncate] (ini.get_int("General", "FontAlpha", 255) as u32);
        let mut screens: Vec<ScreenSetting> = Vec::new();
        let n = screen_devices.len();
        for i in 0..n
            invariant
                n == screen_devices@.len(),
                screens@.len() == i,
                forall|t: int|
                    #![trigger screens@[t]]
                    0 <= t < i ==> loaded_screen(ini@, ini.model(), screen_devices@[t], screens@[t]),
        {
            let (num, device_name, w, h) = &screen_devices[i];
            let clean = Self::clean_device_name(device_name.as_str());
            let sec = prefixed("Screen ", clean.as_str());
            let loc_sec = joined("Screen ", clean.as_str(), " Locations");
            assert(sec@ == screen_section(clean@)) by {
                assert(sec@ =~= screen_section(clean@));
            }
            let mut ss = ScreenSetting::new(*num, clean.as_str(), *w, *h);
            if ini.section_exists(sec.as_str()) {
                let dt = ini.get_int(sec.as_str(), "DisplayType", 1);
                ss.display_type = DisplayType::from_int(dt);
            }
            ss.locations = Self::load_locations(ini, loc_sec.as_str());
            screens.push(ss);
        }
        FlipItSettings { display_24h, show_dst, scale, font_color, font_alpha, screen_settings: screens }
    }

    /// Writes these settings into the store `ini`: the general options,
    /// then for each screen its display type and its cities section
    /// written afresh.
    pub fn write_to(&self, ini: &mut IniFile)
        ensures
            final(ini).model() == saved_settings(old(ini).model(), *self),
            final(ini).path_view() == old(ini).path_view(),
    {
        ini.set_bool("General", "Display24Hr", self.display_24h);
        ini.set_bool("General", "ShowDstIndicator", self.show_dst);
        ini.set_int("General", "Scale", self.scale);
        ini.set_int("General", "FontColor", #[verifier::truncate] (self.font_color as i32));
        ini.set_int("General", "FontAlpha", #[verifier::truncate] (self.font_alpha as i32));
        assert(ini.model() == with_general(old(ini).model(), *self));
        let n = self.screen_settings.len();
        for i in 0..n
            invariant
                n == self.screen_settings@.len(),
                ini.model() == with_screens(with_general(old(ini).model(), *self), self.screen_settings@.take(i as int)),
                ini.path_view() == old(ini).path_view(),
        {
            let screen = &self.screen_settings[i];
            assert(self.screen_settings@.take(i + 1).drop_last() =~= self.screen_settings@.take(i as int));
            let sec = prefixed("Screen ", screen.device_name.as_str());
            assert(sec@ =~= screen_section(screen.device_name@));
            ini.set_int(sec.as_str(), "DisplayType", screen.display_type.to_int());
            let loc_sec = joined("Screen ", screen.device_name.as_str(), " Locations");
            if ini.section_exists(loc_sec.as_str()) {
                ini.delete_section(loc_sec.as_str());
            } else {
                assert(ini.model().remove(loc_sec@) =~= ini.model());
            }
            let ghost cleared = ini.model();
            let m = screen.locations.len();
            for j in 0..m
                invariant
                    m == screen.locations@.len(),
                    ini.model() == with_locations(cleared, loc_sec@, screen.locations@.take(j as int)),
                    ini.path_view() == old(ini).path_view(),
            {
                assert(screen.locations@.take(j + 1).drop_last() =~= screen.locations@.take(j as int));
                ini.set_string(
                    loc_sec.as_str(),
                    screen.locations[j].display_name.as_str(),
                    screen.locations[j].time_zone_id.as_str(),
                );
            }
            assert(screen.locations@.take(m as int) =~= screen.locations@);
        }
        assert(self.screen_settings@.take(n as int) =~= self.screen_settings@);
    }
}


/// The section `g` is the same in `a` as in `b`.
pub open spec fn same_section(
    a: Map<Seq<char>, Map<Seq<char>, Seq<char>>>,
    b: Map<Seq<char>, Map<Seq<char>, Seq<char>>>,
    g: Seq<char>,
) -> bool {
    &&& a.contains_key(g) == b.contains_key(g)
    &&& a.contains_key(g) ==> a[g] == b[g]
}

proof fn lemma_general_differs(name: Seq<char>)
    ensures
        screen_section(name) != "General"@,
        locations_section(name) != "General"@,
{
    reveal_strlit("General");
    reveal_strlit("Screen ");
    assert(screen_section(name)[0] == 'S');
    assert(locations_section(name)[0] == 'S');
}

proof fn lemma_locations_keep(
    m: Map<Seq<char>, Map<Seq<char>, Seq<char>>>,
    sec: Seq<char>,
    locs: Seq<Location>,
    g: Seq<char>,
)
    requires
        sec != g,
    ensures
        same_section(with_locations(m, sec, locs), m, g),
    decreases locs.len(),
{
    if locs.len() > 0 {
        lemma_locations_keep(m, sec, locs.drop_last(), g);
    }
}

proof fn lemma_screens_keep_general(
    m: Map<Seq<char>, Map<Seq<char>, Seq<char>>>,
    ss: Seq<ScreenSetting>,
)
    ensures
        same_section(with_screens(m, ss), m, "General"@),
    decreases ss.len(),
{
    if ss.len() > 0 {
        lemma_screens_keep_general(m, ss.drop_last());
        let name = ss.last().device_name@;
        lemma_general_differs(name);
        let before = with_screens(m, ss.drop_last());
        let m1 = ini_set(
            before,
            screen_section(name),
            "DisplayType"@,
            int_text(display_code(ss.last().display_type) as int),
        );
        lemma_locations_keep(m1.remove(locations_section(name)), locations_section(name), ss.last().locations@, "General"@);
    }
}

/// Saving the settings and loading them back gives back the general
/// options: the clock format, the daylight-time flag, the scale, the colour
/// and the opacity.
pub proof fn lemma_general_round_trip(m: Map<Seq<char>, Map<Seq<char>, Seq<char>>>, s: FlipItSettings)
    ensures
        loaded_general(saved_settings(m, s)) == (s.display_24h, s.show_dst, s.scale, s.font_color, s.font_alpha),
{
    reveal_strlit("Display24Hr");
    reveal_strlit("ShowDstIndicator");
    reveal_strlit("Scale");
    reveal_strlit("FontColor");
    reveal_strlit("FontAlpha");
    let g = "General"@;
    let m1 = ini_set(m, g, "Display24Hr"@, bool_text(s.display_24h));
    let m2 = ini_set(m1, g, "ShowDstIndicator"@, bool_text(s.show_dst));
    let m3 = ini_set(m2, g, "Scale"@, int_text(s.scale as int));
    let c = #[verifier::truncate] (s.font_color as i32);
    let a = #[verifier::truncate] (s.font_alpha as i32);
    let m4 = ini_set(m3, g, "FontColor"@, int_text(c as int));
    let m5 = ini_set(m4, g, "FontAlpha"@, int_text(a as int));
    lemma_screens_keep_general(m5, s.screen_settings@);
    let r = saved_settings(m, s);
    assert forall|k: Seq<char>| #[trigger] ini_get(r, g, k) == ini_get(m5, g, k) by {}
    lemma_get_bool_after_set_bool(m, g, "Display24Hr"@, s.display_24h, true);
    lemma_get_bool_after_set_bool(m1, g, "ShowDstIndicator"@, s.show_dst, true);
    lemma_get_int_after_set_int(m2, g, "Scale"@, s.scale, 100);
    lemma_get_int_after_set_int(m3, g, "FontColor"@, c, 0x00b7b7b7);
    lemma_get_int_after_set_int(m4, g, "FontAlpha"@, a, 255);
    assert("Display24Hr"@ != "ShowDstIndicator"@ && "Display24Hr"@ != "Scale"@ && "Display24Hr"@ != "FontColor"@ && "Display24Hr"@ != "FontAlpha"@) by {
        assert("Display24Hr"@[0] != "ShowDstIndicator"@[0]);
        assert("Display24Hr"@[0] != "Scale"@[0]);
        assert("Display24Hr"@[0] != "FontColor"@[0]);
        assert("Display24Hr"@[0] != "FontAlpha"@[0]);
    }
    assert("ShowDstIndicator"@ != "Scale"@ && "ShowDstIndicator"@ != "FontColor"@ && "ShowDstIndicator"@ != "FontAlpha"@) by {
        assert("ShowDstIndicator"@[1] != "Scale"@[1]);
        assert("ShowDstIndicator"@[0] != "FontColor"@[0]);
        assert("ShowDstIndicator"@[0] != "FontAlpha"@[0]);
    }
    assert("Scale"@ != "FontColor"@ && "Scale"@ != "FontAlpha"@) by {
        assert("Scale"@[0] != "FontColor"@[0]);
        assert("Scale"@[0] != "FontAlpha"@[0]);
    }
    assert("FontColor"@ != "FontAlpha"@) by {
        assert("FontColor"@[4] != "FontAlpha"@[4]);
    }
    lemma_get_after_set(m1, g, "ShowDstIndicator"@, bool_text(s.show_dst), g, "Display24Hr"@);
    lemma_get_after_set(m2, g, "Scale"@, int_text(s.scale as int), g, "Display24Hr"@);
    lemma_get_after_set(m3, g, "FontColor"@, int_text(c as int), g, "Display24Hr"@);
    lemma_get_after_set(m4, g, "FontAlpha"@, int_text(a as int), g, "Display24Hr"@);
    lemma_get_after_set(m2, g, "Scale"@, int_text(s.scale as int), g, "ShowDstIndicator"@);
    lemma_get_after_set(m3, g, "FontColor"@, int_text(c as int), g, "ShowDstIndicator"@);
    lemma_get_after_set(m4, g, "FontAlpha"@, int_text(a as int), g, "ShowDstIndicator"@);
    lemma_get_after_set(m3, g, "FontColor"@, int_text(c as int), g, "Scale"@);
    lemma_get_after_set(m4, g, "FontAlpha"@, int_text(a as int), g, "Scale"@);
    lemma_get_after_set(m4, g, "FontAlpha"@, int_text(a as int), g, "FontColor"@);
    let fc = s.font_color;
    let fa = s.font_alpha;
    assert(((#[verifier::truncate] (fc as i32)) as u32) == fc) by (bit_vector);
    assert(((#[verifier::truncate] (fa as i32)) as u32) == fa) by (bit_vector);
}


/// Each city's name paired with its zone id.
pub open spec fn location_pairs(locs: Seq<Location>) -> Seq<(Seq<char>, Seq<char>)> {
    Seq::new(locs.len(), |j: int| (locs[j].display_name@, locs[j].time_zone_id@))
}

/// The map of names to values that setting the pairs in order leaves.
pub open spec fn pairs_map(ps: Seq<(Seq<char>, Seq<char>)>) -> Map<Seq<char>, Seq<char>>
    decreases ps.len(),
{
    if ps.len() == 0 {
        Map::empty()
    } else {
        pairs_map(ps.drop_last()).insert(ps.last().0, ps.last().1)
    }
}

/// The screens' sections cannot meet: no two device names are equal, and
/// no device name is another's followed by ` Locations`.
pub open spec fn sections_apart(ss: Seq<ScreenSetting>) -> bool {
    forall|i: int, j: int|
        0 <= i < ss.len() && 0 <= j < ss.len() ==> (i != j ==> #[trigger] ss[i].device_name@
            != #[trigger] ss[j].device_name@) && ss[i].device_name@ != ss[j].device_name@
            + " Locations"@
}

proof fn lemma_pairs_map_unique(ps: Seq<(Seq<char>, Seq<char>)>)
    requires
        keys_unique(ps),
    ensures
        pairs_map(ps) == assoc_map(ps),
    decreases ps.len(),
{
    if ps.len() == 0 {
        assert(assoc_map(ps) =~= Map::<Seq<char>, Seq<char>>::empty());
    } else {
        let p = ps.drop_last();
        assert(keys_unique(p)) by {
            assert forall|a: int, b: int|
                0 <= a < p.len() && 0 <= b < p.len() && a != b implies #[trigger] p[a].0
                != #[trigger] p[b].0 by {
                assert(p[a] == ps[a] && p[b] == ps[b]);
            }
        }
        lemma_pairs_map_unique(p);
        assert(ps =~= p.insert(p.len() as int, (ps.last().0, ps.last().1)));
        assert forall|i: int| 0 <= i < p.len() implies p[i].0 != ps.last().0 by {
            assert(p[i] == ps[i]);
            assert(ps.last() == ps[ps.len() - 1]);
        }
        lemma_assoc_insert(p, p.len() as int, ps.last().0, ps.last().1);
    }
}

proof fn lemma_with_locations(
    m: Map<Seq<char>, Map<Seq<char>, Seq<char>>>,
    sec: Seq<char>,
    locs: Seq<Location>,
)
    requires
        !m.contains_key(sec),
    ensures
        with_locations(m, sec, locs).contains_key(sec) == (locs.len() > 0),
        locs.len() > 0 ==> with_locations(m, sec, locs)[sec] == pairs_map(location_pairs(locs)),
        forall|g: Seq<char>| g != sec ==> #[trigger] same_section(with_locations(m, sec, locs), m, g),
    decreases locs.len(),
{
    if locs.len() > 0 {
        let p = locs.drop_last();
        lemma_with_locations(m, sec, p);
        let w = with_locations(m, sec, p);
        let lp = location_pairs(locs);
        assert(lp.drop_last() =~= location_pairs(p));
        assert(lp.last() == (locs.last().display_name@, locs.last().time_zone_id@));
        assert(with_locations(m, sec, locs) == ini_set(w, sec, locs.last().display_name@, locs.last().time_zone_id@));
        assert(pairs_map(lp) == pairs_map(location_pairs(p)).insert(lp.last().0, lp.last().1));
        if p.len() == 0 {
            assert(location_pairs(p) =~= Seq::<(Seq<char>, Seq<char>)>::empty());
            assert(pairs_map(Seq::<(Seq<char>, Seq<char>)>::empty()) == Map::<Seq<char>, Seq<char>>::empty());
            assert(w == m);
        }
        assert forall|g: Seq<char>| g != sec implies #[trigger] same_section(with_locations(m, sec, locs), m, g) by {
            assert(same_section(w, m, g));
        }
    }
}

/// What saving a screen leaves in its own two sections.
pub open spec fn screen_saved_in(m: Map<Seq<char>, Map<Seq<char>, Seq<char>>>, ss: ScreenSetting) -> bool {
    let name = ss.device_name@;
    &&& m.contains_key(screen_section(name))
    &&& m[screen_section(name)].contains_key("DisplayType"@)
    &&& m[screen_section(name)]["DisplayType"@] == int_text(display_code(ss.display_type) as int)
    &&& m.contains_key(locations_section(name)) == (ss.locations@.len() > 0)
    &&& ss.locations@.len() > 0 ==> m[locations_section(name)] == pairs_map(location_pairs(ss.locations@))
}

proof fn lemma_section_names_differ(name: Seq<char>, other: Seq<char>)
    ensures
        screen_section(name) != locations_section(name),
        name != other ==> screen_section(name) != screen_section(other),
        name != other ==> locations_section(name) != locations_section(other),
        name != other + " Locations"@ ==> screen_section(name) != locations_section(other),
{
    reveal_strlit(" Locations");
    reveal_strlit("Screen ");
    assert(screen_section(name).len() < locations_section(name).len());
    if name != other {
        assert(screen_section(name).skip(7) =~= name);
        assert(screen_section(other).skip(7) =~= other);
        if locations_section(name) == locations_section(other) {
            assert(locations_section(name).len() == locations_section(other).len());
            assert(locations_section(name).take(locations_section(name).len() - 10) =~= screen_section(name));
            assert(locations_section(other).take(locations_section(other).len() - 10) =~= screen_section(other));
        }
    }
    if name != other + " Locations"@ {
        assert(screen_section(name).skip(7) =~= name);
        assert(locations_section(other).skip(7) =~= other + " Locations"@);
    }
}

proof fn lemma_with_screen(m: Map<Seq<char>, Map<Seq<char>, Seq<char>>>, ss: ScreenSetting)
    ensures
        screen_saved_in(with_screen(m, ss), ss),
        forall|g: Seq<char>|
            g != screen_section(ss.device_name@) && g != locations_section(ss.device_name@) ==> #[trigger] same_section(
                with_screen(m, ss),
                m,
                g,
            ),
{
    let name = ss.device_name@;
    let s = screen_section(name);
    let l = locations_section(name);
    lemma_section_names_differ(name, name);
    let m1 = ini_set(m, s, "DisplayType"@, int_text(display_code(ss.display_type) as int));
    lemma_with_locations(m1.remove(l), l, ss.locations@);
    assert(same_section(with_screen(m, ss), m1.remove(l), s));
    assert forall|g: Seq<char>|
        g != s && g != l implies #[trigger] same_section(with_screen(m, ss), m, g) by {
        assert(same_section(with_screen(m, ss), m1.remove(l), g));
    }
}

proof fn lemma_with_screens(m: Map<Seq<char>, Map<Seq<char>, Seq<char>>>, ss: Seq<ScreenSetting>)
    requires
        sections_apart(ss),
    ensures
        forall|i: int| 0 <= i < ss.len() ==> screen_saved_in(with_screens(m, ss), #[trigger] ss[i]),
    decreases ss.len(),
{
    if ss.len() > 0 {
        let p = ss.drop_last();
        assert(sections_apart(p)) by {
            assert forall|i: int, j: int| 0 <= i < p.len() && 0 <= j < p.len() implies (i != j ==> #[trigger] p[i].device_name@
                != #[trigger] p[j].device_name@) && p[i].device_name@ != p[j].device_name@ + " Locations"@ by {
                assert(p[i] == ss[i] && p[j] == ss[j]);
            }
        }
        lemma_with_screens(m, p);
        let last = ss.last();
        lemma_with_screen(with_screens(m, p), last);
        assert forall|i: int| 0 <= i < ss.len() implies screen_saved_in(with_screens(m, ss), #[trigger] ss[i]) by {
            if i < ss.len() - 1 {
                let n = ss[i].device_name@;
                assert(p[i] == ss[i]);
                assert(ss[ss.len() - 1] == last);
                let k = ss.len() - 1;
                assert(ss[i].device_name@ != ss[k].device_name@);
                assert(ss[i].device_name@ != ss[k].device_name@ + " Locations"@);
                assert(ss[k].device_name@ != ss[i].device_name@ + " Locations"@);
                lemma_section_names_differ(n, last.device_name@);
                lemma_section_names_differ(last.device_name@, n);
                assert(same_section(with_screens(m, ss), with_screens(m, p), screen_section(n)));
                assert(same_section(with_screens(m, ss), with_screens(m, p), locations_section(n)));
            }
        }
    }
}

/// In a store in name order, a section's entries are sorted and stand for
/// what the store holds there; a missing section has none.
proof fn lemma_section_entries(v: Seq<(Seq<char>, Seq<(Seq<char>, Seq<char>)>)>, name: Seq<char>)
    requires
        ini_wf(v),
    ensures
        keys_sorted(section_entries(v, name)),
        ini_model(v).contains_key(name) ==> ini_model(v)[name] == assoc_map(section_entries(v, name)),
        !ini_model(v).contains_key(name) ==> section_entries(v, name) == Seq::<(Seq<char>, Seq<char>)>::empty(),
{
    let sm = section_maps(v);
    assert(keys_of(sm) =~= keys_of(v));
    lemma_sorted_unique(v);
    lemma_sorted_unique(sm);
    if exists|i: int| 0 <= i < v.len() && v[i].0 == name {
        let i = choose|i: int| 0 <= i < v.len() && v[i].0 == name;
        assert(sm[i].0 == name);
        lemma_assoc_lookup(sm, i);
        assert(keys_sorted(v[i].1));
    } else {
        assert(!ini_model(v).contains_key(name)) by {
            if ini_model(v).contains_key(name) {
                let j = choose|j: int| 0 <= j < sm.len() && sm[j].0 == name;
                assert(v[j].0 == name);
            }
        }
        assert(keys_of(Seq::<(Seq<char>, Seq<char>)>::empty()) =~= Seq::<Seq<char>>::empty());
    }
}

/// The entries of `m` whose value is not empty: the cities that loading
/// keeps of a cities section.
pub open spec fn with_zone(m: Map<Seq<char>, Seq<char>>) -> Map<Seq<char>, Seq<char>> {
    Map::new(|k: Seq<char>| m.contains_key(k) && m[k].len() > 0, |k: Seq<char>| m[k])
}

/// The named entries of a sorted section are sorted, come from the section,
/// and are all of its entries with a zone.
proof fn lemma_named_zones_from(e: Seq<(Seq<char>, Seq<char>)>)
    requires
        keys_sorted(e),
    ensures
        keys_sorted(named_zones(e)),
        forall|j: int|
            0 <= j < named_zones(e).len() ==> exists|i: int|
                0 <= i < e.len() && #[trigger] named_zones(e)[j] == e[i],
        forall|j: int| 0 <= j < named_zones(e).len() ==> (#[trigger] named_zones(e)[j]).1.len() > 0,
    decreases e.len(),
{
    if e.len() > 0 {
        let p = e.drop_last();
        assert(keys_sorted(p)) by {
            assert forall|a: int, b: int| 0 <= a < b < keys_of(p).len() implies str_lt(
                #[trigger] keys_of(p)[a],
                #[trigger] keys_of(p)[b],
            ) by {
                assert(keys_of(p)[a] == keys_of(e)[a] && keys_of(p)[b] == keys_of(e)[b]);
            }
        }
        lemma_named_zones_from(p);
        let np = named_zones(p);
        let nz = named_zones(e);
        let last = e.last();
        assert(last == e[e.len() - 1]);
        assert forall|j: int| 0 <= j < np.len() implies exists|i: int|
            0 <= i < e.len() - 1 && #[trigger] np[j] == e[i] by {
            let i = choose|i: int| 0 <= i < p.len() && np[j] == p[i];
            assert(p[i] == e[i]);
        }
        if last.1.len() > 0 {
            assert(nz == np.push(last));
            assert(keys_sorted(nz)) by {
                assert forall|a: int, b: int| 0 <= a < b < keys_of(nz).len() implies str_lt(
                    #[trigger] keys_of(nz)[a],
                    #[trigger] keys_of(nz)[b],
                ) by {
                    assert(nz[a] == np[a]);
                    if b < np.len() {
                        assert(nz[b] == np[b]);
                        assert(keys_of(np)[a] == np[a].0 && keys_of(np)[b] == np[b].0);
                    } else {
                        let i = choose|i: int| 0 <= i < e.len() - 1 && np[a] == e[i];
                        assert(keys_of(e)[i] == e[i].0);
                        assert(keys_of(e)[e.len() - 1] == last.0);
                    }
                }
            }
            assert forall|j: int| 0 <= j < nz.len() implies exists|i: int|
                0 <= i < e.len() && #[trigger] nz[j] == e[i] by {
                if j < np.len() {
                    assert(nz[j] == np[j]);
                    let i = choose|i: int| 0 <= i < e.len() - 1 && np[j] == e[i];
                    assert(nz[j] == e[i]);
                } else {
                    assert(nz[j] == e[e.len() - 1]);
                }
            }
            assert forall|j: int| 0 <= j < nz.len() implies (#[trigger] nz[j]).1.len() > 0 by {
                if j < np.len() {
                    assert(nz[j] == np[j]);
                }
            }
        } else {
            assert(nz == np);
            assert forall|j: int| 0 <= j < nz.len() implies exists|i: int|
                0 <= i < e.len() && #[trigger] nz[j] == e[i] by {
                let i = choose|i: int| 0 <= i < e.len() - 1 && np[j] == e[i];
            }
        }
    }
}

/// Where an entry of `e` with a zone stands among the named entries.
proof fn lemma_named_zone_at(e: Seq<(Seq<char>, Seq<char>)>, i: int) -> (j: int)
    requires
        0 <= i < e.len(),
        e[i].1.len() > 0,
    ensures
        0 <= j < named_zones(e).len(),
        named_zones(e)[j] == e[i],
    decreases e.len(),
{
    let p = e.drop_last();
    if i == e.len() - 1 {
        named_zones(p).len() as int
    } else {
        assert(p[i] == e[i]);
        let j = lemma_named_zone_at(p, i);
        j
    }
}

/// Loading keeps, in key order, exactly the entries of a sorted section
/// that name a zone.
proof fn lemma_named_zones_map(e: Seq<(Seq<char>, Seq<char>)>)
    requires
        keys_sorted(e),
    ensures
        keys_sorted(named_zones(e)),
        assoc_map(named_zones(e)) == with_zone(assoc_map(e)),
{
    lemma_named_zones_from(e);
    let nz = named_zones(e);
    lemma_sorted_unique(e);
    lemma_sorted_unique(nz);
    let w = with_zone(assoc_map(e));
    assert forall|k: Seq<char>| #[trigger] assoc_map(nz).contains_key(k) implies w.contains_key(k)
        && assoc_map(nz)[k] == w[k] by {
        let j = choose|j: int| 0 <= j < nz.len() && nz[j].0 == k;
        let i = choose|i: int| 0 <= i < e.len() && nz[j] == e[i];
        assert(nz[j].1.len() > 0);
        lemma_assoc_lookup(e, i);
        lemma_assoc_lookup(nz, j);
    }
    assert forall|k: Seq<char>| #[trigger] w.contains_key(k) implies assoc_map(nz).contains_key(k) by {
        let i = choose|i: int| 0 <= i < e.len() && e[i].0 == k;
        lemma_assoc_lookup(e, i);
        let j = lemma_named_zone_at(e, i);
        assert(nz[j].0 == k);
    }
    assert(assoc_map(nz) =~= w);
}

/// A list of distinct keys, each with a zone, is all that loading keeps of
/// it.
proof fn lemma_with_zone_all(ps: Seq<(Seq<char>, Seq<char>)>)
    requires
        keys_unique(ps),
        forall|j: int| 0 <= j < ps.len() ==> (#[trigger] ps[j]).1.len() > 0,
    ensures
        with_zone(assoc_map(ps)) == assoc_map(ps),
{
    assert forall|k: Seq<char>| #[trigger] assoc_map(ps).contains_key(k) implies assoc_map(ps)[k].len() > 0 by {
        let j = choose|j: int| 0 <= j < ps.len() && ps[j].0 == k;
        lemma_assoc_lookup(ps, j);
    }
    assert(with_zone(assoc_map(ps)) =~= assoc_map(ps));
}

/// The store `a` holds the same two sections of each of the screens `ss`
/// as `b`.
pub open spec fn screens_kept(
    a: Map<Seq<char>, Map<Seq<char>, Seq<char>>>,
    b: Map<Seq<char>, Map<Seq<char>, Seq<char>>>,
    ss: Seq<ScreenSetting>,
) -> bool {
    forall|i: int|
        0 <= i < ss.len() ==> same_section(a, b, screen_section((#[trigger] ss[i]).device_name@))
            && same_section(a, b, locations_section(ss[i].device_name@))
}

/// Saving the settings and loading them back for the same screens gives
/// back each screen's display type and its cities: sorted by name, one per
/// name (the last saved under it), and those without a zone left out. When
/// the saved cities are already in strictly increasing name order, each with
/// a zone, they come back as they were. This holds when the screens' device
/// names are already clean, their sections cannot meet (`sections_apart`),
/// and the store read holds the screens' sections as saved.
pub proof fn lemma_screens_round_trip(
    v: Seq<(Seq<char>, Seq<(Seq<char>, Seq<char>)>)>,
    m: Map<Seq<char>, Map<Seq<char>, Seq<char>>>,
    s: FlipItSettings,
    devices: Seq<(i32, String, i32, i32)>,
    loaded: Seq<ScreenSetting>,
)
    requires
        ini_wf(v),
        screens_kept(ini_model(v), saved_settings(m, s), s.screen_settings@),
        devices.len() == s.screen_settings@.len(),
        loaded.len() == devices.len(),
        sections_apart(s.screen_settings@),
        forall|i: int|
            0 <= i < devices.len() ==> clean_name((#[trigger] devices[i]).1@)
                == s.screen_settings@[i].device_name@,
        forall|i: int|
            0 <= i < devices.len() ==> loaded_screen(v, ini_model(v), devices[i], #[trigger] loaded[i]),
    ensures
        forall|i: int|
            0 <= i < loaded.len() ==> {
                let before = s.screen_settings@[i];
                let after = #[trigger] loaded[i];
                &&& after.device_name@ == before.device_name@
                &&& after.display_type == before.display_type
                &&& keys_sorted(location_pairs(after.locations@))
                &&& assoc_map(location_pairs(after.locations@)) == with_zone(
                    pairs_map(location_pairs(before.locations@)),
                )
                &&& (keys_sorted(location_pairs(before.locations@)) && (forall|j: int|
                    0 <= j < before.locations@.len() ==> (
                    #[trigger] before.locations@[j]).time_zone_id@.len() > 0)) ==> location_pairs(
                    after.locations@,
                ) == location_pairs(before.locations@)
            },
{
    lemma_with_screens(with_general(m, s), s.screen_settings@);
    assert forall|i: int| 0 <= i < loaded.len() implies {
        let before = s.screen_settings@[i];
        let after = #[trigger] loaded[i];
        &&& after.device_name@ == before.device_name@
        &&& after.display_type == before.display_type
        &&& keys_sorted(location_pairs(after.locations@))
        &&& assoc_map(location_pairs(after.locations@)) == with_zone(
            pairs_map(location_pairs(before.locations@)),
        )
        &&& (keys_sorted(location_pairs(before.locations@)) && (forall|j: int|
            0 <= j < before.locations@.len() ==> (
            #[trigger] before.locations@[j]).time_zone_id@.len() > 0)) ==> location_pairs(
            after.locations@,
        ) == location_pairs(before.locations@)
    } by {
        let before = s.screen_settings@[i];
        let after = loaded[i];
        let name = before.device_name@;
        assert(clean_name(devices[i].1@) == name);
        assert(screen_saved_in(saved_settings(m, s), before));
        assert(same_section(ini_model(v), saved_settings(m, s), screen_section(name)));
        assert(same_section(ini_model(v), saved_settings(m, s), locations_section(name)));
        assert(screen_saved_in(ini_model(v), before));
        lemma_int_text_parses(display_code(before.display_type) as int);
        lemma_display_code_round_trip(before.display_type);
        let pairs = location_pairs(before.locations@);
        lemma_section_entries(v, locations_section(name));
        let e = section_entries(v, locations_section(name));
        lemma_named_zones_map(e);
        assert(location_pairs(after.locations@) =~= named_zones(e));
        if before.locations@.len() > 0 {
            assert(assoc_map(e) == pairs_map(pairs));
        } else {
            assert(pairs =~= Seq::<(Seq<char>, Seq<char>)>::empty());
            assert(assoc_map(e) =~= Map::<Seq<char>, Seq<char>>::empty());
            assert(pairs_map(pairs) == Map::<Seq<char>, Seq<char>>::empty());
        }
        if keys_sorted(pairs) && (forall|j: int|
            0 <= j < before.locations@.len() ==> (
            #[trigger] before.locations@[j]).time_zone_id@.len() > 0) {
            lemma_sorted_unique(pairs);
            lemma_pairs_map_unique(pairs);
            assert forall|j: int| 0 <= j < pairs.len() implies (#[trigger] pairs[j]).1.len() > 0 by {
                assert(before.locations@[j].time_zone_id@.len() > 0);
            }
            lemma_with_zone_all(pairs);
            lemma_assoc_determined(named_zones(e), pairs);
        }
    }
}

/// Sections that hold entries are all that a store's text keeps, and a
/// saved screen's two sections hold entries when they are there at all.
proof fn lemma_saved_sections_kept(
    m: Map<Seq<char>, Map<Seq<char>, Seq<char>>>,
    s: FlipItSettings,
)
    requires
        sections_apart(s.screen_settings@),
    ensures
        screens_kept(without_empty_sections(saved_settings(m, s)), saved_settings(m, s), s.screen_settings@),
{
    let sv = saved_settings(m, s);
    let ss = s.screen_settings@;
    lemma_with_screens(with_general(m, s), ss);
    assert forall|i: int| 0 <= i < ss.len() implies same_section(
        without_empty_sections(sv),
        sv,
        screen_section((#[trigger] ss[i]).device_name@),
    ) && same_section(without_empty_sections(sv), sv, locations_section(ss[i].device_name@)) by {
        let name = ss[i].device_name@;
        assert(screen_saved_in(sv, ss[i]));
        assert(sv[screen_section(name)].contains_key("DisplayType"@));
        assert(sv[screen_section(name)] != Map::<Seq<char>, Seq<char>>::empty());
        if sv.contains_key(locations_section(name)) {
            let ps = location_pairs(ss[i].locations@);
            assert(ps.len() > 0);
            assert(pairs_map(ps).contains_key(ps.last().0));
            assert(sv[locations_section(name)] != Map::<Seq<char>, Seq<char>>::empty());
        }
    }
}

/// Every city of every screen can be saved as a line of the store and read
/// back: its name and zone are plain text, the name has no `=` and does not
/// start with `;` or `#` (nor with `[` when the zone ends with `]`); and no
/// device name holds a line break.
pub open spec fn settings_writable(s: FlipItSettings) -> bool {
    forall|i: int|
        0 <= i < s.screen_settings@.len() ==> lacks((#[trigger] s.screen_settings@[i]).device_name@, '\n')
            && forall|j: int|
            0 <= j < s.screen_settings@[i].locations@.len() ==> entry_writable(
                (#[trigger] s.screen_settings@[i].locations@[j]).display_name@,
                s.screen_settings@[i].locations@[j].time_zone_id@,
            )
}

/// A number written in decimal is plain text.
proof fn lemma_int_text_plain(v: int)
    ensures
        plain_text(int_text(v)),
{
    let n: nat = if v < 0 { (-v) as nat } else { v as nat };
    lemma_dec_digits(n);
    let t = int_text(v);
    let d = dec(n);
    assert forall|i: int| 0 <= i < t.len() implies t[i] == '-' || is_digit(t[i]) by {
        if v < 0 && i > 0 {
            assert(t[i] == d[i - 1]);
        }
    }
    assert(t.last() == d.last());
    assert(is_digit(d[d.len() - 1]));
}

/// A key of the program's own, given as a literal, with a plain value.
proof fn lemma_own_entry(k: Seq<char>, value: Seq<char>)
    requires
        plain_text(value),
        k.len() > 0,
        forall|i: int|
            0 <= i < k.len() ==> 48 <= (#[trigger] k[i]) as int <= 57 || 65 <= k[i] as int <= 90
                || 97 <= k[i] as int <= 122,
    ensures
        entry_writable(k, value),
{
    assert(k.last() == k[k.len() - 1]);
    assert(!is_white_space(k[0]) && !is_white_space(k[k.len() - 1]));
    assert(lacks(k, '\n') && lacks(k, '='));
}

/// Writing cities of writable names and zones keeps a store writable.
proof fn lemma_locations_writable(
    m: Map<Seq<char>, Map<Seq<char>, Seq<char>>>,
    sec: Seq<char>,
    locs: Seq<Location>,
)
    requires
        model_writable(m),
        lacks(sec, '\n'),
        forall|j: int| 0 <= j < locs.len() ==> entry_writable(
            (#[trigger] locs[j]).display_name@,
            locs[j].time_zone_id@,
        ),
    ensures
        model_writable(with_locations(m, sec, locs)),
    decreases locs.len(),
{
    if locs.len() > 0 {
        let p = locs.drop_last();
        assert forall|j: int| 0 <= j < p.len() implies entry_writable(
            (#[trigger] p[j]).display_name@,
            p[j].time_zone_id@,
        ) by {
            assert(p[j] == locs[j]);
        }
        lemma_locations_writable(m, sec, p);
        assert(locs.last() == locs[locs.len() - 1]);
        lemma_set_writable(with_locations(m, sec, p), sec, locs.last().display_name@, locs.last().time_zone_id@);
    }
}

/// Saving screens with writable device names and cities keeps a store
/// writable.
proof fn lemma_screens_writable(m: Map<Seq<char>, Map<Seq<char>, Seq<char>>>, ss: Seq<ScreenSetting>)
    requires
        model_writable(m),
        forall|i: int|
            0 <= i < ss.len() ==> lacks((#[trigger] ss[i]).device_name@, '\n') && forall|j: int|
                0 <= j < ss[i].locations@.len() ==> entry_writable(
                    (#[trigger] ss[i].locations@[j]).display_name@,
                    ss[i].locations@[j].time_zone_id@,
                ),
    ensures
        model_writable(with_screens(m, ss)),
    decreases ss.len(),
{
    if ss.len() > 0 {
        let p = ss.drop_last();
        assert forall|i: int|
            0 <= i < p.len() implies lacks((#[trigger] p[i]).device_name@, '\n') && forall|j: int|
                0 <= j < p[i].locations@.len() ==> entry_writable(
                    (#[trigger] p[i].locations@[j]).display_name@,
                    p[i].locations@[j].time_zone_id@,
                ) by {
            assert(p[i] == ss[i]);
        }
        lemma_screens_writable(m, p);
        let last = ss.last();
        assert(last == ss[ss.len() - 1]);
        let name = last.device_name@;
        let before = with_screens(m, p);
        reveal_strlit("Screen ");
        reveal_strlit(" Locations");
        reveal_strlit("DisplayType");
        let sec = screen_section(name);
        let loc = locations_section(name);
        assert(lacks(sec, '\n')) by {
            assert forall|i: int| 0 <= i < sec.len() implies sec[i] != '\n' by {
                if i >= 7 {
                    assert(sec[i] == name[i - 7]);
                }
            }
        }
        assert(lacks(loc, '\n')) by {
            assert forall|i: int| 0 <= i < loc.len() implies loc[i] != '\n' by {
                if 7 <= i < 7 + name.len() {
                    assert(loc[i] == name[i - 7]);
                }
            }
        }
        lemma_int_text_plain(display_code(last.display_type) as int);
        lemma_own_entry("DisplayType"@, int_text(display_code(last.display_type) as int));
        lemma_set_writable(before, sec, "DisplayType"@, int_text(display_code(last.display_type) as int));
        let m1 = ini_set(before, sec, "DisplayType"@, int_text(display_code(last.display_type) as int));
        assert(model_writable(m1.remove(loc))) by {
            assert forall|g: Seq<char>| #[trigger] m1.remove(loc).contains_key(g) implies m1.contains_key(g) by {}
        }
        lemma_locations_writable(m1.remove(loc), loc, last.locations@);
    }
}

/// Saving writable settings into a writable store leaves it writable.
pub proof fn lemma_saved_writable(m: Map<Seq<char>, Map<Seq<char>, Seq<char>>>, s: FlipItSettings)
    requires
        model_writable(m),
        settings_writable(s),
    ensures
        model_writable(saved_settings(m, s)),
{
    reveal_strlit("General");
    reveal_strlit("Display24Hr");
    reveal_strlit("ShowDstIndicator");
    reveal_strlit("Scale");
    reveal_strlit("FontColor");
    reveal_strlit("FontAlpha");
    let g = "General"@;
    assert(lacks(g, '\n'));
    assert(plain_text(bool_text(s.display_24h)));
    assert(plain_text(bool_text(s.show_dst)));
    let c = #[verifier::truncate] (s.font_color as i32);
    let a = #[verifier::truncate] (s.font_alpha as i32);
    lemma_int_text_plain(s.scale as int);
    lemma_int_text_plain(c as int);
    lemma_int_text_plain(a as int);
    lemma_own_entry("Display24Hr"@, bool_text(s.display_24h));
    lemma_own_entry("ShowDstIndicator"@, bool_text(s.show_dst));
    lemma_own_entry("Scale"@, int_text(s.scale as int));
    lemma_own_entry("FontColor"@, int_text(c as int));
    lemma_own_entry("FontAlpha"@, int_text(a as int));
    let m1 = ini_set(m, g, "Display24Hr"@, bool_text(s.display_24h));
    let m2 = ini_set(m1, g, "ShowDstIndicator"@, bool_text(s.show_dst));
    let m3 = ini_set(m2, g, "Scale"@, int_text(s.scale as int));
    let m4 = ini_set(m3, g, "FontColor"@, int_text(c as int));
    lemma_set_writable(m, g, "Display24Hr"@, bool_text(s.display_24h));
    lemma_set_writable(m1, g, "ShowDstIndicator"@, bool_text(s.show_dst));
    lemma_set_writable(m2, g, "Scale"@, int_text(s.scale as int));
    lemma_set_writable(m3, g, "FontColor"@, int_text(c as int));
    lemma_set_writable(m4, g, "FontAlpha"@, int_text(a as int));
    assert(with_general(m, s) == ini_set(m4, g, "FontAlpha"@, int_text(a as int)));
    lemma_screens_writable(with_general(m, s), s.screen_settings@);
}

/// Saving the settings into a store read from a file (or a new, empty
/// one), writing the store out as text and loading the settings back from
/// that text for the same screens gives back the general options, and each
/// screen's display type and its cities: sorted by name, one per name (the
/// last saved under it), those without a zone left out; with distinct names
/// and each a zone, the same cities sorted by name; and as they were when
/// already in strictly increasing name order. This holds when each city can
/// be written as a line (`settings_writable`), the screens' device names are
/// already clean, and their sections cannot meet (`sections_apart`).
pub proof fn lemma_settings_file_round_trip(
    old_text: Seq<char>,
    v: Seq<(Seq<char>, Seq<(Seq<char>, Seq<char>)>)>,
    m: Map<Seq<char>, Map<Seq<char>, Seq<char>>>,
    s: FlipItSettings,
    w: Seq<(Seq<char>, Seq<(Seq<char>, Seq<char>)>)>,
    devices: Seq<(i32, String, i32, i32)>,
    r: FlipItSettings,
)
    requires
        m == text_model(old_text) || m == Map::<Seq<char>, Map<Seq<char>, Seq<char>>>::empty(),
        ini_wf(v),
        ini_model(v) == saved_settings(m, s),
        settings_writable(s),
        ini_wf(w),
        ini_model(w) == text_model(ini_text(v)),
        devices.len() == s.screen_settings@.len(),
        sections_apart(s.screen_settings@),
        forall|i: int|
            0 <= i < devices.len() ==> clean_name((#[trigger] devices[i]).1@)
                == s.screen_settings@[i].device_name@,
        (r.display_24h, r.show_dst, r.scale, r.font_color, r.font_alpha) == loaded_general(
            ini_model(w),
        ),
        r.screen_settings@.len() == devices.len(),
        forall|i: int|
            0 <= i < devices.len() ==> loaded_screen(w, ini_model(w), devices[i], #[trigger] r.screen_settings@[i]),
    ensures
        (r.display_24h, r.show_dst, r.scale, r.font_color, r.font_alpha) == (
            s.display_24h,
            s.show_dst,
            s.scale,
            s.font_color,
            s.font_alpha,
        ),
        forall|i: int|
            0 <= i < r.screen_settings@.len() ==> {
                let before = s.screen_settings@[i];
                let after = #[trigger] r.screen_settings@[i];
                &&& after.device_name@ == before.device_name@
                &&& after.display_type == before.display_type
                &&& keys_sorted(location_pairs(after.locations@))
                &&& assoc_map(location_pairs(after.locations@)) == with_zone(
                    pairs_map(location_pairs(before.locations@)),
                )
                &&& (keys_unique(location_pairs(before.locations@)) && (forall|j: int|
                    0 <= j < before.locations@.len() ==> (
                    #[trigger] before.locations@[j]).time_zone_id@.len() > 0)) ==> assoc_map(
                    location_pairs(after.locations@),
                ) == assoc_map(location_pairs(before.locations@))
                &&& (keys_sorted(location_pairs(before.locations@)) && (forall|j: int|
                    0 <= j < before.locations@.len() ==> (
                    #[trigger] before.locations@[j]).time_zone_id@.len() > 0)) ==> location_pairs(
                    after.locations@,
                ) == location_pairs(before.locations@)
            },
{
    let sv = saved_settings(m, s);
    if m == text_model(old_text) {
        crate::ini_laws::lemma_parsed_writable(old_text);
    }
    lemma_saved_writable(m, s);
    lemma_writable_store(v);
    lemma_text_round_trip(v);
    assert(ini_model(w) == without_empty_sections(sv));
    assert forall|k: Seq<char>| #[trigger] ini_get(ini_model(w), "General"@, k) == ini_get(sv, "General"@, k) by {}
    assert(loaded_general(ini_model(w)) == loaded_general(sv));
    lemma_general_round_trip(m, s);
    lemma_saved_sections_kept(m, s);
    lemma_screens_round_trip(w, m, s, devices, r.screen_settings@);
    assert forall|i: int| 0 <= i < r.screen_settings@.len() implies {
        let before = s.screen_settings@[i];
        let after = #[trigger] r.screen_settings@[i];
        (keys_unique(location_pairs(before.locations@)) && (forall|j: int|
            0 <= j < before.locations@.len() ==> (
            #[trigger] before.locations@[j]).time_zone_id@.len() > 0)) ==> assoc_map(
            location_pairs(after.locations@),
        ) == assoc_map(location_pairs(before.locations@))
    } by {
        let before = s.screen_settings@[i];
        let pairs = location_pairs(before.locations@);
        if keys_unique(pairs) && (forall|j: int|
            0 <= j < before.locations@.len() ==> (
            #[trigger] before.locations@[j]).time_zone_id@.len() > 0) {
            lemma_pairs_map_unique(pairs);
            assert forall|j: int| 0 <= j < pairs.len() implies (#[trigger] pairs[j]).1.len() > 0 by {
                assert(before.locations@[j].time_zone_id@.len() > 0);
            }
            lemma_with_zone_all(pairs);
        }
    }
}

} // verus!
