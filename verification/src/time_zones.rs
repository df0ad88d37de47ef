//! The Windows time zones the program knows and their offsets from UTC.

use vstd::prelude::*;
use crate::text::str_equal;

verus! {

/// The Windows time zones this program knows, each with its offset from
/// UTC in minutes (standard time; daylight saving is not applied).
#[verifier::opaque]
pub open spec fn time_zone_table() -> Seq<(Seq<char>, int)> {
    seq![
        ("Dateline Standard Time"@, -720int),
        ("UTC-11"@, -660int),
        ("Hawaiian Standard Time"@, -600int),
        ("Alaskan Standard Time"@, -540int),
        ("Pacific Standard Time"@, -480int),
        ("US Mountain Standard Time"@, -420int),
        ("Mountain Standard Time"@, -420int),
        ("Central Standard Time"@, -360int),
        ("Eastern Standard Time"@, -300int),
        ("Atlantic Standard Time"@, -240int),
        ("Newfoundland Standard Time"@, -210int),
        ("E. South America Standard Time"@, -180int),
        ("Greenland Standard Time"@, -180int),
        ("UTC"@, 0int),
        ("GMT Standard Time"@, 0int),
        ("Greenwich Standard Time"@, 0int),
        ("W. Europe Standard Time"@, 60int),
        ("Central Europe Standard Time"@, 60int),
        ("Romance Standard Time"@, 60int),
        ("W. Central Africa Standard Time"@, 60int),
        ("E. Europe Standard Time"@, 120int),
        ("South Africa Standard Time"@, 120int),
        ("FLE Standard Time"@, 120int),
        ("Israel Standard Time"@, 120int),
        ("Turkey Standard Time"@, 180int),
        ("Russian Standard Time"@, 180int),
        ("E. Africa Standard Time"@, 180int),
        ("Arabian Standard Time"@, 240int),
        ("Iran Standard Time"@, 210int),
        ("Afghanistan Standard Time"@, 270int),
        ("Pakistan Standard Time"@, 300int),
        ("India Standard Time"@, 330int),
        ("Bangladesh Standard Time"@, 360int),
        ("SE Asia Standard Time"@, 420int),
        ("China Standard Time"@, 480int),
        ("Singapore Standard Time"@, 480int),
        ("Tokyo Standard Time"@, 540int),
        ("AUS Eastern Standard Time"@, 600int),
        ("E. Australia Standard Time"@, 600int),
        ("New Zealand Standard Time"@, 720int)
    ]
}

/// The offset in minutes paired with `id` in the first entry of `t` that
/// has it.
pub open spec fn table_minutes(t: Seq<(Seq<char>, int)>, id: Seq<char>) -> Option<int>
    decreases t.len(),
{
    if t.len() == 0 {
        None
    } else if t[0].0 == id {
        Some(t[0].1)
    } else {
        table_minutes(t.drop_first(), id)
    }
}

/// An id that the table holds has an offset: that of its first entry.
pub proof fn lemma_table_minutes_found(t: Seq<(Seq<char>, int)>, i: int) -> (j: int)
    requires
        0 <= i < t.len(),
    ensures
        0 <= j <= i,
        t[j].0 == t[i].0,
        table_minutes(t, t[i].0) == Some(t[j].1),
    decreases i,
{
    if t[0].0 == t[i].0 {
        0
    } else {
        assert(t.drop_first()[i - 1] == t[i]);
        let j = lemma_table_minutes_found(t.drop_first(), i - 1);
        j + 1
    }
}

/// Every offset in the table lies within half a day of UTC.
pub proof fn lemma_table_within_half_day(j: int)
    requires
        0 <= j < time_zone_table().len(),
    ensures
        -720 <= time_zone_table()[j].1 <= 720,
{
    reveal(time_zone_table);
}

/// The offset from UTC, in seconds, of the time zone `id`: its table
/// offset, when chrono accepts it as a fixed offset (within a day).
pub open spec fn zone_offset_secs(id: Seq<char>) -> Option<int> {
    match table_minutes(time_zone_table(), id) {
        Some(m) => if -86400 < m * 60 < 86400 { Some(m * 60) } else { None },
        None => None,
    }
}

/// No entry of `t` before position `i` has the id `id`.
pub open spec fn absent_before(t: Seq<(Seq<char>, int)>, id: Seq<char>, i: int) -> bool
    decreases i,
{
    if i <= 0 {
        true
    } else {
        t[i - 1].0 != id && absent_before(t, id, i - 1)
    }
}

/// The first entry with an id gives its offset.
proof fn lemma_first_at(t: Seq<(Seq<char>, int)>, id: Seq<char>, i: int)
    requires
        0 <= i < t.len(),
        t[i].0 == id,
        absent_before(t, id, i),
    ensures
        table_minutes(t, id) == Some(t[i].1),
    decreases i,
{
    if i > 0 {
        assert(t[0].0 != id) by {
            lemma_absent_before(t, id, i, 0);
        }
        let u = t.drop_first();
        assert(u[i - 1] == t[i]);
        assert forall|m: int| 0 <= m < i - 1 implies #[trigger] u[m].0 != id by {
            lemma_absent_before(t, id, i, m + 1);
            assert(u[m] == t[m + 1]);
        }
        lemma_absent_from_all(u, id, i - 1);
        lemma_first_at(u, id, i - 1);
    }
}

proof fn lemma_absent_before(t: Seq<(Seq<char>, int)>, id: Seq<char>, i: int, m: int)
    requires
        absent_before(t, id, i),
        0 <= m < i,
    ensures
        t[m].0 != id,
    decreases i,
{
    if m < i - 1 {
        lemma_absent_before(t, id, i - 1, m);
    }
}

proof fn lemma_absent_from_all(t: Seq<(Seq<char>, int)>, id: Seq<char>, i: int)
    requires
        forall|m: int| 0 <= m < i ==> #[trigger] t[m].0 != id,
    ensures
        absent_before(t, id, i),
    decreases i,
{
    if i > 0 {
        lemma_absent_from_all(t, id, i - 1);
    }
}

/// An id that the table does not hold has no offset.
proof fn lemma_table_minutes_absent(t: Seq<(Seq<char>, int)>, id: Seq<char>)
    ensures
        table_minutes(t, id) is Some ==> exists|j: int| 0 <= j < t.len() && #[trigger] t[j].0 == id,
    decreases t.len(),
{
    if t.len() > 0 && t[0].0 != id {
        lemma_table_minutes_absent(t.drop_first(), id);
        if table_minutes(t, id) is Some {
            let j = choose|j: int| 0 <= j < t.drop_first().len() && #[trigger] t.drop_first()[j].0 == id;
            assert(t[j + 1] == t.drop_first()[j]);
        }
    }
}

/// The Windows time zones known, each with its standard-time offset from
/// UTC in seconds; any other id has none.
pub proof fn lemma_zone_offsets(id: Seq<char>)
    ensures
        zone_offset_secs("Dateline Standard Time"@) == Some(-12 * 3600),
        zone_offset_secs("UTC-11"@) == Some(-11 * 3600),
        zone_offset_secs("Hawaiian Standard Time"@) == Some(-10 * 3600),
        zone_offset_secs("Alaskan Standard Time"@) == Some(-9 * 3600),
        zone_offset_secs("Pacific Standard Time"@) == Some(-8 * 3600),
        zone_offset_secs("US Mountain Standard Time"@) == Some(-7 * 3600),
        zone_offset_secs("Mountain Standard Time"@) == Some(-7 * 3600),
        zone_offset_secs("Central Standard Time"@) == Some(-6 * 3600),
        zone_offset_secs("Eastern Standard Time"@) == Some(-5 * 3600),
        zone_offset_secs("Atlantic Standard Time"@) == Some(-4 * 3600),
        zone_offset_secs("Newfoundland Standard Time"@) == Some(-(3 * 3600 + 1800)),
        zone_offset_secs("E. South America Standard Time"@) == Some(-3 * 3600),
        zone_offset_secs("Greenland Standard Time"@) == Some(-3 * 3600),
        zone_offset_secs("UTC"@) == Some(0int),
        zone_offset_secs("GMT Standard Time"@) == Some(0int),
        zone_offset_secs("Greenwich Standard Time"@) == Some(0int),
        zone_offset_secs("W. Europe Standard Time"@) == Some(3600int),
        zone_offset_secs("Central Europe Standard Time"@) == Some(3600int),
        zone_offset_secs("Romance Standard Time"@) == Some(3600int),
        zone_offset_secs("W. Central Africa Standard Time"@) == Some(3600int),
        zone_offset_secs("E. Europe Standard Time"@) == Some((2 * 3600) as int),
        zone_offset_secs("South Africa Standard Time"@) == Some((2 * 3600) as int),
        zone_offset_secs("FLE Standard Time"@) == Some((2 * 3600) as int),
        zone_offset_secs("Israel Standard Time"@) == Some((2 * 3600) as int),
        zone_offset_secs("Turkey Standard Time"@) == Some((3 * 3600) as int),
        zone_offset_secs("Russian Standard Time"@) == Some((3 * 3600) as int),
        zone_offset_secs("E. Africa Standard Time"@) == Some((3 * 3600) as int),
        zone_offset_secs("Arabian Standard Time"@) == Some((4 * 3600) as int),
        zone_offset_secs("Iran Standard Time"@) == Some((3 * 3600 + 1800) as int),
        zone_offset_secs("Afghanistan Standard Time"@) == Some((4 * 3600 + 1800) as int),
        zone_offset_secs("Pakistan Standard Time"@) == Some((5 * 3600) as int),
        zone_offset_secs("India Standard Time"@) == Some((5 * 3600 + 1800) as int),
        zone_offset_secs("Bangladesh Standard Time"@) == Some((6 * 3600) as int),
        zone_offset_secs("SE Asia Standard Time"@) == Some((7 * 3600) as int),
        zone_offset_secs("China Standard Time"@) == Some((8 * 3600) as int),
        zone_offset_secs("Singapore Standard Time"@) == Some((8 * 3600) as int),
        zone_offset_secs("Tokyo Standard Time"@) == Some((9 * 3600) as int),
        zone_offset_secs("AUS Eastern Standard Time"@) == Some((10 * 3600) as int),
        zone_offset_secs("E. Australia Standard Time"@) == Some((10 * 3600) as int),
        zone_offset_secs("New Zealand Standard Time"@) == Some((12 * 3600) as int),
        zone_offset_secs(id) is Some <==> (id == "Dateline Standard Time"@ || id == "UTC-11"@ || id == "Hawaiian Standard Time"@ || id == "Alaskan Standard Time"@ || id == "Pacific Standard Time"@ || id == "US Mountain Standard Time"@ || id == "Mountain Standard Time"@ || id == "Central Standard Time"@ || id == "Eastern Standard Time"@ || id == "Atlantic Standard Time"@ || id == "Newfoundland Standard Time"@ || id == "E. South America Standard Time"@ || id == "Greenland Standard Time"@ || id == "UTC"@ || id == "GMT Standard Time"@ || id == "Greenwich Standard Time"@ || id == "W. Europe Standard Time"@ || id == "Central Europe Standard Time"@ || id == "Romance Standard Time"@ || id == "W. Central Africa Standard Time"@ || id == "E. Europe Standard Time"@ || id == "South Africa Standard Time"@ || id == "FLE Standard Time"@ || id == "Israel Standard Time"@ || id == "Turkey Standard Time"@ || id == "Russian Standard Time"@ || id == "E. Africa Standard Time"@ || id == "Arabian Standard Time"@ || id == "Iran Standard Time"@ || id == "Afghanistan Standard Time"@ || id == "Pakistan Standard Time"@ || id == "India Standard Time"@ || id == "Bangladesh Standard Time"@ || id == "SE Asia Standard Time"@ || id == "China Standard Time"@ || id == "Singapore Standard Time"@ || id == "Tokyo Standard Time"@ || id == "AUS Eastern Standard Time"@ || id == "E. Australia Standard Time"@ || id == "New Zealand Standard Time"@),
{
    let t = time_zone_table();
    assert(table_minutes(t, "Dateline Standard Time"@) == Some(t[0].1)) by {
        reveal(time_zone_table);
        reveal_with_fuel(absent_before, 2);
        reveal_strlit("Dateline Standard Time");
        assert(t[0].0 == "Dateline Standard Time"@);
        lemma_first_at(t, "Dateline Standard Time"@, 0);
    }
    assert(table_minutes(t, "UTC-11"@) == Some(t[1].1)) by {
        reveal(time_zone_table);
        reveal_with_fuel(absent_before, 3);
        reveal_strlit("Dateline Standard Time");
        reveal_strlit("UTC-11");
        assert(t[1].0 == "UTC-11"@);
        assert(t[0].0 == "Dateline Standard Time"@ && "Dateline Standard Time"@.len() != "UTC-11"@.len());
        lemma_first_at(t, "UTC-11"@, 1);
    }
    assert(table_minutes(t, "Hawaiian Standard Time"@) == Some(t[2].1)) by {
        reveal(time_zone_table);
        reveal_with_fuel(absent_before, 4);
        reveal_strlit("Dateline Standard Time");
        reveal_strlit("UTC-11");
        reveal_strlit("Hawaiian Standard Time");
        assert(t[2].0 == "Hawaiian Standard Time"@);
        assert(t[0].0 == "Dateline Standard Time"@ && "Dateline Standard Time"@[0] != "Hawaiian Standard Time"@[0]);
        assert(t[1].0 == "UTC-11"@ && "UTC-11"@.len() != "Hawaiian Standard Time"@.len());
        lemma_first_at(t, "Hawaiian Standard Time"@, 2);
    }
    assert(table_minutes(t, "Alaskan Standard Time"@) == Some(t[3].1)) by {
        reveal(time_zone_table);
        reveal_with_fuel(absent_before, 5);
        reveal_strlit("Dateline Standard Time");
        reveal_strlit("UTC-11");
        reveal_strlit("Hawaiian Standard Time");
        reveal_strlit("Alaskan Standard Time");
        assert(t[3].0 == "Alaskan Standard Time"@);
        assert(t[0].0 == "Dateline Standard Time"@ && "Dateline Standard Time"@.len() != "Alaskan Standard Time"@.len());
        assert(t[1].0 == "UTC-11"@ && "UTC-11"@.len() != "Alaskan Standard Time"@.len());
        assert(t[2].0 == "Hawaiian Standard Time"@ && "Hawaiian Standard Time"@.len() != "Alaskan Standard Time"@.len());
        lemma_first_at(t, "Alaskan Standard Time"@, 3);
    }
    assert(table_minutes(t, "Pacific Standard Time"@) == Some(t[4].1)) by {
        reveal(time_zone_table);
        reveal_with_fuel(absent_before, 6);
        reveal_strlit("Dateline Standard Time");
        reveal_strlit("UTC-11");
        reveal_strlit("Hawaiian Standard Time");
        reveal_strlit("Alaskan Standard Time");
        reveal_strlit("Pacific Standard Time");
        assert(t[4].0 == "Pacific Standard Time"@);
        assert(t[0].0 == "Dateline Standard Time"@ && "Dateline Standard Time"@.len() != "Pacific Standard Time"@.len());
        assert(t[1].0 == "UTC-11"@ && "UTC-11"@.len() != "Pacific Standard Time"@.len());
        assert(t[2].0 == "Hawaiian Standard Time"@ && "Hawaiian Standard Time"@.len() != "Pacific Standard Time"@.len());
        assert(t[3].0 == "Alaskan Standard Time"@ && "Alaskan Standard Time"@[0] != "Pacific Standard Time"@[0]);
        lemma_first_at(t, "Pacific Standard Time"@, 4);
    }
    assert(table_minutes(t, "US Mountain Standard Time"@) == Some(t[5].1)) by {
        reveal(time_zone_table);
        reveal_with_fuel(absent_before, 7);
        reveal_strlit("Dateline Standard Time");
        reveal_strlit("UTC-11");
        reveal_strlit("Hawaiian Standard Time");
        reveal_strlit("Alaskan Standard Time");
        reveal_strlit("Pacific Standard Time");
        reveal_strlit("US Mountain Standard Time");
        assert(t[5].0 == "US Mountain Standard Time"@);
        assert(t[0].0 == "Dateline Standard Time"@ && "Dateline Standard Time"@.len() != "US Mountain Standard Time"@.len());
        assert(t[1].0 == "UTC-11"@ && "UTC-11"@.len() != "US Mountain Standard Time"@.len());
        assert(t[2].0 == "Hawaiian Standard Time"@ && "Hawaiian Standard Time"@.len() != "US Mountain Standard Time"@.len());
        assert(t[3].0 == "Alaskan Standard Time"@ && "Alaskan Standard Time"@.len() != "US Mountain Standard Time"@.len());
        assert(t[4].0 == "Pacific Standard Time"@ && "Pacific Standard Time"@.len() != "US Mountain Standard Time"@.len());
        lemma_first_at(t, "US Mountain Standard Time"@, 5);
    }
    assert(table_minutes(t, "Mountain Standard Time"@) == Some(t[6].1)) by {
        reveal(time_zone_table);
        reveal_with_fuel(absent_before, 8);
        reveal_strlit("Dateline Standard Time");
        reveal_strlit("UTC-11");
        reveal_strlit("Hawaiian Standard Time");
        reveal_strlit("Alaskan Standard Time");
        reveal_strlit("Pacific Standard Time");
        reveal_strlit("US Mountain Standard Time");
        reveal_strlit("Mountain Standard Time");
        assert(t[6].0 == "Mountain Standard Time"@);
        assert(t[0].0 == "Dateline Standard Time"@ && "Dateline Standard Time"@[0] != "Mountain Standard Time"@[0]);
        assert(t[1].0 == "UTC-11"@ && "UTC-11"@.len() != "Mountain Standard Time"@.len());
        assert(t[2].0 == "Hawaiian Standard Time"@ && "Hawaiian Standard Time"@[0] != "Mountain Standard Time"@[0]);
        assert(t[3].0 == "Alaskan Standard Time"@ && "Alaskan Standard Time"@.len() != "Mountain Standard Time"@.len());
        assert(t[4].0 == "Pacific Standard Time"@ && "Pacific Standard Time"@.len() != "Mountain Standard Time"@.len());
        assert(t[5].0 == "US Mountain Standard Time"@ && "US Mountain Standard Time"@.len() != "Mountain Standard Time"@.len());
        lemma_first_at(t, "Mountain Standard Time"@, 6);
    }
    assert(table_minutes(t, "Central Standard Time"@) == Some(t[7].1)) by {
        reveal(time_zone_table);
        reveal_with_fuel(absent_before, 9);
        reveal_strlit("Dateline Standard Time");
        reveal_strlit("UTC-11");
        reveal_strlit("Hawaiian Standard Time");
        reveal_strlit("Alaskan Standard Time");
        reveal_strlit("Pacific Standard Time");
        reveal_strlit("US Mountain Standard Time");
        reveal_strlit("Mountain Standard Time");
        reveal_strlit("Central Standard Time");
        assert(t[7].0 == "Central Standard Time"@);
        assert(t[0].0 == "Dateline Standard Time"@ && "Dateline Standard Time"@.len() != "Central Standard Time"@.len());
        assert(t[1].0 == "UTC-11"@ && "UTC-11"@.len() != "Central Standard Time"@.len());
        assert(t[2].0 == "Hawaiian Standard Time"@ && "Hawaiian Standard Time"@.len() != "Central Standard Time"@.len());
        assert(t[3].0 == "Alaskan Standard Time"@ && "Alaskan Standard Time"@[0] != "Central Standard Time"@[0]);
        assert(t[4].0 == "Pacific Standard Time"@ && "Pacific Standard Time"@[0] != "Central Standard Time"@[0]);
        assert(t[5].0 == "US Mountain Standard Time"@ && "US Mountain Standard Time"@.len() != "Central Standard Time"@.len());
        assert(t[6].0 == "Mountain Standard Time"@ && "Mountain Standard Time"@.len() != "Central Standard Time"@.len());
        lemma_first_at(t, "Central Standard Time"@, 7);
    }
    assert(table_minutes(t, "Eastern Standard Time"@) == Some(t[8].1)) by {
        reveal(time_zone_table);
        reveal_with_fuel(absent_before, 10);
        reveal_strlit("Dateline Standard Time");
        reveal_strlit("UTC-11");
        reveal_strlit("Hawaiian Standard Time");
        reveal_strlit("Alaskan Standard Time");
        reveal_strlit("Pacific Standard Time");
        reveal_strlit("US Mountain Standard Time");
        reveal_strlit("Mountain Standard Time");
        reveal_strlit("Central Standard Time");
        reveal_strlit("Eastern Standard Time");
        assert(t[8].0 == "Eastern Standard Time"@);
        assert(t[0].0 == "Dateline Standard Time"@ && "Dateline Standard Time"@.len() != "Eastern Standard Time"@.len());
        assert(t[1].0 == "UTC-11"@ && "UTC-11"@.len() != "Eastern Standard Time"@.len());
        assert(t[2].0 == "Hawaiian Standard Time"@ && "Hawaiian Standard Time"@.len() != "Eastern Standard Time"@.len());
        assert(t[3].0 == "Alaskan Standard Time"@ && "Alaskan Standard Time"@[0] != "Eastern Standard Time"@[0]);
        assert(t[4].0 == "Pacific Standard Time"@ && "Pacific Standard Time"@[0] != "Eastern Standard Time"@[0]);
        assert(t[5].0 == "US Mountain Standard Time"@ && "US Mountain Standard Time"@.len() != "Eastern Standard Time"@.len());
        assert(t[6].0 == "Mountain Standard Time"@ && "Mountain Standard Time"@.len() != "Eastern Standard Time"@.len());
        assert(t[7].0 == "Central Standard Time"@ && "Central Standard Time"@[0] != "Eastern Standard Time"@[0]);
        lemma_first_at(t, "Eastern Standard Time"@, 8);
    }
    assert(table_minutes(t, "Atlantic Standard Time"@) == Some(t[9].1)) by {
        reveal(time_zone_table);
        reveal_with_fuel(absent_before, 11);
        reveal_strlit("Dateline Standard Time");
        reveal_strlit("UTC-11");
        reveal_strlit("Hawaiian Standard Time");
        reveal_strlit("Alaskan Standard Time");
        reveal_strlit("Pacific Standard Time");
        reveal_strlit("US Mountain Standard Time");
        reveal_strlit("Mountain Standard Time");
        reveal_strlit("Central Standard Time");
        reveal_strlit("Eastern Standard Time");
        reveal_strlit("Atlantic Standard Time");
        assert(t[9].0 == "Atlantic Standard Time"@);
        assert(t[0].0 == "Dateline Standard Time"@ && "Dateline Standard Time"@[0] != "Atlantic Standard Time"@[0]);
        assert(t[1].0 == "UTC-11"@ && "UTC-11"@.len() != "Atlantic Standard Time"@.len());
        assert(t[2].0 == "Hawaiian Standard Time"@ && "Hawaiian Standard Time"@[0] != "Atlantic Standard Time"@[0]);
        assert(t[3].0 == "Alaskan Standard Time"@ && "Alaskan Standard Time"@.len() != "Atlantic Standard Time"@.len());
        assert(t[4].0 == "Pacific Standard Time"@ && "Pacific Standard Time"@.len() != "Atlantic Standard Time"@.len());
        assert(t[5].0 == "US Mountain Standard Time"@ && "US Mountain Standard Time"@.len() != "Atlantic Standard Time"@.len());
        assert(t[6].0 == "Mountain Standard Time"@ && "Mountain Standard Time"@[0] != "Atlantic Standard Time"@[0]);
        assert(t[7].0 == "Central Standard Time"@ && "Central Standard Time"@.len() != "Atlantic Standard Time"@.len());
        assert(t[8].0 == "Eastern Standard Time"@ && "Eastern Standard Time"@.len() != "Atlantic Standard Time"@.len());
        lemma_first_at(t, "Atlantic Standard Time"@, 9);
    }
    assert(table_minutes(t, "Newfoundland Standard Time"@) == Some(t[10].1)) by {
        reveal(time_zone_table);
        reveal_with_fuel(absent_before, 12);
        reveal_strlit("Dateline Standard Time");
        reveal_strlit("UTC-11");
        reveal_strlit("Hawaiian Standard Time");
        reveal_strlit("Alaskan Standard Time");
        reveal_strlit("Pacific Standard Time");
        reveal_strlit("US Mountain Standard Time");
        reveal_strlit("Mountain Standard Time");
        reveal_strlit("Central Standard Time");
        reveal_strlit("Eastern Standard Time");
        reveal_strlit("Atlantic Standard Time");
        reveal_strlit("Newfoundland Standard Time");
        assert(t[10].0 == "Newfoundland Standard Time"@);
        assert(t[0].0 == "Dateline Standard Time"@ && "Dateline Standard Time"@.len() != "Newfoundland Standard Time"@.len());
        assert(t[1].0 == "UTC-11"@ && "UTC-11"@.len() != "Newfoundland Standard Time"@.len());
        assert(t[2].0 == "Hawaiian Standard Time"@ && "Hawaiian Standard Time"@.len() != "Newfoundland Standard Time"@.len());
        assert(t[3].0 == "Alaskan Standard Time"@ && "Alaskan Standard Time"@.len() != "Newfoundland Standard Time"@.len());
        assert(t[4].0 == "Pacific Standard Time"@ && "Pacific Standard Time"@.len() != "Newfoundland Standard Time"@.len());
        assert(t[5].0 == "US Mountain Standard Time"@ && "US Mountain Standard Time"@.len() != "Newfoundland Standard Time"@.len());
        assert(t[6].0 == "Mountain Standard Time"@ && "Mountain Standard Time"@.len() != "Newfoundland Standard Time"@.len());
        assert(t[7].0 == "Central Standard Time"@ && "Central Standard Time"@.len() != "Newfoundland Standard Time"@.len());
        assert(t[8].0 == "Eastern Standard Time"@ && "Eastern Standard Time"@.len() != "Newfoundland Standard Time"@.len());
        assert(t[9].0 == "Atlantic Standard Time"@ && "Atlantic Standard Time"@.len() != "Newfoundland Standard Time"@.len());
        lemma_first_at(t, "Newfoundland Standard Time"@, 10);
    }
    assert(table_minutes(t, "E. South America Standard Time"@) == Some(t[11].1)) by {
        reveal(time_zone_table);
        reveal_with_fuel(absent_before, 13);
        reveal_strlit("Dateline Standard Time");
        reveal_strlit("UTC-11");
        reveal_strlit("Hawaiian Standard Time");
        reveal_strlit("Alaskan Standard Time");
        reveal_strlit("Pacific Standard Time");
        reveal_strlit("US Mountain Standard Time");
        reveal_strlit("Mountain Standard Time");
        reveal_strlit("Central Standard Time");
        reveal_strlit("Eastern Standard Time");
        reveal_strlit("Atlantic Standard Time");
        reveal_strlit("Newfoundland Standard Time");
        reveal_strlit("E. South America Standard Time");
        assert(t[11].0 == "E. South America Standard Time"@);
        assert(t[0].0 == "Dateline Standard Time"@ && "Dateline Standard Time"@.len() != "E. South America Standard Time"@.len());
        assert(t[1].0 == "UTC-11"@ && "UTC-11"@.len() != "E. South America Standard Time"@.len());
        assert(t[2].0 == "Hawaiian Standard Time"@ && "Hawaiian Standard Time"@.len() != "E. South America Standard Time"@.len());
        assert(t[3].0 == "Alaskan Standard Time"@ && "Alaskan Standard Time"@.len() != "E. South America Standard Time"@.len());
        assert(t[4].0 == "Pacific Standard Time"@ && "Pacific Standard Time"@.len() != "E. South America Standard Time"@.len());
        assert(t[5].0 == "US Mountain Standard Time"@ && "US Mountain Standard Time"@.len() != "E. South America Standard Time"@.len());
        assert(t[6].0 == "Mountain Standard Time"@ && "Mountain Standard Time"@.len() != "E. South America Standard Time"@.len());
        assert(t[7].0 == "Central Standard Time"@ && "Central Standard Time"@.len() != "E. South America Standard Time"@.len());
        assert(t[8].0 == "Eastern Standard Time"@ && "Eastern Standard Time"@.len() != "E. South America Standard Time"@.len());
        assert(t[9].0 == "Atlantic Standard Time"@ && "Atlantic Standard Time"@.len() != "E. South America Standard Time"@.len());
        assert(t[10].0 == "Newfoundland Standard Time"@ && "Newfoundland Standard Time"@.len() != "E. South America Standard Time"@.len());
        lemma_first_at(t, "E. South America Standard Time"@, 11);
    }
    assert(table_minutes(t, "Greenland Standard Time"@) == Some(t[12].1)) by {
        reveal(time_zone_table);
        reveal_with_fuel(absent_before, 14);
        reveal_strlit("Dateline Standard Time");
        reveal_strlit("UTC-11");
        reveal_strlit("Hawaiian Standard Time");
        reveal_strlit("Alaskan Standard Time");
        reveal_strlit("Pacific Standard Time");
        reveal_strlit("US Mountain Standard Time");
        reveal_strlit("Mountain Standard Time");
        reveal_strlit("Central Standard Time");
        reveal_strlit("Eastern Standard Time");
        reveal_strlit("Atlantic Standard Time");
        reveal_strlit("Newfoundland Standard Time");
        reveal_strlit("E. South America Standard Time");
        reveal_strlit("Greenland Standard Time");
        assert(t[12].0 == "Greenland Standard Time"@);
        assert(t[0].0 == "Dateline Standard Time"@ && "Dateline Standard Time"@.len() != "Greenland Standard Time"@.len());
        assert(t[1].0 == "UTC-11"@ && "UTC-11"@.len() != "Greenland Standard Time"@.len());
        assert(t[2].0 == "Hawaiian Standard Time"@ && "Hawaiian Standard Time"@.len() != "Greenland Standard Time"@.len());
        assert(t[3].0 == "Alaskan Standard Time"@ && "Alaskan Standard Time"@.len() != "Greenland Standard Time"@.len());
        assert(t[4].0 == "Pacific Standard Time"@ && "Pacific Standard Time"@.len() != "Greenland Standard Time"@.len());
        assert(t[5].0 == "US Mountain Standard Time"@ && "US Mountain Standard Time"@.len() != "Greenland Standard Time"@.len());
        assert(t[6].0 == "Mountain Standard Time"@ && "Mountain Standard Time"@.len() != "Greenland Standard Time"@.len());
        assert(t[7].0 == "Central Standard Time"@ && "Central Standard Time"@.len() != "Greenland Standard Time"@.len());
        assert(t[8].0 == "Eastern Standard Time"@ && "Eastern Standard Time"@.len() != "Greenland Standard Time"@.len());
        assert(t[9].0 == "Atlantic Standard Time"@ && "Atlantic Standard Time"@.len() != "Greenland Standard Time"@.len());
        assert(t[10].0 == "Newfoundland Standard Time"@ && "Newfoundland Standard Time"@.len() != "Greenland Standard Time"@.len());
        assert(t[11].0 == "E. South America Standard Time"@ && "E. South America Standard Time"@.len() != "Greenland Standard Time"@.len());
        lemma_first_at(t, "Greenland Standard Time"@, 12);
    }
    assert(table_minutes(t, "UTC"@) == Some(t[13].1)) by {
        reveal(time_zone_table);
        reveal_with_fuel(absent_before, 15);
        reveal_strlit("Dateline Standard Time");
        reveal_strlit("UTC-11");
        reveal_strlit("Hawaiian Standard Time");
        reveal_strlit("Alaskan Standard Time");
        reveal_strlit("Pacific Standard Time");
        reveal_strlit("US Mountain Standard Time");
        reveal_strlit("Mountain Standard Time");
        reveal_strlit("Central Standard Time");
        reveal_strlit("Eastern Standard Time");
        reveal_strlit("Atlantic Standard Time");
        reveal_strlit("Newfoundland Standard Time");
        reveal_strlit("E. South America Standard Time");
        reveal_strlit("Greenland Standard Time");
        reveal_strlit("UTC");
        assert(t[13].0 == "UTC"@);
        assert(t[0].0 == "Dateline Standard Time"@ && "Dateline Standard Time"@.len() != "UTC"@.len());
        assert(t[1].0 == "UTC-11"@ && "UTC-11"@.len() != "UTC"@.len());
        assert(t[2].0 == "Hawaiian Standard Time"@ && "Hawaiian Standard Time"@.len() != "UTC"@.len());
        assert(t[3].0 == "Alaskan Standard Time"@ && "Alaskan Standard Time"@.len() != "UTC"@.len());
        assert(t[4].0 == "Pacific Standard Time"@ && "Pacific Standard Time"@.len() != "UTC"@.len());
        assert(t[5].0 == "US Mountain Standard Time"@ && "US Mountain Standard Time"@.len() != "UTC"@.len());
        assert(t[6].0 == "Mountain Standard Time"@ && "Mountain Standard Time"@.len() != "UTC"@.len());
        assert(t[7].0 == "Central Standard Time"@ && "Central Standard Time"@.len() != "UTC"@.len());
        assert(t[8].0 == "Eastern Standard Time"@ && "Eastern Standard Time"@.len() != "UTC"@.len());
        assert(t[9].0 == "Atlantic Standard Time"@ && "Atlantic Standard Time"@.len() != "UTC"@.len());
        assert(t[10].0 == "Newfoundland Standard Time"@ && "Newfoundland Standard Time"@.len() != "UTC"@.len());
        assert(t[11].0 == "E. South America Standard Time"@ && "E. South America Standard Time"@.len() != "UTC"@.len());
        assert(t[12].0 == "Greenland Standard Time"@ && "Greenland Standard Time"@.len() != "UTC"@.len());
        lemma_first_at(t, "UTC"@, 13);
    }
    assert(table_minutes(t, "GMT Standard Time"@) == Some(t[14].1)) by {
        reveal(time_zone_table);
        reveal_with_fuel(absent_before, 16);
        reveal_strlit("Dateline Standard Time");
        reveal_strlit("UTC-11");
        reveal_strlit("Hawaiian Standard Time");
        reveal_strlit("Alaskan Standard Time");
        reveal_strlit("Pacific Standard Time");
        reveal_strlit("US Mountain Standard Time");
        reveal_strlit("Mountain Standard Time");
        reveal_strlit("Central Standard Time");
        reveal_strlit("Eastern Standard Time");
        reveal_strlit("Atlantic Standard Time");
        reveal_strlit("Newfoundland Standard Time");
        reveal_strlit("E. South America Standard Time");
        reveal_strlit("Greenland Standard Time");
        reveal_strlit("UTC");
        reveal_strlit("GMT Standard Time");
        assert(t[14].0 == "GMT Standard Time"@);
        assert(t[0].0 == "Dateline Standard Time"@ && "Dateline Standard Time"@.len() != "GMT Standard Time"@.len());
        assert(t[1].0 == "UTC-11"@ && "UTC-11"@.len() != "GMT Standard Time"@.len());
        assert(t[2].0 == "Hawaiian Standard Time"@ && "Hawaiian Standard Time"@.len() != "GMT Standard Time"@.len());
        assert(t[3].0 == "Alaskan Standard Time"@ && "Alaskan Standard Time"@.len() != "GMT Standard Time"@.len());
        assert(t[4].0 == "Pacific Standard Time"@ && "Pacific Standard Time"@.len() != "GMT Standard Time"@.len());
        assert(t[5].0 == "US Mountain Standard Time"@ && "US Mountain Standard Time"@.len() != "GMT Standard Time"@.len());
        assert(t[6].0 == "Mountain Standard Time"@ && "Mountain Standard Time"@.len() != "GMT Standard Time"@.len());
        assert(t[7].0 == "Central Standard Time"@ && "Central Standard Time"@.len() != "GMT Standard Time"@.len());
        assert(t[8].0 == "Eastern Standard Time"@ && "Eastern Standard Time"@.len() != "GMT Standard Time"@.len());
        assert(t[9].0 == "Atlantic Standard Time"@ && "Atlantic Standard Time"@.len() != "GMT Standard Time"@.len());
        assert(t[10].0 == "Newfoundland Standard Time"@ && "Newfoundland Standard Time"@.len() != "GMT Standard Time"@.len());
        assert(t[11].0 == "E. South America Standard Time"@ && "E. South America Standard Time"@.len() != "GMT Standard Time"@.len());
        assert(t[12].0 == "Greenland Standard Time"@ && "Greenland Standard Time"@.len() != "GMT Standard Time"@.len());
        assert(t[13].0 == "UTC"@ && "UTC"@.len() != "GMT Standard Time"@.len());
        lemma_first_at(t, "GMT Standard Time"@, 14);
    }
    assert(table_minutes(t, "Greenwich Standard Time"@) == Some(t[15].1)) by {
        reveal(time_zone_table);
        reveal_with_fuel(absent_before, 17);
        reveal_strlit("Dateline Standard Time");
        reveal_strlit("UTC-11");
        reveal_strlit("Hawaiian Standard Time");
        reveal_strlit("Alaskan Standard Time");
        reveal_strlit("Pacific Standard Time");
        reveal_strlit("US Mountain Standard Time");
        reveal_strlit("Mountain Standard Time");
        reveal_strlit("Central Standard Time");
        reveal_strlit("Eastern Standard Time");
        reveal_strlit("Atlantic Standard Time");
        reveal_strlit("Newfoundland Standard Time");
        reveal_strlit("E. South America Standard Time");
        reveal_strlit("Greenland Standard Time");
        reveal_strlit("UTC");
        reveal_strlit("GMT Standard Time");
        reveal_strlit("Greenwich Standard Time");
        assert(t[15].0 == "Greenwich Standard Time"@);
        assert(t[0].0 == "Dateline Standard Time"@ && "Dateline Standard Time"@.len() != "Greenwich Standard Time"@.len());
        assert(t[1].0 == "UTC-11"@ && "UTC-11"@.len() != "Greenwich Standard Time"@.len());
        assert(t[2].0 == "Hawaiian Standard Time"@ && "Hawaiian Standard Time"@.len() != "Greenwich Standard Time"@.len());
        assert(t[3].0 == "Alaskan Standard Time"@ && "Alaskan Standard Time"@.len() != "Greenwich Standard Time"@.len());
        assert(t[4].0 == "Pacific Standard Time"@ && "Pacific Standard Time"@.len() != "Greenwich Standard Time"@.len());
        assert(t[5].0 == "US Mountain Standard Time"@ && "US Mountain Standard Time"@.len() != "Greenwich Standard Time"@.len());
        assert(t[6].0 == "Mountain Standard Time"@ && "Mountain Standard Time"@.len() != "Greenwich Standard Time"@.len());
        assert(t[7].0 == "Central Standard Time"@ && "Central Standard Time"@.len() != "Greenwich Standard Time"@.len());
        assert(t[8].0 == "Eastern Standard Time"@ && "Eastern Standard Time"@.len() != "Greenwich Standard Time"@.len());
        assert(t[9].0 == "Atlantic Standard Time"@ && "Atlantic Standard Time"@.len() != "Greenwich Standard Time"@.len());
        assert(t[10].0 == "Newfoundland Standard Time"@ && "Newfoundland Standard Time"@.len() != "Greenwich Standard Time"@.len());
        assert(t[11].0 == "E. South America Standard Time"@ && "E. South America Standard Time"@.len() != "Greenwich Standard Time"@.len());
        assert(t[12].0 == "Greenland Standard Time"@ && "Greenland Standard Time"@[5] != "Greenwich Standard Time"@[5]);
        assert(t[13].0 == "UTC"@ && "UTC"@.len() != "Greenwich Standard Time"@.len());
        assert(t[14].0 == "GMT Standard Time"@ && "GMT Standard Time"@.len() != "Greenwich Standard Time"@.len());
        lemma_first_at(t, "Greenwich Standard Time"@, 15);
    }
    assert(table_minutes(t, "W. Europe Standard Time"@) == Some(t[16].1)) by {
        reveal(time_zone_table);
        reveal_with_fuel(absent_before, 18);
        reveal_strlit("Dateline Standard Time");
        reveal_strlit("UTC-11");
        reveal_strlit("Hawaiian Standard Time");
        reveal_strlit("Alaskan Standard Time");
        reveal_strlit("Pacific Standard Time");
        reveal_strlit("US Mountain Standard Time");
        reveal_strlit("Mountain Standard Time");
        reveal_strlit("Central Standard Time");
        reveal_strlit("Eastern Standard Time");
        reveal_strlit("Atlantic Standard Time");
        reveal_strlit("Newfoundland Standard Time");
        reveal_strlit("E. South America Standard Time");
        reveal_strlit("Greenland Standard Time");
        reveal_strlit("UTC");
        reveal_strlit("GMT Standard Time");
        reveal_strlit("Greenwich Standard Time");
        reveal_strlit("W. Europe Standard Time");
        assert(t[16].0 == "W. Europe Standard Time"@);
        assert(t[0].0 == "Dateline Standard Time"@ && "Dateline Standard Time"@.len() != "W. Europe Standard Time"@.len());
        assert(t[1].0 == "UTC-11"@ && "UTC-11"@.len() != "W. Europe Standard Time"@.len());
        assert(t[2].0 == "Hawaiian Standard Time"@ && "Hawaiian Standard Time"@.len() != "W. Europe Standard Time"@.len());
        assert(t[3].0 == "Alaskan Standard Time"@ && "Alaskan Standard Time"@.len() != "W. Europe Standard Time"@.len());
        assert(t[4].0 == "Pacific Standard Time"@ && "Pacific Standard Time"@.len() != "W. Europe Standard Time"@.len());
        assert(t[5].0 == "US Mountain Standard Time"@ && "US Mountain Standard Time"@.len() != "W. Europe Standard Time"@.len());
        assert(t[6].0 == "Mountain Standard Time"@ && "Mountain Standard Time"@.len() != "W. Europe Standard Time"@.len());
        assert(t[7].0 == "Central Standard Time"@ && "Central Standard Time"@.len() != "W. Europe Standard Time"@.len());
        assert(t[8].0 == "Eastern Standard Time"@ && "Eastern Standard Time"@.len() != "W. Europe Standard Time"@.len());
        assert(t[9].0 == "Atlantic Standard Time"@ && "Atlantic Standard Time"@.len() != "W. Europe Standard Time"@.len());
        assert(t[10].0 == "Newfoundland Standard Time"@ && "Newfoundland Standard Time"@.len() != "W. Europe Standard Time"@.len());
        assert(t[11].0 == "E. South America Standard Time"@ && "E. South America Standard Time"@.len() != "W. Europe Standard Time"@.len());
        assert(t[12].0 == "Greenland Standard Time"@ && "Greenland Standard Time"@[0] != "W. Europe Standard Time"@[0]);
        assert(t[13].0 == "UTC"@ && "UTC"@.len() != "W. Europe Standard Time"@.len());
        assert(t[14].0 == "GMT Standard Time"@ && "GMT Standard Time"@.len() != "W. Europe Standard Time"@.len());
        assert(t[15].0 == "Greenwich Standard Time"@ && "Greenwich Standard Time"@[0] != "W. Europe Standard Time"@[0]);
        lemma_first_at(t, "W. Europe Standard Time"@, 16);
    }
    assert(table_minutes(t, "Central Europe Standard Time"@) == Some(t[17].1)) by {
        reveal(time_zone_table);
        reveal_with_fuel(absent_before, 19);
        reveal_strlit("Dateline Standard Time");
        reveal_strlit("UTC-11");
        reveal_strlit("Hawaiian Standard Time");
        reveal_strlit("Alaskan Standard Time");
        reveal_strlit("Pacific Standard Time");
        reveal_strlit("US Mountain Standard Time");
        reveal_strlit("Mountain Standard Time");
        reveal_strlit("Central Standard Time");
        reveal_strlit("Eastern Standard Time");
        reveal_strlit("Atlantic Standard Time");
        reveal_strlit("Newfoundland Standard Time");
        reveal_strlit("E. South America Standard Time");
        reveal_strlit("Greenland Standard Time");
        reveal_strlit("UTC");
        reveal_strlit("GMT Standard Time");
        reveal_strlit("Greenwich Standard Time");
        reveal_strlit("W. Europe Standard Time");
        reveal_strlit("Central Europe Standard Time");
        assert(t[17].0 == "Central Europe Standard Time"@);
        assert(t[0].0 == "Dateline Standard Time"@ && "Dateline Standard Time"@.len() != "Central Europe Standard Time"@.len());
        assert(t[1].0 == "UTC-11"@ && "UTC-11"@.len() != "Central Europe Standard Time"@.len());
        assert(t[2].0 == "Hawaiian Standard Time"@ && "Hawaiian Standard Time"@.len() != "Central Europe Standard Time"@.len());
        assert(t[3].0 == "Alaskan Standard Time"@ && "Alaskan Standard Time"@.len() != "Central Europe Standard Time"@.len());
        assert(t[4].0 == "Pacific Standard Time"@ && "Pacific Standard Time"@.len() != "Central Europe Standard Time"@.len());
        assert(t[5].0 == "US Mountain Standard Time"@ && "US Mountain Standard Time"@.len() != "Central Europe Standard Time"@.len());
        assert(t[6].0 == "Mountain Standard Time"@ && "Mountain Standard Time"@.len() != "Central Europe Standard Time"@.len());
        assert(t[7].0 == "Central Standard Time"@ && "Central Standard Time"@.len() != "Central Europe Standard Time"@.len());
        assert(t[8].0 == "Eastern Standard Time"@ && "Eastern Standard Time"@.len() != "Central Europe Standard Time"@.len());
        assert(t[9].0 == "Atlantic Standard Time"@ && "Atlantic Standard Time"@.len() != "Central Europe Standard Time"@.len());
        assert(t[10].0 == "Newfoundland Standard Time"@ && "Newfoundland Standard Time"@.len() != "Central Europe Standard Time"@.len());
        assert(t[11].0 == "E. South America Standard Time"@ && "E. South America Standard Time"@.len() != "Central Europe Standard Time"@.len());
        assert(t[12].0 == "Greenland Standard Time"@ && "Greenland Standard Time"@.len() != "Central Europe Standard Time"@.len());
        assert(t[13].0 == "UTC"@ && "UTC"@.len() != "Central Europe Standard Time"@.len());
        assert(t[14].0 == "GMT Standard Time"@ && "GMT Standard Time"@.len() != "Central Europe Standard Time"@.len());
        assert(t[15].0 == "Greenwich Standard Time"@ && "Greenwich Standard Time"@.len() != "Central Europe Standard Time"@.len());
        assert(t[16].0 == "W. Europe Standard Time"@ && "W. Europe Standard Time"@.len() != "Central Europe Standard Time"@.len());
        lemma_first_at(t, "Central Europe Standard Time"@, 17);
    }
    assert(table_minutes(t, "Romance Standard Time"@) == Some(t[18].1)) by {
        reveal(time_zone_table);
        reveal_with_fuel(absent_before, 20);
        reveal_strlit("Dateline Standard Time");
        reveal_strlit("UTC-11");
        reveal_strlit("Hawaiian Standard Time");
        reveal_strlit("Alaskan Standard Time");
        reveal_strlit("Pacific Standard Time");
        reveal_strlit("US Mountain Standard Time");
        reveal_strlit("Mountain Standard Time");
        reveal_strlit("Central Standard Time");
        reveal_strlit("Eastern Standard Time");
        reveal_strlit("Atlantic Standard Time");
        reveal_strlit("Newfoundland Standard Time");
        reveal_strlit("E. South America Standard Time");
        reveal_strlit("Greenland Standard Time");
        reveal_strlit("UTC");
        reveal_strlit("GMT Standard Time");
        reveal_strlit("Greenwich Standard Time");
        reveal_strlit("W. Europe Standard Time");
        reveal_strlit("Central Europe Standard Time");
        reveal_strlit("Romance Standard Time");
        assert(t[18].0 == "Romance Standard Time"@);
        assert(t[0].0 == "Dateline Standard Time"@ && "Dateline Standard Time"@.len() != "Romance Standard Time"@.len());
        assert(t[1].0 == "UTC-11"@ && "UTC-11"@.len() != "Romance Standard Time"@.len());
        assert(t[2].0 == "Hawaiian Standard Time"@ && "Hawaiian Standard Time"@.len() != "Romance Standard Time"@.len());
        assert(t[3].0 == "Alaskan Standard Time"@ && "Alaskan Standard Time"@[0] != "Romance Standard Time"@[0]);
        assert(t[4].0 == "Pacific Standard Time"@ && "Pacific Standard Time"@[0] != "Romance Standard Time"@[0]);
        assert(t[5].0 == "US Mountain Standard Time"@ && "US Mountain Standard Time"@.len() != "Romance Standard Time"@.len());
        assert(t[6].0 == "Mountain Standard Time"@ && "Mountain Standard Time"@.len() != "Romance Standard Time"@.len());
        assert(t[7].0 == "Central Standard Time"@ && "Central Standard Time"@[0] != "Romance Standard Time"@[0]);
        assert(t[8].0 == "Eastern Standard Time"@ && "Eastern Standard Time"@[0] != "Romance Standard Time"@[0]);
        assert(t[9].0 == "Atlantic Standard Time"@ && "Atlantic Standard Time"@.len() != "Romance Standard Time"@.len());
        assert(t[10].0 == "Newfoundland Standard Time"@ && "Newfoundland Standard Time"@.len() != "Romance Standard Time"@.len());
        assert(t[11].0 == "E. South America Standard Time"@ && "E. South America Standard Time"@.len() != "Romance Standard Time"@.len());
        assert(t[12].0 == "Greenland Standard Time"@ && "Greenland Standard Time"@.len() != "Romance Standard Time"@.len());
        assert(t[13].0 == "UTC"@ && "UTC"@.len() != "Romance Standard Time"@.len());
        assert(t[14].0 == "GMT Standard Time"@ && "GMT Standard Time"@.len() != "Romance Standard Time"@.len());
        assert(t[15].0 == "Greenwich Standard Time"@ && "Greenwich Standard Time"@.len() != "Romance Standard Time"@.len());
        assert(t[16].0 == "W. Europe Standard Time"@ && "W. Europe Standard Time"@.len() != "Romance Standard Time"@.len());
        assert(t[17].0 == "Central Europe Standard Time"@ && "Central Europe Standard Time"@.len() != "Romance Standard Time"@.len());
        lemma_first_at(t, "Romance Standard Time"@, 18);
    }
    assert(table_minutes(t, "W. Central Africa Standard Time"@) == Some(t[19].1)) by {
        reveal(time_zone_table);
        reveal_with_fuel(absent_before, 21);
        reveal_strlit("Dateline Standard Time");
        reveal_strlit("UTC-11");
        reveal_strlit("Hawaiian Standard Time");
        reveal_strlit("Alaskan Standard Time");
        reveal_strlit("Pacific Standard Time");
        reveal_strlit("US Mountain Standard Time");
        reveal_strlit("Mountain Standard Time");
        reveal_strlit("Central Standard Time");
        reveal_strlit("Eastern Standard Time");
        reveal_strlit("Atlantic Standard Time");
        reveal_strlit("Newfoundland Standard Time");
        reveal_strlit("E. South America Standard Time");
        reveal_strlit("Greenland Standard Time");
        reveal_strlit("UTC");
        reveal_strlit("GMT Standard Time");
        reveal_strlit("Greenwich Standard Time");
        reveal_strlit("W. Europe Standard Time");
        reveal_strlit("Central Europe Standard Time");
        reveal_strlit("Romance Standard Time");
        reveal_strlit("W. Central Africa Standard Time");
        assert(t[19].0 == "W. Central Africa Standard Time"@);
        assert(t[0].0 == "Dateline Standard Time"@ && "Dateline Standard Time"@.len() != "W. Central Africa Standard Time"@.len());
        assert(t[1].0 == "UTC-11"@ && "UTC-11"@.len() != "W. Central Africa Standard Time"@.len());
        assert(t[2].0 == "Hawaiian Standard Time"@ && "Hawaiian Standard Time"@.len() != "W. Central Africa Standard Time"@.len());
        assert(t[3].0 == "Alaskan Standard Time"@ && "Alaskan Standard Time"@.len() != "W. Central Africa Standard Time"@.len());
        assert(t[4].0 == "Pacific Standard Time"@ && "Pacific Standard Time"@.len() != "W. Central Africa Standard Time"@.len());
        assert(t[5].0 == "US Mountain Standard Time"@ && "US Mountain Standard Time"@.len() != "W. Central Africa Standard Time"@.len());
        assert(t[6].0 == "Mountain Standard Time"@ && "Mountain Standard Time"@.len() != "W. Central Africa Standard Time"@.len());
        assert(t[7].0 == "Central Standard Time"@ && "Central Standard Time"@.len() != "W. Central Africa Standard Time"@.len());
        assert(t[8].0 == "Eastern Standard Time"@ && "Eastern Standard Time"@.len() != "W. Central Africa Standard Time"@.len());
        assert(t[9].0 == "Atlantic Standard Time"@ && "Atlantic Standard Time"@.len() != "W. Central Africa Standard Time"@.len());
        assert(t[10].0 == "Newfoundland Standard Time"@ && "Newfoundland Standard Time"@.len() != "W. Central Africa Standard Time"@.len());
        assert(t[11].0 == "E. South America Standard Time"@ && "E. South America Standard Time"@.len() != "W. Central Africa Standard Time"@.len());
        assert(t[12].0 == "Greenland Standard Time"@ && "Greenland Standard Time"@.len() != "W. Central Africa Standard Time"@.len());
        assert(t[13].0 == "UTC"@ && "UTC"@.len() != "W. Central Africa Standard Time"@.len());
        assert(t[14].0 == "GMT Standard Time"@ && "GMT Standard Time"@.len() != "W. Central Africa Standard Time"@.len());
        assert(t[15].0 == "Greenwich Standard Time"@ && "Greenwich Standard Time"@.len() != "W. Central Africa Standard Time"@.len());
        assert(t[16].0 == "W. Europe Standard Time"@ && "W. Europe Standard Time"@.len() != "W. Central Africa Standard Time"@.len());
        assert(t[17].0 == "Central Europe Standard Time"@ && "Central Europe Standard Time"@.len() != "W. Central Africa Standard Time"@.len());
        assert(t[18].0 == "Romance Standard Time"@ && "Romance Standard Time"@.len() != "W. Central Africa Standard Time"@.len());
        lemma_first_at(t, "W. Central Africa Standard Time"@, 19);
    }
    assert(table_minutes(t, "E. Europe Standard Time"@) == Some(t[20].1)) by {
        reveal(time_zone_table);
        reveal_with_fuel(absent_before, 22);
        reveal_strlit("Dateline Standard Time");
        reveal_strlit("UTC-11");
        reveal_strlit("Hawaiian Standard Time");
        reveal_strlit("Alaskan Standard Time");
        reveal_strlit("Pacific Standard Time");
        reveal_strlit("US Mountain Standard Time");
        reveal_strlit("Mountain Standard Time");
        reveal_strlit("Central Standard Time");
        reveal_strlit("Eastern Standard Time");
        reveal_strlit("Atlantic Standard Time");
        reveal_strlit("Newfoundland Standard Time");
        reveal_strlit("E. South America Standard Time");
        reveal_strlit("Greenland Standard Time");
        reveal_strlit("UTC");
        reveal_strlit("GMT Standard Time");
        reveal_strlit("Greenwich Standard Time");
        reveal_strlit("W. Europe Standard Time");
        reveal_strlit("Central Europe Standard Time");
        reveal_strlit("Romance Standard Time");
        reveal_strlit("W. Central Africa Standard Time");
        reveal_strlit("E. Europe Standard Time");
        assert(t[20].0 == "E. Europe Standard Time"@);
        assert(t[0].0 == "Dateline Standard Time"@ && "Dateline Standard Time"@.len() != "E. Europe Standard Time"@.len());
        assert(t[1].0 == "UTC-11"@ && "UTC-11"@.len() != "E. Europe Standard Time"@.len());
        assert(t[2].0 == "Hawaiian Standard Time"@ && "Hawaiian Standard Time"@.len() != "E. Europe Standard Time"@.len());
        assert(t[3].0 == "Alaskan Standard Time"@ && "Alaskan Standard Time"@.len() != "E. Europe Standard Time"@.len());
        assert(t[4].0 == "Pacific Standard Time"@ && "Pacific Standard Time"@.len() != "E. Europe Standard Time"@.len());
        assert(t[5].0 == "US Mountain Standard Time"@ && "US Mountain Standard Time"@.len() != "E. Europe Standard Time"@.len());
        assert(t[6].0 == "Mountain Standard Time"@ && "Mountain Standard Time"@.len() != "E. Europe Standard Time"@.len());
        assert(t[7].0 == "Central Standard Time"@ && "Central Standard Time"@.len() != "E. Europe Standard Time"@.len());
        assert(t[8].0 == "Eastern Standard Time"@ && "Eastern Standard Time"@.len() != "E. Europe Standard Time"@.len());
        assert(t[9].0 == "Atlantic Standard Time"@ && "Atlantic Standard Time"@.len() != "E. Europe Standard Time"@.len());
        assert(t[10].0 == "Newfoundland Standard Time"@ && "Newfoundland Standard Time"@.len() != "E. Europe Standard Time"@.len());
        assert(t[11].0 == "E. South America Standard Time"@ && "E. South America Standard Time"@.len() != "E. Europe Standard Time"@.len());
        assert(t[12].0 == "Greenland Standard Time"@ && "Greenland Standard Time"@[0] != "E. Europe Standard Time"@[0]);
        assert(t[13].0 == "UTC"@ && "UTC"@.len() != "E. Europe Standard Time"@.len());
        assert(t[14].0 == "GMT Standard Time"@ && "GMT Standard Time"@.len() != "E. Europe Standard Time"@.len());
        assert(t[15].0 == "Greenwich Standard Time"@ && "Greenwich Standard Time"@[0] != "E. Europe Standard Time"@[0]);
        assert(t[16].0 == "W. Europe Standard Time"@ && "W. Europe Standard Time"@[0] != "E. Europe Standard Time"@[0]);
        assert(t[17].0 == "Central Europe Standard Time"@ && "Central Europe Standard Time"@.len() != "E. Europe Standard Time"@.len());
        assert(t[18].0 == "Romance Standard Time"@ && "Romance Standard Time"@.len() != "E. Europe Standard Time"@.len());
        assert(t[19].0 == "W. Central Africa Standard Time"@ && "W. Central Africa Standard Time"@.len() != "E. Europe Standard Time"@.len());
        lemma_first_at(t, "E. Europe Standard Time"@, 20);
    }
    assert(table_minutes(t, "South Africa Standard Time"@) == Some(t[21].1)) by {
        reveal(time_zone_table);
        reveal_with_fuel(absent_before, 23);
        reveal_strlit("Dateline Standard Time");
        reveal_strlit("UTC-11");
        reveal_strlit("Hawaiian Standard Time");
        reveal_strlit("Alaskan Standard Time");
        reveal_strlit("Pacific Standard Time");
        reveal_strlit("US Mountain Standard Time");
        reveal_strlit("Mountain Standard Time");
        reveal_strlit("Central Standard Time");
        reveal_strlit("Eastern Standard Time");
        reveal_strlit("Atlantic Standard Time");
        reveal_strlit("Newfoundland Standard Time");
        reveal_strlit("E. South America Standard Time");
        reveal_strlit("Greenland Standard Time");
        reveal_strlit("UTC");
        reveal_strlit("GMT Standard Time");
        reveal_strlit("Greenwich Standard Time");
        reveal_strlit("W. Europe Standard Time");
        reveal_strlit("Central Europe Standard Time");
        reveal_strlit("Romance Standard Time");
        reveal_strlit("W. Central Africa Standard Time");
        reveal_strlit("E. Europe Standard Time");
        reveal_strlit("South Africa Standard Time");
        assert(t[21].0 == "South Africa Standard Time"@);
        assert(t[0].0 == "Dateline Standard Time"@ && "Dateline Standard Time"@.len() != "South Africa Standard Time"@.len());
        assert(t[1].0 == "UTC-11"@ && "UTC-11"@.len() != "South Africa Standard Time"@.len());
        assert(t[2].0 == "Hawaiian Standard Time"@ && "Hawaiian Standard Time"@.len() != "South Africa Standard Time"@.len());
        assert(t[3].0 == "Alaskan Standard Time"@ && "Alaskan Standard Time"@.len() != "South Africa Standard Time"@.len());
        assert(t[4].0 == "Pacific Standard Time"@ && "Pacific Standard Time"@.len() != "South Africa Standard Time"@.len());
        assert(t[5].0 == "US Mountain Standard Time"@ && "US Mountain Standard Time"@.len() != "South Africa Standard Time"@.len());
        assert(t[6].0 == "Mountain Standard Time"@ && "Mountain Standard Time"@.len() != "South Africa Standard Time"@.len());
        assert(t[7].0 == "Central Standard Time"@ && "Central Standard Time"@.len() != "South Africa Standard Time"@.len());
        assert(t[8].0 == "Eastern Standard Time"@ && "Eastern Standard Time"@.len() != "South Africa Standard Time"@.len());
        assert(t[9].0 == "Atlantic Standard Time"@ && "Atlantic Standard Time"@.len() != "South Africa Standard Time"@.len());
        assert(t[10].0 == "Newfoundland Standard Time"@ && "Newfoundland Standard Time"@[0] != "South Africa Standard Time"@[0]);
        assert(t[11].0 == "E. South America Standard Time"@ && "E. South America Standard Time"@.len() != "South Africa Standard Time"@.len());
        assert(t[12].0 == "Greenland Standard Time"@ && "Greenland Standard Time"@.len() != "South Africa Standard Time"@.len());
        assert(t[13].0 == "UTC"@ && "UTC"@.len() != "South Africa Standard Time"@.len());
        assert(t[14].0 == "GMT Standard Time"@ && "GMT Standard Time"@.len() != "South Africa Standard Time"@.len());
        assert(t[15].0 == "Greenwich Standard Time"@ && "Greenwich Standard Time"@.len() != "South Africa Standard Time"@.len());
        assert(t[16].0 == "W. Europe Standard Time"@ && "W. Europe Standard Time"@.len() != "South Africa Standard Time"@.len());
        assert(t[17].0 == "Central Europe Standard Time"@ && "Central Europe Standard Time"@.len() != "South Africa Standard Time"@.len());
        assert(t[18].0 == "Romance Standard Time"@ && "Romance Standard Time"@.len() != "South Africa Standard Time"@.len());
        assert(t[19].0 == "W. Central Africa Standard Time"@ && "W. Central Africa Standard Time"@.len() != "South Africa Standard Time"@.len());
        assert(t[20].0 == "E. Europe Standard Time"@ && "E. Europe Standard Time"@.len() != "South Africa Standard Time"@.len());
        lemma_first_at(t, "South Africa Standard Time"@, 21);
    }
    assert(table_minutes(t, "FLE Standard Time"@) == Some(t[22].1)) by {
        reveal(time_zone_table);
        reveal_with_fuel(absent_before, 24);
        reveal_strlit("Dateline Standard Time");
        reveal_strlit("UTC-11");
        reveal_strlit("Hawaiian Standard Time");
        reveal_strlit("Alaskan Standard Time");
        reveal_strlit("Pacific Standard Time");
        reveal_strlit("US Mountain Standard Time");
        reveal_strlit("Mountain Standard Time");
        reveal_strlit("Central Standard Time");
        reveal_strlit("Eastern Standard Time");
        reveal_strlit("Atlantic Standard Time");
        reveal_strlit("Newfoundland Standard Time");
        reveal_strlit("E. South America Standard Time");
        reveal_strlit("Greenland Standard Time");
        reveal_strlit("UTC");
        reveal_strlit("GMT Standard Time");
        reveal_strlit("Greenwich Standard Time");
        reveal_strlit("W. Europe Standard Time");
        reveal_strlit("Central Europe Standard Time");
        reveal_strlit("Romance Standard Time");
        reveal_strlit("W. Central Africa Standard Time");
        reveal_strlit("E. Europe Standard Time");
        reveal_strlit("South Africa Standard Time");
        reveal_strlit("FLE Standard Time");
        assert(t[22].0 == "FLE Standard Time"@);
        assert(t[0].0 == "Dateline Standard Time"@ && "Dateline Standard Time"@.len() != "FLE Standard Time"@.len());
        assert(t[1].0 == "UTC-11"@ && "UTC-11"@.len() != "FLE Standard Time"@.len());
        assert(t[2].0 == "Hawaiian Standard Time"@ && "Hawaiian Standard Time"@.len() != "FLE Standard Time"@.len());
        assert(t[3].0 == "Alaskan Standard Time"@ && "Alaskan Standard Time"@.len() != "FLE Standard Time"@.len());
        assert(t[4].0 == "Pacific Standard Time"@ && "Pacific Standard Time"@.len() != "FLE Standard Time"@.len());
        assert(t[5].0 == "US Mountain Standard Time"@ && "US Mountain Standard Time"@.len() != "FLE Standard Time"@.len());
        assert(t[6].0 == "Mountain Standard Time"@ && "Mountain Standard Time"@.len() != "FLE Standard Time"@.len());
        assert(t[7].0 == "Central Standard Time"@ && "Central Standard Time"@.len() != "FLE Standard Time"@.len());
        assert(t[8].0 == "Eastern Standard Time"@ && "Eastern Standard Time"@.len() != "FLE Standard Time"@.len());
        assert(t[9].0 == "Atlantic Standard Time"@ && "Atlantic Standard Time"@.len() != "FLE Standard Time"@.len());
        assert(t[10].0 == "Newfoundland Standard Time"@ && "Newfoundland Standard Time"@.len() != "FLE Standard Time"@.len());
        assert(t[11].0 == "E. South America Standard Time"@ && "E. South America Standard Time"@.len() != "FLE Standard Time"@.len());
        assert(t[12].0 == "Greenland Standard Time"@ && "Greenland Standard Time"@.len() != "FLE Standard Time"@.len());
        assert(t[13].0 == "UTC"@ && "UTC"@.len() != "FLE Standard Time"@.len());
        assert(t[14].0 == "GMT Standard Time"@ && "GMT Standard Time"@[0] != "FLE Standard Time"@[0]);
        assert(t[15].0 == "Greenwich Standard Time"@ && "Greenwich Standard Time"@.len() != "FLE Standard Time"@.len());
        assert(t[16].0 == "W. Europe Standard Time"@ && "W. Europe Standard Time"@.len() != "FLE Standard Time"@.len());
        assert(t[17].0 == "Central Europe Standard Time"@ && "Central Europe Standard Time"@.len() != "FLE Standard Time"@.len());
        assert(t[18].0 == "Romance Standard Time"@ && "Romance Standard Time"@.len() != "FLE Standard Time"@.len());
        assert(t[19].0 == "W. Central Africa Standard Time"@ && "W. Central Africa Standard Time"@.len() != "FLE Standard Time"@.len());
        assert(t[20].0 == "E. Europe Standard Time"@ && "E. Europe Standard Time"@.len() != "FLE Standard Time"@.len());
        assert(t[21].0 == "South Africa Standard Time"@ && "South Africa Standard Time"@.len() != "FLE Standard Time"@.len());
        lemma_first_at(t, "FLE Standard Time"@, 22);
    }
    assert(table_minutes(t, "Israel Standard Time"@) == Some(t[23].1)) by {
        reveal(time_zone_table);
        reveal_with_fuel(absent_before, 25);
        reveal_strlit("Dateline Standard Time");
        reveal_strlit("UTC-11");
        reveal_strlit("Hawaiian Standard Time");
        reveal_strlit("Alaskan Standard Time");
        reveal_strlit("Pacific Standard Time");
        reveal_strlit("US Mountain Standard Time");
        reveal_strlit("Mountain Standard Time");
        reveal_strlit("Central Standard Time");
        reveal_strlit("Eastern Standard Time");
        reveal_strlit("Atlantic Standard Time");
        reveal_strlit("Newfoundland Standard Time");
        reveal_strlit("E. South America Standard Time");
        reveal_strlit("Greenland Standard Time");
        reveal_strlit("UTC");
        reveal_strlit("GMT Standard Time");
        reveal_strlit("Greenwich Standard Time");
        reveal_strlit("W. Europe Standard Time");
        reveal_strlit("Central Europe Standard Time");
        reveal_strlit("Romance Standard Time");
        reveal_strlit("W. Central Africa Standard Time");
        reveal_strlit("E. Europe Standard Time");
        reveal_strlit("South Africa Standard Time");
        reveal_strlit("FLE Standard Time");
        reveal_strlit("Israel Standard Time");
        assert(t[23].0 == "Israel Standard Time"@);
        assert(t[0].0 == "Dateline Standard Time"@ && "Dateline Standard Time"@.len() != "Israel Standard Time"@.len());
        assert(t[1].0 == "UTC-11"@ && "UTC-11"@.len() != "Israel Standard Time"@.len());
        assert(t[2].0 == "Hawaiian Standard Time"@ && "Hawaiian Standard Time"@.len() != "Israel Standard Time"@.len());
        assert(t[3].0 == "Alaskan Standard Time"@ && "Alaskan Standard Time"@.len() != "Israel Standard Time"@.len());
        assert(t[4].0 == "Pacific Standard Time"@ && "Pacific Standard Time"@.len() != "Israel Standard Time"@.len());
        assert(t[5].0 == "US Mountain Standard Time"@ && "US Mountain Standard Time"@.len() != "Israel Standard Time"@.len());
        assert(t[6].0 == "Mountain Standard Time"@ && "Mountain Standard Time"@.len() != "Israel Standard Time"@.len());
        assert(t[7].0 == "Central Standard Time"@ && "Central Standard Time"@.len() != "Israel Standard Time"@.len());
        assert(t[8].0 == "Eastern Standard Time"@ && "Eastern Standard Time"@.len() != "Israel Standard Time"@.len());
        assert(t[9].0 == "Atlantic Standard Time"@ && "Atlantic Standard Time"@.len() != "Israel Standard Time"@.len());
        assert(t[10].0 == "Newfoundland Standard Time"@ && "Newfoundland Standard Time"@.len() != "Israel Standard Time"@.len());
        assert(t[11].0 == "E. South America Standard Time"@ && "E. South America Standard Time"@.len() != "Israel Standard Time"@.len());
        assert(t[12].0 == "Greenland Standard Time"@ && "Greenland Standard Time"@.len() != "Israel Standard Time"@.len());
        assert(t[13].0 == "UTC"@ && "UTC"@.len() != "Israel Standard Time"@.len());
        assert(t[14].0 == "GMT Standard Time"@ && "GMT Standard Time"@.len() != "Israel Standard Time"@.len());
        assert(t[15].0 == "Greenwich Standard Time"@ && "Greenwich Standard Time"@.len() != "Israel Standard Time"@.len());
        assert(t[16].0 == "W. Europe Standard Time"@ && "W. Europe Standard Time"@.len() != "Israel Standard Time"@.len());
        assert(t[17].0 == "Central Europe Standard Time"@ && "Central Europe Standard Time"@.len() != "Israel Standard Time"@.len());
        assert(t[18].0 == "Romance Standard Time"@ && "Romance Standard Time"@.len() != "Israel Standard Time"@.len());
        assert(t[19].0 == "W. Central Africa Standard Time"@ && "W. Central Africa Standard Time"@.len() != "Israel Standard Time"@.len());
        assert(t[20].0 == "E. Europe Standard Time"@ && "E. Europe Standard Time"@.len() != "Israel Standard Time"@.len());
        assert(t[21].0 == "South Africa Standard Time"@ && "South Africa Standard Time"@.len() != "Israel Standard Time"@.len());
        assert(t[22].0 == "FLE Standard Time"@ && "FLE Standard Time"@.len() != "Israel Standard Time"@.len());
        lemma_first_at(t, "Israel Standard Time"@, 23);
    }
    assert(table_minutes(t, "Turkey Standard Time"@) == Some(t[24].1)) by {
        reveal(time_zone_table);
        reveal_with_fuel(absent_before, 26);
        reveal_strlit("Dateline Standard Time");
        reveal_strlit("UTC-11");
        reveal_strlit("Hawaiian Standard Time");
        reveal_strlit("Alaskan Standard Time");
        reveal_strlit("Pacific Standard Time");
        reveal_strlit("US Mountain Standard Time");
        reveal_strlit("Mountain Standard Time");
        reveal_strlit("Central Standard Time");
        reveal_strlit("Eastern Standard Time");
        reveal_strlit("Atlantic Standard Time");
        reveal_strlit("Newfoundland Standard Time");
        reveal_strlit("E. South America Standard Time");
        reveal_strlit("Greenland Standard Time");
        reveal_strlit("UTC");
        reveal_strlit("GMT Standard Time");
        reveal_strlit("Greenwich Standard Time");
        reveal_strlit("W. Europe Standard Time");
        reveal_strlit("Central Europe Standard Time");
        reveal_strlit("Romance Standard Time");
        reveal_strlit("W. Central Africa Standard Time");
        reveal_strlit("E. Europe Standard Time");
        reveal_strlit("South Africa Standard Time");
        reveal_strlit("FLE Standard Time");
        reveal_strlit("Israel Standard Time");
        reveal_strlit("Turkey Standard Time");
        assert(t[24].0 == "Turkey Standard Time"@);
        assert(t[0].0 == "Dateline Standard Time"@ && "Dateline Standard Time"@.len() != "Turkey Standard Time"@.len());
        assert(t[1].0 == "UTC-11"@ && "UTC-11"@.len() != "Turkey Standard Time"@.len());
        assert(t[2].0 == "Hawaiian Standard Time"@ && "Hawaiian Standard Time"@.len() != "Turkey Standard Time"@.len());
        assert(t[3].0 == "Alaskan Standard Time"@ && "Alaskan Standard Time"@.len() != "Turkey Standard Time"@.len());
        assert(t[4].0 == "Pacific Standard Time"@ && "Pacific Standard Time"@.len() != "Turkey Standard Time"@.len());
        assert(t[5].0 == "US Mountain Standard Time"@ && "US Mountain Standard Time"@.len() != "Turkey Standard Time"@.len());
        assert(t[6].0 == "Mountain Standard Time"@ && "Mountain Standard Time"@.len() != "Turkey Standard Time"@.len());
        assert(t[7].0 == "Central Standard Time"@ && "Central Standard Time"@.len() != "Turkey Standard Time"@.len());
        assert(t[8].0 == "Eastern Standard Time"@ && "Eastern Standard Time"@.len() != "Turkey Standard Time"@.len());
        assert(t[9].0 == "Atlantic Standard Time"@ && "Atlantic Standard Time"@.len() != "Turkey Standard Time"@.len());
        assert(t[10].0 == "Newfoundland Standard Time"@ && "Newfoundland Standard Time"@.len() != "Turkey Standard Time"@.len());
        assert(t[11].0 == "E. South America Standard Time"@ && "E. South America Standard Time"@.len() != "Turkey Standard Time"@.len());
        assert(t[12].0 == "Greenland Standard Time"@ && "Greenland Standard Time"@.len() != "Turkey Standard Time"@.len());
        assert(t[13].0 == "UTC"@ && "UTC"@.len() != "Turkey Standard Time"@.len());
        assert(t[14].0 == "GMT Standard Time"@ && "GMT Standard Time"@.len() != "Turkey Standard Time"@.len());
        assert(t[15].0 == "Greenwich Standard Time"@ && "Greenwich Standard Time"@.len() != "Turkey Standard Time"@.len());
        assert(t[16].0 == "W. Europe Standard Time"@ && "W. Europe Standard Time"@.len() != "Turkey Standard Time"@.len());
        assert(t[17].0 == "Central Europe Standard Time"@ && "Central Europe Standard Time"@.len() != "Turkey Standard Time"@.len());
        assert(t[18].0 == "Romance Standard Time"@ && "Romance Standard Time"@.len() != "Turkey Standard Time"@.len());
        assert(t[19].0 == "W. Central Africa Standard Time"@ && "W. Central Africa Standard Time"@.len() != "Turkey Standard Time"@.len());
        assert(t[20].0 == "E. Europe Standard Time"@ && "E. Europe Standard Time"@.len() != "Turkey Standard Time"@.len());
        assert(t[21].0 == "South Africa Standard Time"@ && "South Africa Standard Time"@.len() != "Turkey Standard Time"@.len());
        assert(t[22].0 == "FLE Standard Time"@ && "FLE Standard Time"@.len() != "Turkey Standard Time"@.len());
        assert(t[23].0 == "Israel Standard Time"@ && "Israel Standard Time"@[0] != "Turkey Standard Time"@[0]);
        lemma_first_at(t, "Turkey Standard Time"@, 24);
    }
    assert(table_minutes(t, "Russian Standard Time"@) == Some(t[25].1)) by {
        reveal(time_zone_table);
        reveal_with_fuel(absent_before, 27);
        reveal_strlit("Dateline Standard Time");
        reveal_strlit("UTC-11");
        reveal_strlit("Hawaiian Standard Time");
        reveal_strlit("Alaskan Standard Time");
        reveal_strlit("Pacific Standard Time");
        reveal_strlit("US Mountain Standard Time");
        reveal_strlit("Mountain Standard Time");
        reveal_strlit("Central Standard Time");
        reveal_strlit("Eastern Standard Time");
        reveal_strlit("Atlantic Standard Time");
        reveal_strlit("Newfoundland Standard Time");
        reveal_strlit("E. South America Standard Time");
        reveal_strlit("Greenland Standard Time");
        reveal_strlit("UTC");
        reveal_strlit("GMT Standard Time");
        reveal_strlit("Greenwich Standard Time");
        reveal_strlit("W. Europe Standard Time");
        reveal_strlit("Central Europe Standard Time");
        reveal_strlit("Romance Standard Time");
        reveal_strlit("W. Central Africa Standard Time");
        reveal_strlit("E. Europe Standard Time");
        reveal_strlit("South Africa Standard Time");
        reveal_strlit("FLE Standard Time");
        reveal_strlit("Israel Standard Time");
        reveal_strlit("Turkey Standard Time");
        reveal_strlit("Russian Standard Time");
        assert(t[25].0 == "Russian Standard Time"@);
        assert(t[0].0 == "Dateline Standard Time"@ && "Dateline Standard Time"@.len() != "Russian Standard Time"@.len());
        assert(t[1].0 == "UTC-11"@ && "UTC-11"@.len() != "Russian Standard Time"@.len());
        assert(t[2].0 == "Hawaiian Standard Time"@ && "Hawaiian Standard Time"@.len() != "Russian Standard Time"@.len());
        assert(t[3].0 == "Alaskan Standard Time"@ && "Alaskan Standard Time"@[0] != "Russian Standard Time"@[0]);
        assert(t[4].0 == "Pacific Standard Time"@ && "Pacific Standard Time"@[0] != "Russian Standard Time"@[0]);
        assert(t[5].0 == "US Mountain Standard Time"@ && "US Mountain Standard Time"@.len() != "Russian Standard Time"@.len());
        assert(t[6].0 == "Mountain Standard Time"@ && "Mountain Standard Time"@.len() != "Russian Standard Time"@.len());
        assert(t[7].0 == "Central Standard Time"@ && "Central Standard Time"@[0] != "Russian Standard Time"@[0]);
        assert(t[8].0 == "Eastern Standard Time"@ && "Eastern Standard Time"@[0] != "Russian Standard Time"@[0]);
        assert(t[9].0 == "Atlantic Standard Time"@ && "Atlantic Standard Time"@.len() != "Russian Standard Time"@.len());
        assert(t[10].0 == "Newfoundland Standard Time"@ && "Newfoundland Standard Time"@.len() != "Russian Standard Time"@.len());
        assert(t[11].0 == "E. South America Standard Time"@ && "E. South America Standard Time"@.len() != "Russian Standard Time"@.len());
        assert(t[12].0 == "Greenland Standard Time"@ && "Greenland Standard Time"@.len() != "Russian Standard Time"@.len());
        assert(t[13].0 == "UTC"@ && "UTC"@.len() != "Russian Standard Time"@.len());
        assert(t[14].0 == "GMT Standard Time"@ && "GMT Standard Time"@.len() != "Russian Standard Time"@.len());
        assert(t[15].0 == "Greenwich Standard Time"@ && "Greenwich Standard Time"@.len() != "Russian Standard Time"@.len());
        assert(t[16].0 == "W. Europe Standard Time"@ && "W. Europe Standard Time"@.len() != "Russian Standard Time"@.len());
        assert(t[17].0 == "Central Europe Standard Time"@ && "Central Europe Standard Time"@.len() != "Russian Standard Time"@.len());
        assert(t[18].0 == "Romance Standard Time"@ && "Romance Standard Time"@[1] != "Russian Standard Time"@[1]);
        assert(t[19].0 == "W. Central Africa Standard Time"@ && "W. Central Africa Standard Time"@.len() != "Russian Standard Time"@.len());
        assert(t[20].0 == "E. Europe Standard Time"@ && "E. Europe Standard Time"@.len() != "Russian Standard Time"@.len());
        assert(t[21].0 == "South Africa Standard Time"@ && "South Africa Standard Time"@.len() != "Russian Standard Time"@.len());
        assert(t[22].0 == "FLE Standard Time"@ && "FLE Standard Time"@.len() != "Russian Standard Time"@.len());
        assert(t[23].0 == "Israel Standard Time"@ && "Israel Standard Time"@.len() != "Russian Standard Time"@.len());
        assert(t[24].0 == "Turkey Standard Time"@ && "Turkey Standard Time"@.len() != "Russian Standard Time"@.len());
        lemma_first_at(t, "Russian Standard Time"@, 25);
    }
    assert(table_minutes(t, "E. Africa Standard Time"@) == Some(t[26].1)) by {
        reveal(time_zone_table);
        reveal_with_fuel(absent_before, 28);
        reveal_strlit("Dateline Standard Time");
        reveal_strlit("UTC-11");
        reveal_strlit("Hawaiian Standard Time");
        reveal_strlit("Alaskan Standard Time");
        reveal_strlit("Pacific Standard Time");
        reveal_strlit("US Mountain Standard Time");
        reveal_strlit("Mountain Standard Time");
        reveal_strlit("Central Standard Time");
        reveal_strlit("Eastern Standard Time");
        reveal_strlit("Atlantic Standard Time");
        reveal_strlit("Newfoundland Standard Time");
        reveal_strlit("E. South America Standard Time");
        reveal_strlit("Greenland Standard Time");
        reveal_strlit("UTC");
        reveal_strlit("GMT Standard Time");
        reveal_strlit("Greenwich Standard Time");
        reveal_strlit("W. Europe Standard Time");
        reveal_strlit("Central Europe Standard Time");
        reveal_strlit("Romance Standard Time");
        reveal_strlit("W. Central Africa Standard Time");
        reveal_strlit("E. Europe Standard Time");
        reveal_strlit("South Africa Standard Time");
        reveal_strlit("FLE Standard Time");
        reveal_strlit("Israel Standard Time");
        reveal_strlit("Turkey Standard Time");
        reveal_strlit("Russian Standard Time");
        reveal_strlit("E. Africa Standard Time");
        assert(t[26].0 == "E. Africa Standard Time"@);
        assert(t[0].0 == "Dateline Standard Time"@ && "Dateline Standard Time"@.len() != "E. Africa Standard Time"@.len());
        assert(t[1].0 == "UTC-11"@ && "UTC-11"@.len() != "E. Africa Standard Time"@.len());
        assert(t[2].0 == "Hawaiian Standard Time"@ && "Hawaiian Standard Time"@.len() != "E. Africa Standard Time"@.len());
        assert(t[3].0 == "Alaskan Standard Time"@ && "Alaskan Standard Time"@.len() != "E. Africa Standard Time"@.len());
        assert(t[4].0 == "Pacific Standard Time"@ && "Pacific Standard Time"@.len() != "E. Africa Standard Time"@.len());
        assert(t[5].0 == "US Mountain Standard Time"@ && "US Mountain Standard Time"@.len() != "E. Africa Standard Time"@.len());
        assert(t[6].0 == "Mountain Standard Time"@ && "Mountain Standard Time"@.len() != "E. Africa Standard Time"@.len());
        assert(t[7].0 == "Central Standard Time"@ && "Central Standard Time"@.len() != "E. Africa Standard Time"@.len());
        assert(t[8].0 == "Eastern Standard Time"@ && "Eastern Standard Time"@.len() != "E. Africa Standard Time"@.len());
        assert(t[9].0 == "Atlantic Standard Time"@ && "Atlantic Standard Time"@.len() != "E. Africa Standard Time"@.len());
        assert(t[10].0 == "Newfoundland Standard Time"@ && "Newfoundland Standard Time"@.len() != "E. Africa Standard Time"@.len());
        assert(t[11].0 == "E. South America Standard Time"@ && "E. South America Standard Time"@.len() != "E. Africa Standard Time"@.len());
        assert(t[12].0 == "Greenland Standard Time"@ && "Greenland Standard Time"@[0] != "E. Africa Standard Time"@[0]);
        assert(t[13].0 == "UTC"@ && "UTC"@.len() != "E. Africa Standard Time"@.len());
        assert(t[14].0 == "GMT Standard Time"@ && "GMT Standard Time"@.len() != "E. Africa Standard Time"@.len());
        assert(t[15].0 == "Greenwich Standard Time"@ && "Greenwich Standard Time"@[0] != "E. Africa Standard Time"@[0]);
        assert(t[16].0 == "W. Europe Standard Time"@ && "W. Europe Standard Time"@[0] != "E. Africa Standard Time"@[0]);
        assert(t[17].0 == "Central Europe Standard Time"@ && "Central Europe Standard Time"@.len() != "E. Africa Standard Time"@.len());
        assert(t[18].0 == "Romance Standard Time"@ && "Romance Standard Time"@.len() != "E. Africa Standard Time"@.len());
        assert(t[19].0 == "W. Central Africa Standard Time"@ && "W. Central Africa Standard Time"@.len() != "E. Africa Standard Time"@.len());
        assert(t[20].0 == "E. Europe Standard Time"@ && "E. Europe Standard Time"@[3] != "E. Africa Standard Time"@[3]);
        assert(t[21].0 == "South Africa Standard Time"@ && "South Africa Standard Time"@.len() != "E. Africa Standard Time"@.len());
        assert(t[22].0 == "FLE Standard Time"@ && "FLE Standard Time"@.len() != "E. Africa Standard Time"@.len());
        assert(t[23].0 == "Israel Standard Time"@ && "Israel Standard Time"@.len() != "E. Africa Standard Time"@.len());
        assert(t[24].0 == "Turkey Standard Time"@ && "Turkey Standard Time"@.len() != "E. Africa Standard Time"@.len());
        assert(t[25].0 == "Russian Standard Time"@ && "Russian Standard Time"@.len() != "E. Africa Standard Time"@.len());
        lemma_first_at(t, "E. Africa Standard Time"@, 26);
    }
    assert(table_minutes(t, "Arabian Standard Time"@) == Some(t[27].1)) by {
        reveal(time_zone_table);
        reveal_with_fuel(absent_before, 29);
        reveal_strlit("Dateline Standard Time");
        reveal_strlit("UTC-11");
        reveal_strlit("Hawaiian Standard Time");
        reveal_strlit("Alaskan Standard Time");
        reveal_strlit("Pacific Standard Time");
        reveal_strlit("US Mountain Standard Time");
        reveal_strlit("Mountain Standard Time");
        reveal_strlit("Central Standard Time");
        reveal_strlit("Eastern Standard Time");
        reveal_strlit("Atlantic Standard Time");
        reveal_strlit("Newfoundland Standard Time");
        reveal_strlit("E. South America Standard Time");
        reveal_strlit("Greenland Standard Time");
        reveal_strlit("UTC");
        reveal_strlit("GMT Standard Time");
        reveal_strlit("Greenwich Standard Time");
        reveal_strlit("W. Europe Standard Time");
        reveal_strlit("Central Europe Standard Time");
        reveal_strlit("Romance Standard Time");
        reveal_strlit("W. Central Africa Standard Time");
        reveal_strlit("E. Europe Standard Time");
        reveal_strlit("South Africa Standard Time");
        reveal_strlit("FLE Standard Time");
        reveal_strlit("Israel Standard Time");
        reveal_strlit("Turkey Standard Time");
        reveal_strlit("Russian Standard Time");
        reveal_strlit("E. Africa Standard Time");
        reveal_strlit("Arabian Standard Time");
        assert(t[27].0 == "Arabian Standard Time"@);
        assert(t[0].0 == "Dateline Standard Time"@ && "Dateline Standard Time"@.len() != "Arabian Standard Time"@.len());
        assert(t[1].0 == "UTC-11"@ && "UTC-11"@.len() != "Arabian Standard Time"@.len());
        assert(t[2].0 == "Hawaiian Standard Time"@ && "Hawaiian Standard Time"@.len() != "Arabian Standard Time"@.len());
        assert(t[3].0 == "Alaskan Standard Time"@ && "Alaskan Standard Time"@[1] != "Arabian Standard Time"@[1]);
        assert(t[4].0 == "Pacific Standard Time"@ && "Pacific Standard Time"@[0] != "Arabian Standard Time"@[0]);
        assert(t[5].0 == "US Mountain Standard Time"@ && "US Mountain Standard Time"@.len() != "Arabian Standard Time"@.len());
        assert(t[6].0 == "Mountain Standard Time"@ && "Mountain Standard Time"@.len() != "Arabian Standard Time"@.len());
        assert(t[7].0 == "Central Standard Time"@ && "Central Standard Time"@[0] != "Arabian Standard Time"@[0]);
        assert(t[8].0 == "Eastern Standard Time"@ && "Eastern Standard Time"@[0] != "Arabian Standard Time"@[0]);
        assert(t[9].0 == "Atlantic Standard Time"@ && "Atlantic Standard Time"@.len() != "Arabian Standard Time"@.len());
        assert(t[10].0 == "Newfoundland Standard Time"@ && "Newfoundland Standard Time"@.len() != "Arabian Standard Time"@.len());
        assert(t[11].0 == "E. South America Standard Time"@ && "E. South America Standard Time"@.len() != "Arabian Standard Time"@.len());
        assert(t[12].0 == "Greenland Standard Time"@ && "Greenland Standard Time"@.len() != "Arabian Standard Time"@.len());
        assert(t[13].0 == "UTC"@ && "UTC"@.len() != "Arabian Standard Time"@.len());
        assert(t[14].0 == "GMT Standard Time"@ && "GMT Standard Time"@.len() != "Arabian Standard Time"@.len());
        assert(t[15].0 == "Greenwich Standard Time"@ && "Greenwich Standard Time"@.len() != "Arabian Standard Time"@.len());
        assert(t[16].0 == "W. Europe Standard Time"@ && "W. Europe Standard Time"@.len() != "Arabian Standard Time"@.len());
        assert(t[17].0 == "Central Europe Standard Time"@ && "Central Europe Standard Time"@.len() != "Arabian Standard Time"@.len());
        assert(t[18].0 == "Romance Standard Time"@ && "Romance Standard Time"@[0] != "Arabian Standard Time"@[0]);
        assert(t[19].0 == "W. Central Africa Standard Time"@ && "W. Central Africa Standard Time"@.len() != "Arabian Standard Time"@.len());
        assert(t[20].0 == "E. Europe Standard Time"@ && "E. Europe Standard Time"@.len() != "Arabian Standard Time"@.len());
        assert(t[21].0 == "South Africa Standard Time"@ && "South Africa Standard Time"@.len() != "Arabian Standard Time"@.len());
        assert(t[22].0 == "FLE Standard Time"@ && "FLE Standard Time"@.len() != "Arabian Standard Time"@.len());
        assert(t[23].0 == "Israel Standard Time"@ && "Israel Standard Time"@.len() != "Arabian Standard Time"@.len());
        assert(t[24].0 == "Turkey Standard Time"@ && "Turkey Standard Time"@.len() != "Arabian Standard Time"@.len());
        assert(t[25].0 == "Russian Standard Time"@ && "Russian Standard Time"@[0] != "Arabian Standard Time"@[0]);
        assert(t[26].0 == "E. Africa Standard Time"@ && "E. Africa Standard Time"@.len() != "Arabian Standard Time"@.len());
        lemma_first_at(t, "Arabian Standard Time"@, 27);
    }
    assert(table_minutes(t, "Iran Standard Time"@) == Some(t[28].1)) by {
        reveal(time_zone_table);
        reveal_with_fuel(absent_before, 30);
        reveal_strlit("Dateline Standard Time");
        reveal_strlit("UTC-11");
        reveal_strlit("Hawaiian Standard Time");
        reveal_strlit("Alaskan Standard Time");
        reveal_strlit("Pacific Standard Time");
        reveal_strlit("US Mountain Standard Time");
        reveal_strlit("Mountain Standard Time");
        reveal_strlit("Central Standard Time");
        reveal_strlit("Eastern Standard Time");
        reveal_strlit("Atlantic Standard Time");
        reveal_strlit("Newfoundland Standard Time");
        reveal_strlit("E. South America Standard Time");
        reveal_strlit("Greenland Standard Time");
        reveal_strlit("UTC");
        reveal_strlit("GMT Standard Time");
        reveal_strlit("Greenwich Standard Time");
        reveal_strlit("W. Europe Standard Time");
        reveal_strlit("Central Europe Standard Time");
        reveal_strlit("Romance Standard Time");
        reveal_strlit("W. Central Africa Standard Time");
        reveal_strlit("E. Europe Standard Time");
        reveal_strlit("South Africa Standard Time");
        reveal_strlit("FLE Standard Time");
        reveal_strlit("Israel Standard Time");
        reveal_strlit("Turkey Standard Time");
        reveal_strlit("Russian Standard Time");
        reveal_strlit("E. Africa Standard Time");
        reveal_strlit("Arabian Standard Time");
        reveal_strlit("Iran Standard Time");
        assert(t[28].0 == "Iran Standard Time"@);
        assert(t[0].0 == "Dateline Standard Time"@ && "Dateline Standard Time"@.len() != "Iran Standard Time"@.len());
        assert(t[1].0 == "UTC-11"@ && "UTC-11"@.len() != "Iran Standard Time"@.len());
        assert(t[2].0 == "Hawaiian Standard Time"@ && "Hawaiian Standard Time"@.len() != "Iran Standard Time"@.len());
        assert(t[3].0 == "Alaskan Standard Time"@ && "Alaskan Standard Time"@.len() != "Iran Standard Time"@.len());
        assert(t[4].0 == "Pacific Standard Time"@ && "Pacific Standard Time"@.len() != "Iran Standard Time"@.len());
        assert(t[5].0 == "US Mountain Standard Time"@ && "US Mountain Standard Time"@.len() != "Iran Standard Time"@.len());
        assert(t[6].0 == "Mountain Standard Time"@ && "Mountain Standard Time"@.len() != "Iran Standard Time"@.len());
        assert(t[7].0 == "Central Standard Time"@ && "Central Standard Time"@.len() != "Iran Standard Time"@.len());
        assert(t[8].0 == "Eastern Standard Time"@ && "Eastern Standard Time"@.len() != "Iran Standard Time"@.len());
        assert(t[9].0 == "Atlantic Standard Time"@ && "Atlantic Standard Time"@.len() != "Iran Standard Time"@.len());
        assert(t[10].0 == "Newfoundland Standard Time"@ && "Newfoundland Standard Time"@.len() != "Iran Standard Time"@.len());
        assert(t[11].0 == "E. South America Standard Time"@ && "E. South America Standard Time"@.len() != "Iran Standard Time"@.len());
        assert(t[12].0 == "Greenland Standard Time"@ && "Greenland Standard Time"@.len() != "Iran Standard Time"@.len());
        assert(t[13].0 == "UTC"@ && "UTC"@.len() != "Iran Standard Time"@.len());
        assert(t[14].0 == "GMT Standard Time"@ && "GMT Standard Time"@.len() != "Iran Standard Time"@.len());
        assert(t[15].0 == "Greenwich Standard Time"@ && "Greenwich Standard Time"@.len() != "Iran Standard Time"@.len());
        assert(t[16].0 == "W. Europe Standard Time"@ && "W. Europe Standard Time"@.len() != "Iran Standard Time"@.len());
        assert(t[17].0 == "Central Europe Standard Time"@ && "Central Europe Standard Time"@.len() != "Iran Standard Time"@.len());
        assert(t[18].0 == "Romance Standard Time"@ && "Romance Standard Time"@.len() != "Iran Standard Time"@.len());
        assert(t[19].0 == "W. Central Africa Standard Time"@ && "W. Central Africa Standard Time"@.len() != "Iran Standard Time"@.len());
        assert(t[20].0 == "E. Europe Standard Time"@ && "E. Europe Standard Time"@.len() != "Iran Standard Time"@.len());
        assert(t[21].0 == "South Africa Standard Time"@ && "South Africa Standard Time"@.len() != "Iran Standard Time"@.len());
        assert(t[22].0 == "FLE Standard Time"@ && "FLE Standard Time"@.len() != "Iran Standard Time"@.len());
        assert(t[23].0 == "Israel Standard Time"@ && "Israel Standard Time"@.len() != "Iran Standard Time"@.len());
        assert(t[24].0 == "Turkey Standard Time"@ && "Turkey Standard Time"@.len() != "Iran Standard Time"@.len());
        assert(t[25].0 == "Russian Standard Time"@ && "Russian Standard Time"@.len() != "Iran Standard Time"@.len());
        assert(t[26].0 == "E. Africa Standard Time"@ && "E. Africa Standard Time"@.len() != "Iran Standard Time"@.len());
        assert(t[27].0 == "Arabian Standard Time"@ && "Arabian Standard Time"@.len() != "Iran Standard Time"@.len());
        lemma_first_at(t, "Iran Standard Time"@, 28);
    }
    assert(table_minutes(t, "Afghanistan Standard Time"@) == Some(t[29].1)) by {
        reveal(time_zone_table);
        reveal_with_fuel(absent_before, 31);
        reveal_strlit("Dateline Standard Time");
        reveal_strlit("UTC-11");
        reveal_strlit("Hawaiian Standard Time");
        reveal_strlit("Alaskan Standard Time");
        reveal_strlit("Pacific Standard Time");
        reveal_strlit("US Mountain Standard Time");
        reveal_strlit("Mountain Standard Time");
        reveal_strlit("Central Standard Time");
        reveal_strlit("Eastern Standard Time");
        reveal_strlit("Atlantic Standard Time");
        reveal_strlit("Newfoundland Standard Time");
        reveal_strlit("E. South America Standard Time");
        reveal_strlit("Greenland Standard Time");
        reveal_strlit("UTC");
        reveal_strlit("GMT Standard Time");
        reveal_strlit("Greenwich Standard Time");
        reveal_strlit("W. Europe Standard Time");
        reveal_strlit("Central Europe Standard Time");
        reveal_strlit("Romance Standard Time");
        reveal_strlit("W. Central Africa Standard Time");
        reveal_strlit("E. Europe Standard Time");
        reveal_strlit("South Africa Standard Time");
        reveal_strlit("FLE Standard Time");
        reveal_strlit("Israel Standard Time");
        reveal_strlit("Turkey Standard Time");
        reveal_strlit("Russian Standard Time");
        reveal_strlit("E. Africa Standard Time");
        reveal_strlit("Arabian Standard Time");
        reveal_strlit("Iran Standard Time");
        reveal_strlit("Afghanistan Standard Time");
        assert(t[29].0 == "Afghanistan Standard Time"@);
        assert(t[0].0 == "Dateline Standard Time"@ && "Dateline Standard Time"@.len() != "Afghanistan Standard Time"@.len());
        assert(t[1].0 == "UTC-11"@ && "UTC-11"@.len() != "Afghanistan Standard Time"@.len());
        assert(t[2].0 == "Hawaiian Standard Time"@ && "Hawaiian Standard Time"@.len() != "Afghanistan Standard Time"@.len());
        assert(t[3].0 == "Alaskan Standard Time"@ && "Alaskan Standard Time"@.len() != "Afghanistan Standard Time"@.len());
        assert(t[4].0 == "Pacific Standard Time"@ && "Pacific Standard Time"@.len() != "Afghanistan Standard Time"@.len());
        assert(t[5].0 == "US Mountain Standard Time"@ && "US Mountain Standard Time"@[0] != "Afghanistan Standard Time"@[0]);
        assert(t[6].0 == "Mountain Standard Time"@ && "Mountain Standard Time"@.len() != "Afghanistan Standard Time"@.len());
        assert(t[7].0 == "Central Standard Time"@ && "Central Standard Time"@.len() != "Afghanistan Standard Time"@.len());
        assert(t[8].0 == "Eastern Standard Time"@ && "Eastern Standard Time"@.len() != "Afghanistan Standard Time"@.len());
        assert(t[9].0 == "Atlantic Standard Time"@ && "Atlantic Standard Time"@.len() != "Afghanistan Standard Time"@.len());
        assert(t[10].0 == "Newfoundland Standard Time"@ && "Newfoundland Standard Time"@.len() != "Afghanistan Standard Time"@.len());
        assert(t[11].0 == "E. South America Standard Time"@ && "E. South America Standard Time"@.len() != "Afghanistan Standard Time"@.len());
        assert(t[12].0 == "Greenland Standard Time"@ && "Greenland Standard Time"@.len() != "Afghanistan Standard Time"@.len());
        assert(t[13].0 == "UTC"@ && "UTC"@.len() != "Afghanistan Standard Time"@.len());
        assert(t[14].0 == "GMT Standard Time"@ && "GMT Standard Time"@.len() != "Afghanistan Standard Time"@.len());
        assert(t[15].0 == "Greenwich Standard Time"@ && "Greenwich Standard Time"@.len() != "Afghanistan Standard Time"@.len());
        assert(t[16].0 == "W. Europe Standard Time"@ && "W. Europe Standard Time"@.len() != "Afghanistan Standard Time"@.len());
        assert(t[17].0 == "Central Europe Standard Time"@ && "Central Europe Standard Time"@.len() != "Afghanistan Standard Time"@.len());
        assert(t[18].0 == "Romance Standard Time"@ && "Romance Standard Time"@.len() != "Afghanistan Standard Time"@.len());
        assert(t[19].0 == "W. Central Africa Standard Time"@ && "W. Central Africa Standard Time"@.len() != "Afghanistan Standard Time"@.len());
        assert(t[20].0 == "E. Europe Standard Time"@ && "E. Europe Standard Time"@.len() != "Afghanistan Standard Time"@.len());
        assert(t[21].0 == "South Africa Standard Time"@ && "South Africa Standard Time"@.len() != "Afghanistan Standard Time"@.len());
        assert(t[22].0 == "FLE Standard Time"@ && "FLE Standard Time"@.len() != "Afghanistan Standard Time"@.len());
        assert(t[23].0 == "Israel Standard Time"@ && "Israel Standard Time"@.len() != "Afghanistan Standard Time"@.len());
        assert(t[24].0 == "Turkey Standard Time"@ && "Turkey Standard Time"@.len() != "Afghanistan Standard Time"@.len());
        assert(t[25].0 == "Russian Standard Time"@ && "Russian Standard Time"@.len() != "Afghanistan Standard Time"@.len());
        assert(t[26].0 == "E. Africa Standard Time"@ && "E. Africa Standard Time"@.len() != "Afghanistan Standard Time"@.len());
        assert(t[27].0 == "Arabian Standard Time"@ && "Arabian Standard Time"@.len() != "Afghanistan Standard Time"@.len());
        assert(t[28].0 == "Iran Standard Time"@ && "Iran Standard Time"@.len() != "Afghanistan Standard Time"@.len());
        lemma_first_at(t, "Afghanistan Standard Time"@, 29);
    }
    assert(table_minutes(t, "Pakistan Standard Time"@) == Some(t[30].1)) by {
        reveal(time_zone_table);
        reveal_with_fuel(absent_before, 32);
        reveal_strlit("Dateline Standard Time");
        reveal_strlit("UTC-11");
        reveal_strlit("Hawaiian Standard Time");
        reveal_strlit("Alaskan Standard Time");
        reveal_strlit("Pacific Standard Time");
        reveal_strlit("US Mountain Standard Time");
        reveal_strlit("Mountain Standard Time");
        reveal_strlit("Central Standard Time");
        reveal_strlit("Eastern Standard Time");
        reveal_strlit("Atlantic Standard Time");
        reveal_strlit("Newfoundland Standard Time");
        reveal_strlit("E. South America Standard Time");
        reveal_strlit("Greenland Standard Time");
        reveal_strlit("UTC");
        reveal_strlit("GMT Standard Time");
        reveal_strlit("Greenwich Standard Time");
        reveal_strlit("W. Europe Standard Time");
        reveal_strlit("Central Europe Standard Time");
        reveal_strlit("Romance Standard Time");
        reveal_strlit("W. Central Africa Standard Time");
        reveal_strlit("E. Europe Standard Time");
        reveal_strlit("South Africa Standard Time");
        reveal_strlit("FLE Standard Time");
        reveal_strlit("Israel Standard Time");
        reveal_strlit("Turkey Standard Time");
        reveal_strlit("Russian Standard Time");
        reveal_strlit("E. Africa Standard Time");
        reveal_strlit("Arabian Standard Time");
        reveal_strlit("Iran Standard Time");
        reveal_strlit("Afghanistan Standard Time");
        reveal_strlit("Pakistan Standard Time");
        assert(t[30].0 == "Pakistan Standard Time"@);
        assert(t[0].0 == "Dateline Standard Time"@ && "Dateline Standard Time"@[0] != "Pakistan Standard Time"@[0]);
        assert(t[1].0 == "UTC-11"@ && "UTC-11"@.len() != "Pakistan Standard Time"@.len());
        assert(t[2].0 == "Hawaiian Standard Time"@ && "Hawaiian Standard Time"@[0] != "Pakistan Standard Time"@[0]);
        assert(t[3].0 == "Alaskan Standard Time"@ && "Alaskan Standard Time"@.len() != "Pakistan Standard Time"@.len());
        assert(t[4].0 == "Pacific Standard Time"@ && "Pacific Standard Time"@.len() != "Pakistan Standard Time"@.len());
        assert(t[5].0 == "US Mountain Standard Time"@ && "US Mountain Standard Time"@.len() != "Pakistan Standard Time"@.len());
        assert(t[6].0 == "Mountain Standard Time"@ && "Mountain Standard Time"@[0] != "Pakistan Standard Time"@[0]);
        assert(t[7].0 == "Central Standard Time"@ && "Central Standard Time"@.len() != "Pakistan Standard Time"@.len());
        assert(t[8].0 == "Eastern Standard Time"@ && "Eastern Standard Time"@.len() != "Pakistan Standard Time"@.len());
        assert(t[9].0 == "Atlantic Standard Time"@ && "Atlantic Standard Time"@[0] != "Pakistan Standard Time"@[0]);
        assert(t[10].0 == "Newfoundland Standard Time"@ && "Newfoundland Standard Time"@.len() != "Pakistan Standard Time"@.len());
        assert(t[11].0 == "E. South America Standard Time"@ && "E. South America Standard Time"@.len() != "Pakistan Standard Time"@.len());
        assert(t[12].0 == "Greenland Standard Time"@ && "Greenland Standard Time"@.len() != "Pakistan Standard Time"@.len());
        assert(t[13].0 == "UTC"@ && "UTC"@.len() != "Pakistan Standard Time"@.len());
        assert(t[14].0 == "GMT Standard Time"@ && "GMT Standard Time"@.len() != "Pakistan Standard Time"@.len());
        assert(t[15].0 == "Greenwich Standard Time"@ && "Greenwich Standard Time"@.len() != "Pakistan Standard Time"@.len());
        assert(t[16].0 == "W. Europe Standard Time"@ && "W. Europe Standard Time"@.len() != "Pakistan Standard Time"@.len());
        assert(t[17].0 == "Central Europe Standard Time"@ && "Central Europe Standard Time"@.len() != "Pakistan Standard Time"@.len());
        assert(t[18].0 == "Romance Standard Time"@ && "Romance Standard Time"@.len() != "Pakistan Standard Time"@.len());
        assert(t[19].0 == "W. Central Africa Standard Time"@ && "W. Central Africa Standard Time"@.len() != "Pakistan Standard Time"@.len());
        assert(t[20].0 == "E. Europe Standard Time"@ && "E. Europe Standard Time"@.len() != "Pakistan Standard Time"@.len());
        assert(t[21].0 == "South Africa Standard Time"@ && "South Africa Standard Time"@.len() != "Pakistan Standard Time"@.len());
        assert(t[22].0 == "FLE Standard Time"@ && "FLE Standard Time"@.len() != "Pakistan Standard Time"@.len());
        assert(t[23].0 == "Israel Standard Time"@ && "Israel Standard Time"@.len() != "Pakistan Standard Time"@.len());
        assert(t[24].0 == "Turkey Standard Time"@ && "Turkey Standard Time"@.len() != "Pakistan Standard Time"@.len());
        assert(t[25].0 == "Russian Standard Time"@ && "Russian Standard Time"@.len() != "Pakistan Standard Time"@.len());
        assert(t[26].0 == "E. Africa Standard Time"@ && "E. Africa Standard Time"@.len() != "Pakistan Standard Time"@.len());
        assert(t[27].0 == "Arabian Standard Time"@ && "Arabian Standard Time"@.len() != "Pakistan Standard Time"@.len());
        assert(t[28].0 == "Iran Standard Time"@ && "Iran Standard Time"@.len() != "Pakistan Standard Time"@.len());
        assert(t[29].0 == "Afghanistan Standard Time"@ && "Afghanistan Standard Time"@.len() != "Pakistan Standard Time"@.len());
        lemma_first_at(t, "Pakistan Standard Time"@, 30);
    }
    assert(table_minutes(t, "India Standard Time"@) == Some(t[31].1)) by {
        reveal(time_zone_table);
        reveal_with_fuel(absent_before, 33);
        reveal_strlit("Dateline Standard Time");
        reveal_strlit("UTC-11");
        reveal_strlit("Hawaiian Standard Time");
        reveal_strlit("Alaskan Standard Time");
        reveal_strlit("Pacific Standard Time");
        reveal_strlit("US Mountain Standard Time");
        reveal_strlit("Mountain Standard Time");
        reveal_strlit("Central Standard Time");
        reveal_strlit("Eastern Standard Time");
        reveal_strlit("Atlantic Standard Time");
        reveal_strlit("Newfoundland Standard Time");
        reveal_strlit("E. South America Standard Time");
        reveal_strlit("Greenland Standard Time");
        reveal_strlit("UTC");
        reveal_strlit("GMT Standard Time");
        reveal_strlit("Greenwich Standard Time");
        reveal_strlit("W. Europe Standard Time");
        reveal_strlit("Central Europe Standard Time");
        reveal_strlit("Romance Standard Time");
        reveal_strlit("W. Central Africa Standard Time");
        reveal_strlit("E. Europe Standard Time");
        reveal_strlit("South Africa Standard Time");
        reveal_strlit("FLE Standard Time");
        reveal_strlit("Israel Standard Time");
        reveal_strlit("Turkey Standard Time");
        reveal_strlit("Russian Standard Time");
        reveal_strlit("E. Africa Standard Time");
        reveal_strlit("Arabian Standard Time");
        reveal_strlit("Iran Standard Time");
        reveal_strlit("Afghanistan Standard Time");
        reveal_strlit("Pakistan Standard Time");
        reveal_strlit("India Standard Time");
        assert(t[31].0 == "India Standard Time"@);
        assert(t[0].0 == "Dateline Standard Time"@ && "Dateline Standard Time"@.len() != "India Standard Time"@.len());
        assert(t[1].0 == "UTC-11"@ && "UTC-11"@.len() != "India Standard Time"@.len());
        assert(t[2].0 == "Hawaiian Standard Time"@ && "Hawaiian Standard Time"@.len() != "India Standard Time"@.len());
        assert(t[3].0 == "Alaskan Standard Time"@ && "Alaskan Standard Time"@.len() != "India Standard Time"@.len());
        assert(t[4].0 == "Pacific Standard Time"@ && "Pacific Standard Time"@.len() != "India Standard Time"@.len());
        assert(t[5].0 == "US Mountain Standard Time"@ && "US Mountain Standard Time"@.len() != "India Standard Time"@.len());
        assert(t[6].0 == "Mountain Standard Time"@ && "Mountain Standard Time"@.len() != "India Standard Time"@.len());
        assert(t[7].0 == "Central Standard Time"@ && "Central Standard Time"@.len() != "India Standard Time"@.len());
        assert(t[8].0 == "Eastern Standard Time"@ && "Eastern Standard Time"@.len() != "India Standard Time"@.len());
        assert(t[9].0 == "Atlantic Standard Time"@ && "Atlantic Standard Time"@.len() != "India Standard Time"@.len());
        assert(t[10].0 == "Newfoundland Standard Time"@ && "Newfoundland Standard Time"@.len() != "India Standard Time"@.len());
        assert(t[11].0 == "E. South America Standard Time"@ && "E. South America Standard Time"@.len() != "India Standard Time"@.len());
        assert(t[12].0 == "Greenland Standard Time"@ && "Greenland Standard Time"@.len() != "India Standard Time"@.len());
        assert(t[13].0 == "UTC"@ && "UTC"@.len() != "India Standard Time"@.len());
        assert(t[14].0 == "GMT Standard Time"@ && "GMT Standard Time"@.len() != "India Standard Time"@.len());
        assert(t[15].0 == "Greenwich Standard Time"@ && "Greenwich Standard Time"@.len() != "India Standard Time"@.len());
        assert(t[16].0 == "W. Europe Standard Time"@ && "W. Europe Standard Time"@.len() != "India Standard Time"@.len());
        assert(t[17].0 == "Central Europe Standard Time"@ && "Central Europe Standard Time"@.len() != "India Standard Time"@.len());
        assert(t[18].0 == "Romance Standard Time"@ && "Romance Standard Time"@.len() != "India Standard Time"@.len());
        assert(t[19].0 == "W. Central Africa Standard Time"@ && "W. Central Africa Standard Time"@.len() != "India Standard Time"@.len());
        assert(t[20].0 == "E. Europe Standard Time"@ && "E. Europe Standard Time"@.len() != "India Standard Time"@.len());
        assert(t[21].0 == "South Africa Standard Time"@ && "South Africa Standard Time"@.len() != "India Standard Time"@.len());
        assert(t[22].0 == "FLE Standard Time"@ && "FLE Standard Time"@.len() != "India Standard Time"@.len());
        assert(t[23].0 == "Israel Standard Time"@ && "Israel Standard Time"@.len() != "India Standard Time"@.len());
        assert(t[24].0 == "Turkey Standard Time"@ && "Turkey Standard Time"@.len() != "India Standard Time"@.len());
        assert(t[25].0 == "Russian Standard Time"@ && "Russian Standard Time"@.len() != "India Standard Time"@.len());
        assert(t[26].0 == "E. Africa Standard Time"@ && "E. Africa Standard Time"@.len() != "India Standard Time"@.len());
        assert(t[27].0 == "Arabian Standard Time"@ && "Arabian Standard Time"@.len() != "India Standard Time"@.len());
        assert(t[28].0 == "Iran Standard Time"@ && "Iran Standard Time"@.len() != "India Standard Time"@.len());
        assert(t[29].0 == "Afghanistan Standard Time"@ && "Afghanistan Standard Time"@.len() != "India Standard Time"@.len());
        assert(t[30].0 == "Pakistan Standard Time"@ && "Pakistan Standard Time"@.len() != "India Standard Time"@.len());
        lemma_first_at(t, "India Standard Time"@, 31);
    }
    assert(table_minutes(t, "Bangladesh Standard Time"@) == Some(t[32].1)) by {
        reveal(time_zone_table);
        reveal_with_fuel(absent_before, 34);
        reveal_strlit("Dateline Standard Time");
        reveal_strlit("UTC-11");
        reveal_strlit("Hawaiian Standard Time");
        reveal_strlit("Alaskan Standard Time");
        reveal_strlit("Pacific Standard Time");
        reveal_strlit("US Mountain Standard Time");
        reveal_strlit("Mountain Standard Time");
        reveal_strlit("Central Standard Time");
        reveal_strlit("Eastern Standard Time");
        reveal_strlit("Atlantic Standard Time");
        reveal_strlit("Newfoundland Standard Time");
        reveal_strlit("E. South America Standard Time");
        reveal_strlit("Greenland Standard Time");
        reveal_strlit("UTC");
        reveal_strlit("GMT Standard Time");
        reveal_strlit("Greenwich Standard Time");
        reveal_strlit("W. Europe Standard Time");
        reveal_strlit("Central Europe Standard Time");
        reveal_strlit("Romance Standard Time");
        reveal_strlit("W. Central Africa Standard Time");
        reveal_strlit("E. Europe Standard Time");
        reveal_strlit("South Africa Standard Time");
        reveal_strlit("FLE Standard Time");
        reveal_strlit("Israel Standard Time");
        reveal_strlit("Turkey Standard Time");
        reveal_strlit("Russian Standard Time");
        reveal_strlit("E. Africa Standard Time");
        reveal_strlit("Arabian Standard Time");
        reveal_strlit("Iran Standard Time");
        reveal_strlit("Afghanistan Standard Time");
        reveal_strlit("Pakistan Standard Time");
        reveal_strlit("India Standard Time");
        reveal_strlit("Bangladesh Standard Time");
        assert(t[32].0 == "Bangladesh Standard Time"@);
        assert(t[0].0 == "Dateline Standard Time"@ && "Dateline Standard Time"@.len() != "Bangladesh Standard Time"@.len());
        assert(t[1].0 == "UTC-11"@ && "UTC-11"@.len() != "Bangladesh Standard Time"@.len());
        assert(t[2].0 == "Hawaiian Standard Time"@ && "Hawaiian Standard Time"@.len() != "Bangladesh Standard Time"@.len());
        assert(t[3].0 == "Alaskan Standard Time"@ && "Alaskan Standard Time"@.len() != "Bangladesh Standard Time"@.len());
        assert(t[4].0 == "Pacific Standard Time"@ && "Pacific Standard Time"@.len() != "Bangladesh Standard Time"@.len());
        assert(t[5].0 == "US Mountain Standard Time"@ && "US Mountain Standard Time"@.len() != "Bangladesh Standard Time"@.len());
        assert(t[6].0 == "Mountain Standard Time"@ && "Mountain Standard Time"@.len() != "Bangladesh Standard Time"@.len());
        assert(t[7].0 == "Central Standard Time"@ && "Central Standard Time"@.len() != "Bangladesh Standard Time"@.len());
        assert(t[8].0 == "Eastern Standard Time"@ && "Eastern Standard Time"@.len() != "Bangladesh Standard Time"@.len());
        assert(t[9].0 == "Atlantic Standard Time"@ && "Atlantic Standard Time"@.len() != "Bangladesh Standard Time"@.len());
        assert(t[10].0 == "Newfoundland Standard Time"@ && "Newfoundland Standard Time"@.len() != "Bangladesh Standard Time"@.len());
        assert(t[11].0 == "E. South America Standard Time"@ && "E. South America Standard Time"@.len() != "Bangladesh Standard Time"@.len());
        assert(t[12].0 == "Greenland Standard Time"@ && "Greenland Standard Time"@.len() != "Bangladesh Standard Time"@.len());
        assert(t[13].0 == "UTC"@ && "UTC"@.len() != "Bangladesh Standard Time"@.len());
        assert(t[14].0 == "GMT Standard Time"@ && "GMT Standard Time"@.len() != "Bangladesh Standard Time"@.len());
        assert(t[15].0 == "Greenwich Standard Time"@ && "Greenwich Standard Time"@.len() != "Bangladesh Standard Time"@.len());
        assert(t[16].0 == "W. Europe Standard Time"@ && "W. Europe Standard Time"@.len() != "Bangladesh Standard Time"@.len());
        assert(t[17].0 == "Central Europe Standard Time"@ && "Central Europe Standard Time"@.len() != "Bangladesh Standard Time"@.len());
        assert(t[18].0 == "Romance Standard Time"@ && "Romance Standard Time"@.len() != "Bangladesh Standard Time"@.len());
        assert(t[19].0 == "W. Central Africa Standard Time"@ && "W. Central Africa Standard Time"@.len() != "Bangladesh Standard Time"@.len());
        assert(t[20].0 == "E. Europe Standard Time"@ && "E. Europe Standard Time"@.len() != "Bangladesh Standard Time"@.len());
        assert(t[21].0 == "South Africa Standard Time"@ && "South Africa Standard Time"@.len() != "Bangladesh Standard Time"@.len());
        assert(t[22].0 == "FLE Standard Time"@ && "FLE Standard Time"@.len() != "Bangladesh Standard Time"@.len());
        assert(t[23].0 == "Israel Standard Time"@ && "Israel Standard Time"@.len() != "Bangladesh Standard Time"@.len());
        assert(t[24].0 == "Turkey Standard Time"@ && "Turkey Standard Time"@.len() != "Bangladesh Standard Time"@.len());
        assert(t[25].0 == "Russian Standard Time"@ && "Russian Standard Time"@.len() != "Bangladesh Standard Time"@.len());
        assert(t[26].0 == "E. Africa Standard Time"@ && "E. Africa Standard Time"@.len() != "Bangladesh Standard Time"@.len());
        assert(t[27].0 == "Arabian Standard Time"@ && "Arabian Standard Time"@.len() != "Bangladesh Standard Time"@.len());
        assert(t[28].0 == "Iran Standard Time"@ && "Iran Standard Time"@.len() != "Bangladesh Standard Time"@.len());
        assert(t[29].0 == "Afghanistan Standard Time"@ && "Afghanistan Standard Time"@.len() != "Bangladesh Standard Time"@.len());
        assert(t[30].0 == "Pakistan Standard Time"@ && "Pakistan Standard Time"@.len() != "Bangladesh Standard Time"@.len());
        assert(t[31].0 == "India Standard Time"@ && "India Standard Time"@.len() != "Bangladesh Standard Time"@.len());
        lemma_first_at(t, "Bangladesh Standard Time"@, 32);
    }
    assert(table_minutes(t, "SE Asia Standard Time"@) == Some(t[33].1)) by {
        reveal(time_zone_table);
        reveal_with_fuel(absent_before, 35);
        reveal_strlit("Dateline Standard Time");
        reveal_strlit("UTC-11");
        reveal_strlit("Hawaiian Standard Time");
        reveal_strlit("Alaskan Standard Time");
        reveal_strlit("Pacific Standard Time");
        reveal_strlit("US Mountain Standard Time");
        reveal_strlit("Mountain Standard Time");
        reveal_strlit("Central Standard Time");
        reveal_strlit("Eastern Standard Time");
        reveal_strlit("Atlantic Standard Time");
        reveal_strlit("Newfoundland Standard Time");
        reveal_strlit("E. South America Standard Time");
        reveal_strlit("Greenland Standard Time");
        reveal_strlit("UTC");
        reveal_strlit("GMT Standard Time");
        reveal_strlit("Greenwich Standard Time");
        reveal_strlit("W. Europe Standard Time");
        reveal_strlit("Central Europe Standard Time");
        reveal_strlit("Romance Standard Time");
        reveal_strlit("W. Central Africa Standard Time");
        reveal_strlit("E. Europe Standard Time");
        reveal_strlit("South Africa Standard Time");
        reveal_strlit("FLE Standard Time");
        reveal_strlit("Israel Standard Time");
        reveal_strlit("Turkey Standard Time");
        reveal_strlit("Russian Standard Time");
        reveal_strlit("E. Africa Standard Time");
        reveal_strlit("Arabian Standard Time");
        reveal_strlit("Iran Standard Time");
        reveal_strlit("Afghanistan Standard Time");
        reveal_strlit("Pakistan Standard Time");
        reveal_strlit("India Standard Time");
        reveal_strlit("Bangladesh Standard Time");
        reveal_strlit("SE Asia Standard Time");
        assert(t[33].0 == "SE Asia Standard Time"@);
        assert(t[0].0 == "Dateline Standard Time"@ && "Dateline Standard Time"@.len() != "SE Asia Standard Time"@.len());
        assert(t[1].0 == "UTC-11"@ && "UTC-11"@.len() != "SE Asia Standard Time"@.len());
        assert(t[2].0 == "Hawaiian Standard Time"@ && "Hawaiian Standard Time"@.len() != "SE Asia Standard Time"@.len());
        assert(t[3].0 == "Alaskan Standard Time"@ && "Alaskan Standard Time"@[0] != "SE Asia Standard Time"@[0]);
        assert(t[4].0 == "Pacific Standard Time"@ && "Pacific Standard Time"@[0] != "SE Asia Standard Time"@[0]);
        assert(t[5].0 == "US Mountain Standard Time"@ && "US Mountain Standard Time"@.len() != "SE Asia Standard Time"@.len());
        assert(t[6].0 == "Mountain Standard Time"@ && "Mountain Standard Time"@.len() != "SE Asia Standard Time"@.len());
        assert(t[7].0 == "Central Standard Time"@ && "Central Standard Time"@[0] != "SE Asia Standard Time"@[0]);
        assert(t[8].0 == "Eastern Standard Time"@ && "Eastern Standard Time"@[0] != "SE Asia Standard Time"@[0]);
        assert(t[9].0 == "Atlantic Standard Time"@ && "Atlantic Standard Time"@.len() != "SE Asia Standard Time"@.len());
        assert(t[10].0 == "Newfoundland Standard Time"@ && "Newfoundland Standard Time"@.len() != "SE Asia Standard Time"@.len());
        assert(t[11].0 == "E. South America Standard Time"@ && "E. South America Standard Time"@.len() != "SE Asia Standard Time"@.len());
        assert(t[12].0 == "Greenland Standard Time"@ && "Greenland Standard Time"@.len() != "SE Asia Standard Time"@.len());
        assert(t[13].0 == "UTC"@ && "UTC"@.len() != "SE Asia Standard Time"@.len());
        assert(t[14].0 == "GMT Standard Time"@ && "GMT Standard Time"@.len() != "SE Asia Standard Time"@.len());
        assert(t[15].0 == "Greenwich Standard Time"@ && "Greenwich Standard Time"@.len() != "SE Asia Standard Time"@.len());
        assert(t[16].0 == "W. Europe Standard Time"@ && "W. Europe Standard Time"@.len() != "SE Asia Standard Time"@.len());
        assert(t[17].0 == "Central Europe Standard Time"@ && "Central Europe Standard Time"@.len() != "SE Asia Standard Time"@.len());
        assert(t[18].0 == "Romance Standard Time"@ && "Romance Standard Time"@[0] != "SE Asia Standard Time"@[0]);
        assert(t[19].0 == "W. Central Africa Standard Time"@ && "W. Central Africa Standard Time"@.len() != "SE Asia Standard Time"@.len());
        assert(t[20].0 == "E. Europe Standard Time"@ && "E. Europe Standard Time"@.len() != "SE Asia Standard Time"@.len());
        assert(t[21].0 == "South Africa Standard Time"@ && "South Africa Standard Time"@.len() != "SE Asia Standard Time"@.len());
        assert(t[22].0 == "FLE Standard Time"@ && "FLE Standard Time"@.len() != "SE Asia Standard Time"@.len());
        assert(t[23].0 == "Israel Standard Time"@ && "Israel Standard Time"@.len() != "SE Asia Standard Time"@.len());
        assert(t[24].0 == "Turkey Standard Time"@ && "Turkey Standard Time"@.len() != "SE Asia Standard Time"@.len());
        assert(t[25].0 == "Russian Standard Time"@ && "Russian Standard Time"@[0] != "SE Asia Standard Time"@[0]);
        assert(t[26].0 == "E. Africa Standard Time"@ && "E. Africa Standard Time"@.len() != "SE Asia Standard Time"@.len());
        assert(t[27].0 == "Arabian Standard Time"@ && "Arabian Standard Time"@[0] != "SE Asia Standard Time"@[0]);
        assert(t[28].0 == "Iran Standard Time"@ && "Iran Standard Time"@.len() != "SE Asia Standard Time"@.len());
        assert(t[29].0 == "Afghanistan Standard Time"@ && "Afghanistan Standard Time"@.len() != "SE Asia Standard Time"@.len());
        assert(t[30].0 == "Pakistan Standard Time"@ && "Pakistan Standard Time"@.len() != "SE Asia Standard Time"@.len());
        assert(t[31].0 == "India Standard Time"@ && "India Standard Time"@.len() != "SE Asia Standard Time"@.len());
        assert(t[32].0 == "Bangladesh Standard Time"@ && "Bangladesh Standard Time"@.len() != "SE Asia Standard Time"@.len());
        lemma_first_at(t, "SE Asia Standard Time"@, 33);
    }
    assert(table_minutes(t, "China Standard Time"@) == Some(t[34].1)) by {
        reveal(time_zone_table);
        reveal_with_fuel(absent_before, 36);
        reveal_strlit("Dateline Standard Time");
        reveal_strlit("UTC-11");
        reveal_strlit("Hawaiian Standard Time");
        reveal_strlit("Alaskan Standard Time");
        reveal_strlit("Pacific Standard Time");
        reveal_strlit("US Mountain Standard Time");
        reveal_strlit("Mountain Standard Time");
        reveal_strlit("Central Standard Time");
        reveal_strlit("Eastern Standard Time");
        reveal_strlit("Atlantic Standard Time");
        reveal_strlit("Newfoundland Standard Time");
        reveal_strlit("E. South America Standard Time");
        reveal_strlit("Greenland Standard Time");
        reveal_strlit("UTC");
        reveal_strlit("GMT Standard Time");
        reveal_strlit("Greenwich Standard Time");
        reveal_strlit("W. Europe Standard Time");
        reveal_strlit("Central Europe Standard Time");
        reveal_strlit("Romance Standard Time");
        reveal_strlit("W. Central Africa Standard Time");
        reveal_strlit("E. Europe Standard Time");
        reveal_strlit("South Africa Standard Time");
        reveal_strlit("FLE Standard Time");
        reveal_strlit("Israel Standard Time");
        reveal_strlit("Turkey Standard Time");
        reveal_strlit("Russian Standard Time");
        reveal_strlit("E. Africa Standard Time");
        reveal_strlit("Arabian Standard Time");
        reveal_strlit("Iran Standard Time");
        reveal_strlit("Afghanistan Standard Time");
        reveal_strlit("Pakistan Standard Time");
        reveal_strlit("India Standard Time");
        reveal_strlit("Bangladesh Standard Time");
        reveal_strlit("SE Asia Standard Time");
        reveal_strlit("China Standard Time");
        assert(t[34].0 == "China Standard Time"@);
        assert(t[0].0 == "Dateline Standard Time"@ && "Dateline Standard Time"@.len() != "China Standard Time"@.len());
        assert(t[1].0 == "UTC-11"@ && "UTC-11"@.len() != "China Standard Time"@.len());
        assert(t[2].0 == "Hawaiian Standard Time"@ && "Hawaiian Standard Time"@.len() != "China Standard Time"@.len());
        assert(t[3].0 == "Alaskan Standard Time"@ && "Alaskan Standard Time"@.len() != "China Standard Time"@.len());
        assert(t[4].0 == "Pacific Standard Time"@ && "Pacific Standard Time"@.len() != "China Standard Time"@.len());
        assert(t[5].0 == "US Mountain Standard Time"@ && "US Mountain Standard Time"@.len() != "China Standard Time"@.len());
        assert(t[6].0 == "Mountain Standard Time"@ && "Mountain Standard Time"@.len() != "China Standard Time"@.len());
        assert(t[7].0 == "Central Standard Time"@ && "Central Standard Time"@.len() != "China Standard Time"@.len());
        assert(t[8].0 == "Eastern Standard Time"@ && "Eastern Standard Time"@.len() != "China Standard Time"@.len());
        assert(t[9].0 == "Atlantic Standard Time"@ && "Atlantic Standard Time"@.len() != "China Standard Time"@.len());
        assert(t[10].0 == "Newfoundland Standard Time"@ && "Newfoundland Standard Time"@.len() != "China Standard Time"@.len());
        assert(t[11].0 == "E. South America Standard Time"@ && "E. South America Standard Time"@.len() != "China Standard Time"@.len());
        assert(t[12].0 == "Greenland Standard Time"@ && "Greenland Standard Time"@.len() != "China Standard Time"@.len());
        assert(t[13].0 == "UTC"@ && "UTC"@.len() != "China Standard Time"@.len());
        assert(t[14].0 == "GMT Standard Time"@ && "GMT Standard Time"@.len() != "China Standard Time"@.len());
        assert(t[15].0 == "Greenwich Standard Time"@ && "Greenwich Standard Time"@.len() != "China Standard Time"@.len());
        assert(t[16].0 == "W. Europe Standard Time"@ && "W. Europe Standard Time"@.len() != "China Standard Time"@.len());
        assert(t[17].0 == "Central Europe Standard Time"@ && "Central Europe Standard Time"@.len() != "China Standard Time"@.len());
        assert(t[18].0 == "Romance Standard Time"@ && "Romance Standard Time"@.len() != "China Standard Time"@.len());
        assert(t[19].0 == "W. Central Africa Standard Time"@ && "W. Central Africa Standard Time"@.len() != "China Standard Time"@.len());
        assert(t[20].0 == "E. Europe Standard Time"@ && "E. Europe Standard Time"@.len() != "China Standard Time"@.len());
        assert(t[21].0 == "South Africa Standard Time"@ && "South Africa Standard Time"@.len() != "China Standard Time"@.len());
        assert(t[22].0 == "FLE Standard Time"@ && "FLE Standard Time"@.len() != "China Standard Time"@.len());
        assert(t[23].0 == "Israel Standard Time"@ && "Israel Standard Time"@.len() != "China Standard Time"@.len());
        assert(t[24].0 == "Turkey Standard Time"@ && "Turkey Standard Time"@.len() != "China Standard Time"@.len());
        assert(t[25].0 == "Russian Standard Time"@ && "Russian Standard Time"@.len() != "China Standard Time"@.len());
        assert(t[26].0 == "E. Africa Standard Time"@ && "E. Africa Standard Time"@.len() != "China Standard Time"@.len());
        assert(t[27].0 == "Arabian Standard Time"@ && "Arabian Standard Time"@.len() != "China Standard Time"@.len());
        assert(t[28].0 == "Iran Standard Time"@ && "Iran Standard Time"@.len() != "China Standard Time"@.len());
        assert(t[29].0 == "Afghanistan Standard Time"@ && "Afghanistan Standard Time"@.len() != "China Standard Time"@.len());
        assert(t[30].0 == "Pakistan Standard Time"@ && "Pakistan Standard Time"@.len() != "China Standard Time"@.len());
        assert(t[31].0 == "India Standard Time"@ && "India Standard Time"@[0] != "China Standard Time"@[0]);
        assert(t[32].0 == "Bangladesh Standard Time"@ && "Bangladesh Standard Time"@.len() != "China Standard Time"@.len());
        assert(t[33].0 == "SE Asia Standard Time"@ && "SE Asia Standard Time"@.len() != "China Standard Time"@.len());
        lemma_first_at(t, "China Standard Time"@, 34);
    }
    assert(table_minutes(t, "Singapore Standard Time"@) == Some(t[35].1)) by {
        reveal(time_zone_table);
        reveal_with_fuel(absent_before, 37);
        reveal_strlit("Dateline Standard Time");
        reveal_strlit("UTC-11");
        reveal_strlit("Hawaiian Standard Time");
        reveal_strlit("Alaskan Standard Time");
        reveal_strlit("Pacific Standard Time");
        reveal_strlit("US Mountain Standard Time");
        reveal_strlit("Mountain Standard Time");
        reveal_strlit("Central Standard Time");
        reveal_strlit("Eastern Standard Time");
        reveal_strlit("Atlantic Standard Time");
        reveal_strlit("Newfoundland Standard Time");
        reveal_strlit("E. South America Standard Time");
        reveal_strlit("Greenland Standard Time");
        reveal_strlit("UTC");
        reveal_strlit("GMT Standard Time");
        reveal_strlit("Greenwich Standard Time");
        reveal_strlit("W. Europe Standard Time");
        reveal_strlit("Central Europe Standard Time");
        reveal_strlit("Romance Standard Time");
        reveal_strlit("W. Central Africa Standard Time");
        reveal_strlit("E. Europe Standard Time");
        reveal_strlit("South Africa Standard Time");
        reveal_strlit("FLE Standard Time");
        reveal_strlit("Israel Standard Time");
        reveal_strlit("Turkey Standard Time");
        reveal_strlit("Russian Standard Time");
        reveal_strlit("E. Africa Standard Time");
        reveal_strlit("Arabian Standard Time");
        reveal_strlit("Iran Standard Time");
        reveal_strlit("Afghanistan Standard Time");
        reveal_strlit("Pakistan Standard Time");
        reveal_strlit("India Standard Time");
        reveal_strlit("Bangladesh Standard Time");
        reveal_strlit("SE Asia Standard Time");
        reveal_strlit("China Standard Time");
        reveal_strlit("Singapore Standard Time");
        assert(t[35].0 == "Singapore Standard Time"@);
        assert(t[0].0 == "Dateline Standard Time"@ && "Dateline Standard Time"@.len() != "Singapore Standard Time"@.len());
        assert(t[1].0 == "UTC-11"@ && "UTC-11"@.len() != "Singapore Standard Time"@.len());
        assert(t[2].0 == "Hawaiian Standard Time"@ && "Hawaiian Standard Time"@.len() != "Singapore Standard Time"@.len());
        assert(t[3].0 == "Alaskan Standard Time"@ && "Alaskan Standard Time"@.len() != "Singapore Standard Time"@.len());
        assert(t[4].0 == "Pacific Standard Time"@ && "Pacific Standard Time"@.len() != "Singapore Standard Time"@.len());
        assert(t[5].0 == "US Mountain Standard Time"@ && "US Mountain Standard Time"@.len() != "Singapore Standard Time"@.len());
        assert(t[6].0 == "Mountain Standard Time"@ && "Mountain Standard Time"@.len() != "Singapore Standard Time"@.len());
        assert(t[7].0 == "Central Standard Time"@ && "Central Standard Time"@.len() != "Singapore Standard Time"@.len());
        assert(t[8].0 == "Eastern Standard Time"@ && "Eastern Standard Time"@.len() != "Singapore Standard Time"@.len());
        assert(t[9].0 == "Atlantic Standard Time"@ && "Atlantic Standard Time"@.len() != "Singapore Standard Time"@.len());
        assert(t[10].0 == "Newfoundland Standard Time"@ && "Newfoundland Standard Time"@.len() != "Singapore Standard Time"@.len());
        assert(t[11].0 == "E. South America Standard Time"@ && "E. South America Standard Time"@.len() != "Singapore Standard Time"@.len());
        assert(t[12].0 == "Greenland Standard Time"@ && "Greenland Standard Time"@[0] != "Singapore Standard Time"@[0]);
        assert(t[13].0 == "UTC"@ && "UTC"@.len() != "Singapore Standard Time"@.len());
        assert(t[14].0 == "GMT Standard Time"@ && "GMT Standard Time"@.len() != "Singapore Standard Time"@.len());
        assert(t[15].0 == "Greenwich Standard Time"@ && "Greenwich Standard Time"@[0] != "Singapore Standard Time"@[0]);
        assert(t[16].0 == "W. Europe Standard Time"@ && "W. Europe Standard Time"@[0] != "Singapore Standard Time"@[0]);
        assert(t[17].0 == "Central Europe Standard Time"@ && "Central Europe Standard Time"@.len() != "Singapore Standard Time"@.len());
        assert(t[18].0 == "Romance Standard Time"@ && "Romance Standard Time"@.len() != "Singapore Standard Time"@.len());
        assert(t[19].0 == "W. Central Africa Standard Time"@ && "W. Central Africa Standard Time"@.len() != "Singapore Standard Time"@.len());
        assert(t[20].0 == "E. Europe Standard Time"@ && "E. Europe Standard Time"@[0] != "Singapore Standard Time"@[0]);
        assert(t[21].0 == "South Africa Standard Time"@ && "South Africa Standard Time"@.len() != "Singapore Standard Time"@.len());
        assert(t[22].0 == "FLE Standard Time"@ && "FLE Standard Time"@.len() != "Singapore Standard Time"@.len());
        assert(t[23].0 == "Israel Standard Time"@ && "Israel Standard Time"@.len() != "Singapore Standard Time"@.len());
        assert(t[24].0 == "Turkey Standard Time"@ && "Turkey Standard Time"@.len() != "Singapore Standard Time"@.len());
        assert(t[25].0 == "Russian Standard Time"@ && "Russian Standard Time"@.len() != "Singapore Standard Time"@.len());
        assert(t[26].0 == "E. Africa Standard Time"@ && "E. Africa Standard Time"@[0] != "Singapore Standard Time"@[0]);
        assert(t[27].0 == "Arabian Standard Time"@ && "Arabian Standard Time"@.len() != "Singapore Standard Time"@.len());
        assert(t[28].0 == "Iran Standard Time"@ && "Iran Standard Time"@.len() != "Singapore Standard Time"@.len());
        assert(t[29].0 == "Afghanistan Standard Time"@ && "Afghanistan Standard Time"@.len() != "Singapore Standard Time"@.len());
        assert(t[30].0 == "Pakistan Standard Time"@ && "Pakistan Standard Time"@.len() != "Singapore Standard Time"@.len());
        assert(t[31].0 == "India Standard Time"@ && "India Standard Time"@.len() != "Singapore Standard Time"@.len());
        assert(t[32].0 == "Bangladesh Standard Time"@ && "Bangladesh Standard Time"@.len() != "Singapore Standard Time"@.len());
        assert(t[33].0 == "SE Asia Standard Time"@ && "SE Asia Standard Time"@.len() != "Singapore Standard Time"@.len());
        assert(t[34].0 == "China Standard Time"@ && "China Standard Time"@.len() != "Singapore Standard Time"@.len());
        lemma_first_at(t, "Singapore Standard Time"@, 35);
    }
    assert(table_minutes(t, "Tokyo Standard Time"@) == Some(t[36].1)) by {
        reveal(time_zone_table);
        reveal_with_fuel(absent_before, 38);
        reveal_strlit("Dateline Standard Time");
        reveal_strlit("UTC-11");
        reveal_strlit("Hawaiian Standard Time");
        reveal_strlit("Alaskan Standard Time");
        reveal_strlit("Pacific Standard Time");
        reveal_strlit("US Mountain Standard Time");
        reveal_strlit("Mountain Standard Time");
        reveal_strlit("Central Standard Time");
        reveal_strlit("Eastern Standard Time");
        reveal_strlit("Atlantic Standard Time");
        reveal_strlit("Newfoundland Standard Time");
        reveal_strlit("E. South America Standard Time");
        reveal_strlit("Greenland Standard Time");
        reveal_strlit("UTC");
        reveal_strlit("GMT Standard Time");
        reveal_strlit("Greenwich Standard Time");
        reveal_strlit("W. Europe Standard Time");
        reveal_strlit("Central Europe Standard Time");
        reveal_strlit("Romance Standard Time");
        reveal_strlit("W. Central Africa Standard Time");
        reveal_strlit("E. Europe Standard Time");
        reveal_strlit("South Africa Standard Time");
        reveal_strlit("FLE Standard Time");
        reveal_strlit("Israel Standard Time");
        reveal_strlit("Turkey Standard Time");
        reveal_strlit("Russian Standard Time");
        reveal_strlit("E. Africa Standard Time");
        reveal_strlit("Arabian Standard Time");
        reveal_strlit("Iran Standard Time");
        reveal_strlit("Afghanistan Standard Time");
        reveal_strlit("Pakistan Standard Time");
        reveal_strlit("India Standard Time");
        reveal_strlit("Bangladesh Standard Time");
        reveal_strlit("SE Asia Standard Time");
        reveal_strlit("China Standard Time");
        reveal_strlit("Singapore Standard Time");
        reveal_strlit("Tokyo Standard Time");
        assert(t[36].0 == "Tokyo Standard Time"@);
        assert(t[0].0 == "Dateline Standard Time"@ && "Dateline Standard Time"@.len() != "Tokyo Standard Time"@.len());
        assert(t[1].0 == "UTC-11"@ && "UTC-11"@.len() != "Tokyo Standard Time"@.len());
        assert(t[2].0 == "Hawaiian Standard Time"@ && "Hawaiian Standard Time"@.len() != "Tokyo Standard Time"@.len());
        assert(t[3].0 == "Alaskan Standard Time"@ && "Alaskan Standard Time"@.len() != "Tokyo Standard Time"@.len());
        assert(t[4].0 == "Pacific Standard Time"@ && "Pacific Standard Time"@.len() != "Tokyo Standard Time"@.len());
        assert(t[5].0 == "US Mountain Standard Time"@ && "US Mountain Standard Time"@.len() != "Tokyo Standard Time"@.len());
        assert(t[6].0 == "Mountain Standard Time"@ && "Mountain Standard Time"@.len() != "Tokyo Standard Time"@.len());
        assert(t[7].0 == "Central Standard Time"@ && "Central Standard Time"@.len() != "Tokyo Standard Time"@.len());
        assert(t[8].0 == "Eastern Standard Time"@ && "Eastern Standard Time"@.len() != "Tokyo Standard Time"@.len());
        assert(t[9].0 == "Atlantic Standard Time"@ && "Atlantic Standard Time"@.len() != "Tokyo Standard Time"@.len());
        assert(t[10].0 == "Newfoundland Standard Time"@ && "Newfoundland Standard Time"@.len() != "Tokyo Standard Time"@.len());
        assert(t[11].0 == "E. South America Standard Time"@ && "E. South America Standard Time"@.len() != "Tokyo Standard Time"@.len());
        assert(t[12].0 == "Greenland Standard Time"@ && "Greenland Standard Time"@.len() != "Tokyo Standard Time"@.len());
        assert(t[13].0 == "UTC"@ && "UTC"@.len() != "Tokyo Standard Time"@.len());
        assert(t[14].0 == "GMT Standard Time"@ && "GMT Standard Time"@.len() != "Tokyo Standard Time"@.len());
        assert(t[15].0 == "Greenwich Standard Time"@ && "Greenwich Standard Time"@.len() != "Tokyo Standard Time"@.len());
        assert(t[16].0 == "W. Europe Standard Time"@ && "W. Europe Standard Time"@.len() != "Tokyo Standard Time"@.len());
        assert(t[17].0 == "Central Europe Standard Time"@ && "Central Europe Standard Time"@.len() != "Tokyo Standard Time"@.len());
        assert(t[18].0 == "Romance Standard Time"@ && "Romance Standard Time"@.len() != "Tokyo Standard Time"@.len());
        assert(t[19].0 == "W. Central Africa Standard Time"@ && "W. Central Africa Standard Time"@.len() != "Tokyo Standard Time"@.len());
        assert(t[20].0 == "E. Europe Standard Time"@ && "E. Europe Standard Time"@.len() != "Tokyo Standard Time"@.len());
        assert(t[21].0 == "South Africa Standard Time"@ && "South Africa Standard Time"@.len() != "Tokyo Standard Time"@.len());
        assert(t[22].0 == "FLE Standard Time"@ && "FLE Standard Time"@.len() != "Tokyo Standard Time"@.len());
        assert(t[23].0 == "Israel Standard Time"@ && "Israel Standard Time"@.len() != "Tokyo Standard Time"@.len());
        assert(t[24].0 == "Turkey Standard Time"@ && "Turkey Standard Time"@.len() != "Tokyo Standard Time"@.len());
        assert(t[25].0 == "Russian Standard Time"@ && "Russian Standard Time"@.len() != "Tokyo Standard Time"@.len());
        assert(t[26].0 == "E. Africa Standard Time"@ && "E. Africa Standard Time"@.len() != "Tokyo Standard Time"@.len());
        assert(t[27].0 == "Arabian Standard Time"@ && "Arabian Standard Time"@.len() != "Tokyo Standard Time"@.len());
        assert(t[28].0 == "Iran Standard Time"@ && "Iran Standard Time"@.len() != "Tokyo Standard Time"@.len());
        assert(t[29].0 == "Afghanistan Standard Time"@ && "Afghanistan Standard Time"@.len() != "Tokyo Standard Time"@.len());
        assert(t[30].0 == "Pakistan Standard Time"@ && "Pakistan Standard Time"@.len() != "Tokyo Standard Time"@.len());
        assert(t[31].0 == "India Standard Time"@ && "India Standard Time"@[0] != "Tokyo Standard Time"@[0]);
        assert(t[32].0 == "Bangladesh Standard Time"@ && "Bangladesh Standard Time"@.len() != "Tokyo Standard Time"@.len());
        assert(t[33].0 == "SE Asia Standard Time"@ && "SE Asia Standard Time"@.len() != "Tokyo Standard Time"@.len());
        assert(t[34].0 == "China Standard Time"@ && "China Standard Time"@[0] != "Tokyo Standard Time"@[0]);
        assert(t[35].0 == "Singapore Standard Time"@ && "Singapore Standard Time"@.len() != "Tokyo Standard Time"@.len());
        lemma_first_at(t, "Tokyo Standard Time"@, 36);
    }
    assert(table_minutes(t, "AUS Eastern Standard Time"@) == Some(t[37].1)) by {
        reveal(time_zone_table);
        reveal_with_fuel(absent_before, 39);
        reveal_strlit("Dateline Standard Time");
        reveal_strlit("UTC-11");
        reveal_strlit("Hawaiian Standard Time");
        reveal_strlit("Alaskan Standard Time");
        reveal_strlit("Pacific Standard Time");
        reveal_strlit("US Mountain Standard Time");
        reveal_strlit("Mountain Standard Time");
        reveal_strlit("Central Standard Time");
        reveal_strlit("Eastern Standard Time");
        reveal_strlit("Atlantic Standard Time");
        reveal_strlit("Newfoundland Standard Time");
        reveal_strlit("E. South America Standard Time");
        reveal_strlit("Greenland Standard Time");
        reveal_strlit("UTC");
        reveal_strlit("GMT Standard Time");
        reveal_strlit("Greenwich Standard Time");
        reveal_strlit("W. Europe Standard Time");
        reveal_strlit("Central Europe Standard Time");
        reveal_strlit("Romance Standard Time");
        reveal_strlit("W. Central Africa Standard Time");
        reveal_strlit("E. Europe Standard Time");
        reveal_strlit("South Africa Standard Time");
        reveal_strlit("FLE Standard Time");
        reveal_strlit("Israel Standard Time");
        reveal_strlit("Turkey Standard Time");
        reveal_strlit("Russian Standard Time");
        reveal_strlit("E. Africa Standard Time");
        reveal_strlit("Arabian Standard Time");
        reveal_strlit("Iran Standard Time");
        reveal_strlit("Afghanistan Standard Time");
        reveal_strlit("Pakistan Standard Time");
        reveal_strlit("India Standard Time");
        reveal_strlit("Bangladesh Standard Time");
        reveal_strlit("SE Asia Standard Time");
        reveal_strlit("China Standard Time");
        reveal_strlit("Singapore Standard Time");
        reveal_strlit("Tokyo Standard Time");
        reveal_strlit("AUS Eastern Standard Time");
        assert(t[37].0 == "AUS Eastern Standard Time"@);
        assert(t[0].0 == "Dateline Standard Time"@ && "Dateline Standard Time"@.len() != "AUS Eastern Standard Time"@.len());
        assert(t[1].0 == "UTC-11"@ && "UTC-11"@.len() != "AUS Eastern Standard Time"@.len());
        assert(t[2].0 == "Hawaiian Standard Time"@ && "Hawaiian Standard Time"@.len() != "AUS Eastern Standard Time"@.len());
        assert(t[3].0 == "Alaskan Standard Time"@ && "Alaskan Standard Time"@.len() != "AUS Eastern Standard Time"@.len());
        assert(t[4].0 == "Pacific Standard Time"@ && "Pacific Standard Time"@.len() != "AUS Eastern Standard Time"@.len());
        assert(t[5].0 == "US Mountain Standard Time"@ && "US Mountain Standard Time"@[0] != "AUS Eastern Standard Time"@[0]);
        assert(t[6].0 == "Mountain Standard Time"@ && "Mountain Standard Time"@.len() != "AUS Eastern Standard Time"@.len());
        assert(t[7].0 == "Central Standard Time"@ && "Central Standard Time"@.len() != "AUS Eastern Standard Time"@.len());
        assert(t[8].0 == "Eastern Standard Time"@ && "Eastern Standard Time"@.len() != "AUS Eastern Standard Time"@.len());
        assert(t[9].0 == "Atlantic Standard Time"@ && "Atlantic Standard Time"@.len() != "AUS Eastern Standard Time"@.len());
        assert(t[10].0 == "Newfoundland Standard Time"@ && "Newfoundland Standard Time"@.len() != "AUS Eastern Standard Time"@.len());
        assert(t[11].0 == "E. South America Standard Time"@ && "E. South America Standard Time"@.len() != "AUS Eastern Standard Time"@.len());
        assert(t[12].0 == "Greenland Standard Time"@ && "Greenland Standard Time"@.len() != "AUS Eastern Standard Time"@.len());
        assert(t[13].0 == "UTC"@ && "UTC"@.len() != "AUS Eastern Standard Time"@.len());
        assert(t[14].0 == "GMT Standard Time"@ && "GMT Standard Time"@.len() != "AUS Eastern Standard Time"@.len());
        assert(t[15].0 == "Greenwich Standard Time"@ && "Greenwich Standard Time"@.len() != "AUS Eastern Standard Time"@.len());
        assert(t[16].0 == "W. Europe Standard Time"@ && "W. Europe Standard Time"@.len() != "AUS Eastern Standard Time"@.len());
        assert(t[17].0 == "Central Europe Standard Time"@ && "Central Europe Standard Time"@.len() != "AUS Eastern Standard Time"@.len());
        assert(t[18].0 == "Romance Standard Time"@ && "Romance Standard Time"@.len() != "AUS Eastern Standard Time"@.len());
        assert(t[19].0 == "W. Central Africa Standard Time"@ && "W. Central Africa Standard Time"@.len() != "AUS Eastern Standard Time"@.len());
        assert(t[20].0 == "E. Europe Standard Time"@ && "E. Europe Standard Time"@.len() != "AUS Eastern Standard Time"@.len());
        assert(t[21].0 == "South Africa Standard Time"@ && "South Africa Standard Time"@.len() != "AUS Eastern Standard Time"@.len());
        assert(t[22].0 == "FLE Standard Time"@ && "FLE Standard Time"@.len() != "AUS Eastern Standard Time"@.len());
        assert(t[23].0 == "Israel Standard Time"@ && "Israel Standard Time"@.len() != "AUS Eastern Standard Time"@.len());
        assert(t[24].0 == "Turkey Standard Time"@ && "Turkey Standard Time"@.len() != "AUS Eastern Standard Time"@.len());
        assert(t[25].0 == "Russian Standard Time"@ && "Russian Standard Time"@.len() != "AUS Eastern Standard Time"@.len());
        assert(t[26].0 == "E. Africa Standard Time"@ && "E. Africa Standard Time"@.len() != "AUS Eastern Standard Time"@.len());
        assert(t[27].0 == "Arabian Standard Time"@ && "Arabian Standard Time"@.len() != "AUS Eastern Standard Time"@.len());
        assert(t[28].0 == "Iran Standard Time"@ && "Iran Standard Time"@.len() != "AUS Eastern Standard Time"@.len());
        assert(t[29].0 == "Afghanistan Standard Time"@ && "Afghanistan Standard Time"@[1] != "AUS Eastern Standard Time"@[1]);
        assert(t[30].0 == "Pakistan Standard Time"@ && "Pakistan Standard Time"@.len() != "AUS Eastern Standard Time"@.len());
        assert(t[31].0 == "India Standard Time"@ && "India Standard Time"@.len() != "AUS Eastern Standard Time"@.len());
        assert(t[32].0 == "Bangladesh Standard Time"@ && "Bangladesh Standard Time"@.len() != "AUS Eastern Standard Time"@.len());
        assert(t[33].0 == "SE Asia Standard Time"@ && "SE Asia Standard Time"@.len() != "AUS Eastern Standard Time"@.len());
        assert(t[34].0 == "China Standard Time"@ && "China Standard Time"@.len() != "AUS Eastern Standard Time"@.len());
        assert(t[35].0 == "Singapore Standard Time"@ && "Singapore Standard Time"@.len() != "AUS Eastern Standard Time"@.len());
        assert(t[36].0 == "Tokyo Standard Time"@ && "Tokyo Standard Time"@.len() != "AUS Eastern Standard Time"@.len());
        lemma_first_at(t, "AUS Eastern Standard Time"@, 37);
    }
    assert(table_minutes(t, "E. Australia Standard Time"@) == Some(t[38].1)) by {
        reveal(time_zone_table);
        reveal_with_fuel(absent_before, 40);
        reveal_strlit("Dateline Standard Time");
        reveal_strlit("UTC-11");
        reveal_strlit("Hawaiian Standard Time");
        reveal_strlit("Alaskan Standard Time");
        reveal_strlit("Pacific Standard Time");
        reveal_strlit("US Mountain Standard Time");
        reveal_strlit("Mountain Standard Time");
        reveal_strlit("Central Standard Time");
        reveal_strlit("Eastern Standard Time");
        reveal_strlit("Atlantic Standard Time");
        reveal_strlit("Newfoundland Standard Time");
        reveal_strlit("E. South America Standard Time");
        reveal_strlit("Greenland Standard Time");
        reveal_strlit("UTC");
        reveal_strlit("GMT Standard Time");
        reveal_strlit("Greenwich Standard Time");
        reveal_strlit("W. Europe Standard Time");
        reveal_strlit("Central Europe Standard Time");
        reveal_strlit("Romance Standard Time");
        reveal_strlit("W. Central Africa Standard Time");
        reveal_strlit("E. Europe Standard Time");
        reveal_strlit("South Africa Standard Time");
        reveal_strlit("FLE Standard Time");
        reveal_strlit("Israel Standard Time");
        reveal_strlit("Turkey Standard Time");
        reveal_strlit("Russian Standard Time");
        reveal_strlit("E. Africa Standard Time");
        reveal_strlit("Arabian Standard Time");
        reveal_strlit("Iran Standard Time");
        reveal_strlit("Afghanistan Standard Time");
        reveal_strlit("Pakistan Standard Time");
        reveal_strlit("India Standard Time");
        reveal_strlit("Bangladesh Standard Time");
        reveal_strlit("SE Asia Standard Time");
        reveal_strlit("China Standard Time");
        reveal_strlit("Singapore Standard Time");
        reveal_strlit("Tokyo Standard Time");
        reveal_strlit("AUS Eastern Standard Time");
        reveal_strlit("E. Australia Standard Time");
        assert(t[38].0 == "E. Australia Standard Time"@);
        assert(t[0].0 == "Dateline Standard Time"@ && "Dateline Standard Time"@.len() != "E. Australia Standard Time"@.len());
        assert(t[1].0 == "UTC-11"@ && "UTC-11"@.len() != "E. Australia Standard Time"@.len());
        assert(t[2].0 == "Hawaiian Standard Time"@ && "Hawaiian Standard Time"@.len() != "E. Australia Standard Time"@.len());
        assert(t[3].0 == "Alaskan Standard Time"@ && "Alaskan Standard Time"@.len() != "E. Australia Standard Time"@.len());
        assert(t[4].0 == "Pacific Standard Time"@ && "Pacific Standard Time"@.len() != "E. Australia Standard Time"@.len());
        assert(t[5].0 == "US Mountain Standard Time"@ && "US Mountain Standard Time"@.len() != "E. Australia Standard Time"@.len());
        assert(t[6].0 == "Mountain Standard Time"@ && "Mountain Standard Time"@.len() != "E. Australia Standard Time"@.len());
        assert(t[7].0 == "Central Standard Time"@ && "Central Standard Time"@.len() != "E. Australia Standard Time"@.len());
        assert(t[8].0 == "Eastern Standard Time"@ && "Eastern Standard Time"@.len() != "E. Australia Standard Time"@.len());
        assert(t[9].0 == "Atlantic Standard Time"@ && "Atlantic Standard Time"@.len() != "E. Australia Standard Time"@.len());
        assert(t[10].0 == "Newfoundland Standard Time"@ && "Newfoundland Standard Time"@[0] != "E. Australia Standard Time"@[0]);
        assert(t[11].0 == "E. South America Standard Time"@ && "E. South America Standard Time"@.len() != "E. Australia Standard Time"@.len());
        assert(t[12].0 == "Greenland Standard Time"@ && "Greenland Standard Time"@.len() != "E. Australia Standard Time"@.len());
        assert(t[13].0 == "UTC"@ && "UTC"@.len() != "E. Australia Standard Time"@.len());
        assert(t[14].0 == "GMT Standard Time"@ && "GMT Standard Time"@.len() != "E. Australia Standard Time"@.len());
        assert(t[15].0 == "Greenwich Standard Time"@ && "Greenwich Standard Time"@.len() != "E. Australia Standard Time"@.len());
        assert(t[16].0 == "W. Europe Standard Time"@ && "W. Europe Standard Time"@.len() != "E. Australia Standard Time"@.len());
        assert(t[17].0 == "Central Europe Standard Time"@ && "Central Europe Standard Time"@.len() != "E. Australia Standard Time"@.len());
        assert(t[18].0 == "Romance Standard Time"@ && "Romance Standard Time"@.len() != "E. Australia Standard Time"@.len());
        assert(t[19].0 == "W. Central Africa Standard Time"@ && "W. Central Africa Standard Time"@.len() != "E. Australia Standard Time"@.len());
        assert(t[20].0 == "E. Europe Standard Time"@ && "E. Europe Standard Time"@.len() != "E. Australia Standard Time"@.len());
        assert(t[21].0 == "South Africa Standard Time"@ && "South Africa Standard Time"@[0] != "E. Australia Standard Time"@[0]);
        assert(t[22].0 == "FLE Standard Time"@ && "FLE Standard Time"@.len() != "E. Australia Standard Time"@.len());
        assert(t[23].0 == "Israel Standard Time"@ && "Israel Standard Time"@.len() != "E. Australia Standard Time"@.len());
        assert(t[24].0 == "Turkey Standard Time"@ && "Turkey Standard Time"@.len() != "E. Australia Standard Time"@.len());
        assert(t[25].0 == "Russian Standard Time"@ && "Russian Standard Time"@.len() != "E. Australia Standard Time"@.len());
        assert(t[26].0 == "E. Africa Standard Time"@ && "E. Africa Standard Time"@.len() != "E. Australia Standard Time"@.len());
        assert(t[27].0 == "Arabian Standard Time"@ && "Arabian Standard Time"@.len() != "E. Australia Standard Time"@.len());
        assert(t[28].0 == "Iran Standard Time"@ && "Iran Standard Time"@.len() != "E. Australia Standard Time"@.len());
        assert(t[29].0 == "Afghanistan Standard Time"@ && "Afghanistan Standard Time"@.len() != "E. Australia Standard Time"@.len());
        assert(t[30].0 == "Pakistan Standard Time"@ && "Pakistan Standard Time"@.len() != "E. Australia Standard Time"@.len());
        assert(t[31].0 == "India Standard Time"@ && "India Standard Time"@.len() != "E. Australia Standard Time"@.len());
        assert(t[32].0 == "Bangladesh Standard Time"@ && "Bangladesh Standard Time"@.len() != "E. Australia Standard Time"@.len());
        assert(t[33].0 == "SE Asia Standard Time"@ && "SE Asia Standard Time"@.len() != "E. Australia Standard Time"@.len());
        assert(t[34].0 == "China Standard Time"@ && "China Standard Time"@.len() != "E. Australia Standard Time"@.len());
        assert(t[35].0 == "Singapore Standard Time"@ && "Singapore Standard Time"@.len() != "E. Australia Standard Time"@.len());
        assert(t[36].0 == "Tokyo Standard Time"@ && "Tokyo Standard Time"@.len() != "E. Australia Standard Time"@.len());
        assert(t[37].0 == "AUS Eastern Standard Time"@ && "AUS Eastern Standard Time"@.len() != "E. Australia Standard Time"@.len());
        lemma_first_at(t, "E. Australia Standard Time"@, 38);
    }
    assert(table_minutes(t, "New Zealand Standard Time"@) == Some(t[39].1)) by {
        reveal(time_zone_table);
        reveal_with_fuel(absent_before, 41);
        reveal_strlit("Dateline Standard Time");
        reveal_strlit("UTC-11");
        reveal_strlit("Hawaiian Standard Time");
        reveal_strlit("Alaskan Standard Time");
        reveal_strlit("Pacific Standard Time");
        reveal_strlit("US Mountain Standard Time");
        reveal_strlit("Mountain Standard Time");
        reveal_strlit("Central Standard Time");
        reveal_strlit("Eastern Standard Time");
        reveal_strlit("Atlantic Standard Time");
        reveal_strlit("Newfoundland Standard Time");
        reveal_strlit("E. South America Standard Time");
        reveal_strlit("Greenland Standard Time");
        reveal_strlit("UTC");
        reveal_strlit("GMT Standard Time");
        reveal_strlit("Greenwich Standard Time");
        reveal_strlit("W. Europe Standard Time");
        reveal_strlit("Central Europe Standard Time");
        reveal_strlit("Romance Standard Time");
        reveal_strlit("W. Central Africa Standard Time");
        reveal_strlit("E. Europe Standard Time");
        reveal_strlit("South Africa Standard Time");
        reveal_strlit("FLE Standard Time");
        reveal_strlit("Israel Standard Time");
        reveal_strlit("Turkey Standard Time");
        reveal_strlit("Russian Standard Time");
        reveal_strlit("E. Africa Standard Time");
        reveal_strlit("Arabian Standard Time");
        reveal_strlit("Iran Standard Time");
        reveal_strlit("Afghanistan Standard Time");
        reveal_strlit("Pakistan Standard Time");
        reveal_strlit("India Standard Time");
        reveal_strlit("Bangladesh Standard Time");
        reveal_strlit("SE Asia Standard Time");
        reveal_strlit("China Standard Time");
        reveal_strlit("Singapore Standard Time");
        reveal_strlit("Tokyo Standard Time");
        reveal_strlit("AUS Eastern Standard Time");
        reveal_strlit("E. Australia Standard Time");
        reveal_strlit("New Zealand Standard Time");
        assert(t[39].0 == "New Zealand Standard Time"@);
        assert(t[0].0 == "Dateline Standard Time"@ && "Dateline Standard Time"@.len() != "New Zealand Standard Time"@.len());
        assert(t[1].0 == "UTC-11"@ && "UTC-11"@.len() != "New Zealand Standard Time"@.len());
        assert(t[2].0 == "Hawaiian Standard Time"@ && "Hawaiian Standard Time"@.len() != "New Zealand Standard Time"@.len());
        assert(t[3].0 == "Alaskan Standard Time"@ && "Alaskan Standard Time"@.len() != "New Zealand Standard Time"@.len());
        assert(t[4].0 == "Pacific Standard Time"@ && "Pacific Standard Time"@.len() != "New Zealand Standard Time"@.len());
        assert(t[5].0 == "US Mountain Standard Time"@ && "US Mountain Standard Time"@[0] != "New Zealand Standard Time"@[0]);
        assert(t[6].0 == "Mountain Standard Time"@ && "Mountain Standard Time"@.len() != "New Zealand Standard Time"@.len());
        assert(t[7].0 == "Central Standard Time"@ && "Central Standard Time"@.len() != "New Zealand Standard Time"@.len());
        assert(t[8].0 == "Eastern Standard Time"@ && "Eastern Standard Time"@.len() != "New Zealand Standard Time"@.len());
        assert(t[9].0 == "Atlantic Standard Time"@ && "Atlantic Standard Time"@.len() != "New Zealand Standard Time"@.len());
        assert(t[10].0 == "Newfoundland Standard Time"@ && "Newfoundland Standard Time"@.len() != "New Zealand Standard Time"@.len());
        assert(t[11].0 == "E. South America Standard Time"@ && "E. South America Standard Time"@.len() != "New Zealand Standard Time"@.len());
        assert(t[12].0 == "Greenland Standard Time"@ && "Greenland Standard Time"@.len() != "New Zealand Standard Time"@.len());
        assert(t[13].0 == "UTC"@ && "UTC"@.len() != "New Zealand Standard Time"@.len());
        assert(t[14].0 == "GMT Standard Time"@ && "GMT Standard Time"@.len() != "New Zealand Standard Time"@.len());
        assert(t[15].0 == "Greenwich Standard Time"@ && "Greenwich Standard Time"@.len() != "New Zealand Standard Time"@.len());
        assert(t[16].0 == "W. Europe Standard Time"@ && "W. Europe Standard Time"@.len() != "New Zealand Standard Time"@.len());
        assert(t[17].0 == "Central Europe Standard Time"@ && "Central Europe Standard Time"@.len() != "New Zealand Standard Time"@.len());
        assert(t[18].0 == "Romance Standard Time"@ && "Romance Standard Time"@.len() != "New Zealand Standard Time"@.len());
        assert(t[19].0 == "W. Central Africa Standard Time"@ && "W. Central Africa Standard Time"@.len() != "New Zealand Standard Time"@.len());
        assert(t[20].0 == "E. Europe Standard Time"@ && "E. Europe Standard Time"@.len() != "New Zealand Standard Time"@.len());
        assert(t[21].0 == "South Africa Standard Time"@ && "South Africa Standard Time"@.len() != "New Zealand Standard Time"@.len());
        assert(t[22].0 == "FLE Standard Time"@ && "FLE Standard Time"@.len() != "New Zealand Standard Time"@.len());
        assert(t[23].0 == "Israel Standard Time"@ && "Israel Standard Time"@.len() != "New Zealand Standard Time"@.len());
        assert(t[24].0 == "Turkey Standard Time"@ && "Turkey Standard Time"@.len() != "New Zealand Standard Time"@.len());
        assert(t[25].0 == "Russian Standard Time"@ && "Russian Standard Time"@.len() != "New Zealand Standard Time"@.len());
        assert(t[26].0 == "E. Africa Standard Time"@ && "E. Africa Standard Time"@.len() != "New Zealand Standard Time"@.len());
        assert(t[27].0 == "Arabian Standard Time"@ && "Arabian Standard Time"@.len() != "New Zealand Standard Time"@.len());
        assert(t[28].0 == "Iran Standard Time"@ && "Iran Standard Time"@.len() != "New Zealand Standard Time"@.len());
        assert(t[29].0 == "Afghanistan Standard Time"@ && "Afghanistan Standard Time"@[0] != "New Zealand Standard Time"@[0]);
        assert(t[30].0 == "Pakistan Standard Time"@ && "Pakistan Standard Time"@.len() != "New Zealand Standard Time"@.len());
        assert(t[31].0 == "India Standard Time"@ && "India Standard Time"@.len() != "New Zealand Standard Time"@.len());
        assert(t[32].0 == "Bangladesh Standard Time"@ && "Bangladesh Standard Time"@.len() != "New Zealand Standard Time"@.len());
        assert(t[33].0 == "SE Asia Standard Time"@ && "SE Asia Standard Time"@.len() != "New Zealand Standard Time"@.len());
        assert(t[34].0 == "China Standard Time"@ && "China Standard Time"@.len() != "New Zealand Standard Time"@.len());
        assert(t[35].0 == "Singapore Standard Time"@ && "Singapore Standard Time"@.len() != "New Zealand Standard Time"@.len());
        assert(t[36].0 == "Tokyo Standard Time"@ && "Tokyo Standard Time"@.len() != "New Zealand Standard Time"@.len());
        assert(t[37].0 == "AUS Eastern Standard Time"@ && "AUS Eastern Standard Time"@[0] != "New Zealand Standard Time"@[0]);
        assert(t[38].0 == "E. Australia Standard Time"@ && "E. Australia Standard Time"@.len() != "New Zealand Standard Time"@.len());
        lemma_first_at(t, "New Zealand Standard Time"@, 39);
    }
    reveal(time_zone_table);
    lemma_table_minutes_absent(time_zone_table(), id);
}

/// The entries of `time_zone_table`.
fn time_zone_entries() -> (v: Vec<(&'static str, i32)>)
    ensures
        v@.len() == time_zone_table().len(),
        forall|i: int| 0 <= i < v@.len() ==> (#[trigger] v@[i].0@, v@[i].1 as int) == time_zone_table()[i],
        forall|i: int| 0 <= i < v@.len() ==> -720 <= #[trigger] v@[i].1 <= 720,
{
    reveal(time_zone_table);
    let mut v: Vec<(&'static str, i32)> = Vec::new();
    v.push(("Dateline Standard Time", -720));
    v.push(("UTC-11", -660));
    v.push(("Hawaiian Standard Time", -600));
    v.push(("Alaskan Standard Time", -540));
    v.push(("Pacific Standard Time", -480));
    v.push(("US Mountain Standard Time", -420));
    v.push(("Mountain Standard Time", -420));
    v.push(("Central Standard Time", -360));
    v.push(("Eastern Standard Time", -300));
    v.push(("Atlantic Standard Time", -240));
    v.push(("Newfoundland Standard Time", -210));
    v.push(("E. South America Standard Time", -180));
    v.push(("Greenland Standard Time", -180));
    v.push(("UTC", 0));
    v.push(("GMT Standard Time", 0));
    v.push(("Greenwich Standard Time", 0));
    v.push(("W. Europe Standard Time", 60));
    v.push(("Central Europe Standard Time", 60));
    v.push(("Romance Standard Time", 60));
    v.push(("W. Central Africa Standard Time", 60));
    v.push(("E. Europe Standard Time", 120));
    v.push(("South Africa Standard Time", 120));
    v.push(("FLE Standard Time", 120));
    v.push(("Israel Standard Time", 120));
    v.push(("Turkey Standard Time", 180));
    v.push(("Russian Standard Time", 180));
    v.push(("E. Africa Standard Time", 180));
    v.push(("Arabian Standard Time", 240));
    v.push(("Iran Standard Time", 210));
    v.push(("Afghanistan Standard Time", 270));
    v.push(("Pakistan Standard Time", 300));
    v.push(("India Standard Time", 330));
    v.push(("Bangladesh Standard Time", 360));
    v.push(("SE Asia Standard Time", 420));
    v.push(("China Standard Time", 480));
    v.push(("Singapore Standard Time", 480));
    v.push(("Tokyo Standard Time", 540));
    v.push(("AUS Eastern Standard Time", 600));
    v.push(("E. Australia Standard Time", 600));
    v.push(("New Zealand Standard Time", 720));
    assert(v@.len() == time_zone_table().len());
    assert forall|i: int| 0 <= i < v@.len() implies (#[trigger] v@[i].0@, v@[i].1 as int) == time_zone_table()[i] && -720 <= v@[i].1 <= 720 by {
        reveal(time_zone_table);
    }
    v
}


/// The offset in minutes of the time zone `tz_id` in `time_zone_table`.
pub fn zone_minutes(tz_id: &str) -> (r: Option<i32>)
    ensures
        match r {
            Some(m) => table_minutes(time_zone_table(), tz_id@) == Some(m as int) && -720 <= m <= 720,
            None => table_minutes(time_zone_table(), tz_id@) is None,
        },
{
    let table = time_zone_entries();
    let n = table.len();
    assert(time_zone_table().skip(0) =~= time_zone_table());
    for i in 0..n
        invariant
            n == table@.len() == time_zone_table().len(),
            forall|j: int| 0 <= j < n ==> (#[trigger] table@[j].0@, table@[j].1 as int) == time_zone_table()[j],
            forall|j: int| 0 <= j < n ==> -720 <= #[trigger] table@[j].1 <= 720,
            table_minutes(time_zone_table(), tz_id@) == table_minutes(time_zone_table().skip(i as int), tz_id@),
    {
        let ghost rest = time_zone_table().skip(i as int);
        assert(rest[0] == time_zone_table()[i as int]);
        assert(rest.drop_first() =~= time_zone_table().skip(i + 1));
        assert(table@[i as int].0@ == rest[0].0);
        if str_equal(table[i].0, tz_id) {
            return Some(table[i].1);
        }
    }
    assert(time_zone_table().skip(n as int) =~= Seq::<(Seq<char>, int)>::empty());
    None
}

} // verus!
