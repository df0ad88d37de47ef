//! The table of cities for each time zone, read from its text: one
//! `Zone Id=City, City, ...` line per zone.

use vstd::prelude::*;
use crate::assoc::{keys_unique, assoc_map};
use crate::location::Location;
use crate::text::{lemma_trim_range, lemma_split_on_join, lemma_split_on_lacking, lacks, is_white_space, chars_of, trim, split_on, first_index, lemma_first_index, trim_bounds, find_char, string_of_range, str_equal, lowercase, to_lowercase};

verus! {

/// A city name that the table keeps: not empty, not `PST8PDT`, and not a
/// `GMT` name longer than `GMT` itself.
pub open spec fn keep_city(c: Seq<char>) -> bool {
    &&& c.len() > 0
    &&& c != seq!['P', 'S', 'T', '8', 'P', 'D', 'T']
    &&& !(c.len() > 3 && c[0] == 'G' && c[1] == 'M' && c[2] == 'T')
}

/// The cities of the comma-separated `parts`: each trimmed, those kept by
/// `keep_city`, in order.
pub open spec fn city_list(parts: Seq<Seq<char>>) -> Seq<Seq<char>>
    decreases parts.len(),
{
    if parts.len() == 0 {
        Seq::empty()
    } else {
        let rest = city_list(parts.drop_last());
        let c = trim(parts.last());
        if keep_city(c) {
            rest.push(c)
        } else {
            rest
        }
    }
}

/// What a line of the table gives: nothing when, trimmed, it is empty,
/// starts with `;` or has no `=`; else the trimmed zone id before the first
/// `=` and the cities after it.
pub open spec fn zone_line(line: Seq<char>) -> Option<(Seq<char>, Seq<Seq<char>>)> {
    let t = trim(line);
    if t.len() == 0 || t[0] == ';' {
        None
    } else {
        let e = first_index(t, '=');
        if e < t.len() {
            Some((trim(t.take(e)), city_list(split_on(t.skip(e + 1), ','))))
        } else {
            None
        }
    }
}

/// What the lines give, in order.
pub open spec fn zone_lines(lines: Seq<Seq<char>>) -> Seq<(Seq<char>, Seq<Seq<char>>)>
    decreases lines.len(),
{
    if lines.len() == 0 {
        Seq::empty()
    } else {
        let rest = zone_lines(lines.drop_last());
        match zone_line(lines.last()) {
            Some(x) => rest.push(x),
            None => rest,
        }
    }
}

/// The zones and their cities that the table text holds.
pub open spec fn zone_entries(text: Seq<char>) -> Seq<(Seq<char>, Seq<Seq<char>>)> {
    zone_lines(split_on(text, '\n'))
}

/// Zones with their cities, seen as characters.
pub open spec fn zone_entries_view(v: Seq<(String, Vec<String>)>) -> Seq<(Seq<char>, Seq<Seq<char>>)> {
    Seq::new(v.len(), |i: int| (v[i].0@, Seq::new(v[i].1@.len(), |j: int| v[i].1@[j]@)))
}

/// The cities of `v[lo..hi]`, read as `city_list` of its comma-separated
/// parts says.
fn cities_in(v: &Vec<char>, lo: usize, hi: usize) -> (r: Vec<String>)
    requires
        lo <= hi <= v@.len(),
    ensures
        Seq::new(r@.len(), |j: int| r@[j]@) == city_list(split_on(v@.subrange(lo as int, hi as int), ',')),
{
    let ghost seg = v@.subrange(lo as int, hi as int);
    let mut cities: Vec<String> = Vec::new();
    let mut start = lo;
    let mut i = lo;
    while i < hi
        invariant
            lo <= start <= i <= hi <= v@.len(),
            seg == v@.subrange(lo as int, hi as int),
            split_on(seg.take(i - lo), ',').len() >= 1,
            Seq::new(cities@.len(), |j: int| cities@[j]@) == city_list(split_on(seg.take(i - lo), ',').drop_last()),
            split_on(seg.take(i - lo), ',').last() == v@.subrange(start as int, i as int),
        decreases hi - i,
    {
        let ghost pieces = split_on(seg.take(i - lo), ',');
        assert(seg.take(i - lo + 1).drop_last() =~= seg.take(i - lo));
        assert(seg.take(i - lo + 1).last() == v@[i as int]);
        if v[i] == ',' {
            let (a, b) = trim_bounds(v, start, i);
            if a < b && keep(v, a, b) {
                cities.push(string_of_range(v, a, b));
            }
            proof {
                let next = split_on(seg.take(i - lo + 1), ',');
                assert(next == pieces.push(Seq::empty()));
                assert(next.drop_last() =~= pieces);
                assert(pieces.drop_last().push(pieces.last()) =~= pieces);
                assert(Seq::new(cities@.len(), |j: int| cities@[j]@) =~= city_list(pieces));
                assert(v@.subrange(i + 1, i + 1) =~= Seq::<char>::empty());
            }
            start = i + 1;
        } else {
            proof {
                let next = split_on(seg.take(i - lo + 1), ',');
                assert(next.drop_last() =~= pieces.drop_last());
                assert(v@.subrange(start as int, i + 1) =~= v@.subrange(start as int, i as int).push(v@[i as int]));
            }
        }
        i = i + 1;
    }
    let ghost pieces = split_on(seg, ',');
    assert(seg.take(hi - lo) =~= seg);
    let (a, b) = trim_bounds(v, start, hi);
    if a < b && keep(v, a, b) {
        cities.push(string_of_range(v, a, b));
    }
    assert(pieces.drop_last().push(pieces.last()) =~= pieces);
    assert(Seq::new(cities@.len(), |j: int| cities@[j]@) =~= city_list(pieces));
    cities
}

/// Whether the nonempty city name `v[a..b]` is kept (`keep_city`).
fn keep(v: &Vec<char>, a: usize, b: usize) -> (r: bool)
    requires
        a < b <= v@.len(),
    ensures
        r == keep_city(v@.subrange(a as int, b as int)),
{
    let c = string_of_range(v, a, b);
    proof {
        reveal_strlit("PST8PDT");
        assert("PST8PDT"@ =~= seq!['P', 'S', 'T', '8', 'P', 'D', 'T']);
    }
    if str_equal(c.as_str(), "PST8PDT") {
        return false;
    }
    !(b - a > 3 && v[a] == 'G' && v[a + 1] == 'M' && v[a + 2] == 'T')
}

/// The zone and cities of the line `v[lo..hi]`, as `zone_line` says.
fn zone_line_at(v: &Vec<char>, lo: usize, hi: usize) -> (r: Option<(String, Vec<String>)>)
    requires
        lo <= hi <= v@.len(),
    ensures
        match r {
            Some(x) => zone_line(v@.subrange(lo as int, hi as int)) == Some(
                (x.0@, Seq::new(x.1@.len(), |j: int| x.1@[j]@)),
            ),
            None => zone_line(v@.subrange(lo as int, hi as int)) is None,
        },
{
    let (a, b) = trim_bounds(v, lo, hi);
    let ghost t = v@.subrange(a as int, b as int);
    if a == b || v[a] == ';' {
        return None;
    }
    let e = find_char(v, a, b, '=');
    if a + e < b {
        proof {
            lemma_first_index(t, '=');
        }
        let (ka, kb) = trim_bounds(v, a, a + e);
        let zone = string_of_range(v, ka, kb);
        let cities = cities_in(v, a + e + 1, b);
        assert(t.take(e as int) =~= v@.subrange(a as int, a + e));
        assert(t.skip(e + 1) =~= v@.subrange(a + e + 1, b as int));
        Some((zone, cities))
    } else {
        None
    }
}

/// The zones of the table `text`, each with its cities, as `zone_entries`
/// says.
pub fn load_entries(text: &str) -> (r: Vec<(String, Vec<String>)>)
    ensures
        zone_entries_view(r@) == zone_entries(text@),
{
    let v = chars_of(text);
    let n = v.len();
    let mut out: Vec<(String, Vec<String>)> = Vec::new();
    let mut start: usize = 0;
    for i in 0..n
        invariant
            n == v@.len(),
            start <= i,
            split_on(v@.take(i as int), '\n').len() >= 1,
            zone_entries_view(out@) == zone_lines(split_on(v@.take(i as int), '\n').drop_last()),
            split_on(v@.take(i as int), '\n').last() == v@.subrange(start as int, i as int),
    {
        let ghost pieces = split_on(v@.take(i as int), '\n');
        assert(v@.take(i + 1).drop_last() =~= v@.take(i as int));
        if v[i] == '\n' {
            match zone_line_at(&v, start, i) {
                Some(x) => {
                    out.push(x);
                },
                None => {},
            }
            proof {
                let next = split_on(v@.take(i + 1), '\n');
                assert(next == pieces.push(Seq::empty()));
                assert(next.drop_last() =~= pieces);
                assert(pieces.drop_last().push(pieces.last()) =~= pieces);
                assert(zone_entries_view(out@) =~= zone_lines(pieces));
                assert(v@.subrange(i + 1, i + 1) =~= Seq::<char>::empty());
            }
            start = i + 1;
        } else {
            proof {
                let next = split_on(v@.take(i + 1), '\n');
                assert(next.drop_last() =~= pieces.drop_last());
                assert(v@.subrange(start as int, i + 1) =~= v@.subrange(start as int, i as int).push(v@[i as int]));
            }
        }
    }
    let ghost pieces = split_on(v@, '\n');
    assert(v@.take(n as int) =~= v@);
    match zone_line_at(&v, start, n) {
        Some(x) => {
            out.push(x);
        },
        None => {},
    }
    assert(pieces.drop_last().push(pieces.last()) =~= pieces);
    assert(zone_entries_view(out@) =~= zone_lines(pieces));
    out
}


/// Each city of each zone, in order, paired with its zone id.
pub open spec fn city_zones(es: Seq<(Seq<char>, Seq<Seq<char>>)>) -> Seq<(Seq<char>, Seq<char>)>
    decreases es.len(),
{
    if es.len() == 0 {
        Seq::empty()
    } else {
        city_zones(es.drop_last()) + Seq::new(es.last().1.len(), |j: int| (es.last().1[j], es.last().0))
    }
}

/// Each city's name in lower case to its zone, later lines taking over an
/// earlier same name.
pub open spec fn city_zone_map(ps: Seq<(Seq<char>, Seq<char>)>) -> Map<Seq<char>, Seq<char>>
    decreases ps.len(),
{
    if ps.len() == 0 {
        Map::empty()
    } else {
        city_zone_map(ps.drop_last()).insert(lowercase(ps.last().0), ps.last().1)
    }
}

/// The city table holds exactly the lower-cased names of the cities, and
/// each name's zone is that of the last city with that name.
pub proof fn lemma_city_zone_map_last(ps: Seq<(Seq<char>, Seq<char>)>, k: Seq<char>)
    ensures
        city_zone_map(ps).contains_key(k) <==> exists|j: int|
            0 <= j < ps.len() && lowercase(#[trigger] ps[j].0) == k,
        city_zone_map(ps).contains_key(k) ==> exists|j: int|
            0 <= j < ps.len() && lowercase(#[trigger] ps[j].0) == k && city_zone_map(ps)[k] == ps[j].1
                && forall|t: int| j < t < ps.len() ==> lowercase(#[trigger] ps[t].0) != k,
    decreases ps.len(),
{
    if ps.len() > 0 {
        let p = ps.drop_last();
        lemma_city_zone_map_last(p, k);
        let n = ps.len() - 1;
        assert(ps[n] == ps.last());
        assert forall|j: int| 0 <= j < p.len() implies #[trigger] p[j] == ps[j] by {}
        if lowercase(ps[n].0) == k {
            assert(city_zone_map(ps)[k] == ps[n].1);
        } else {
            if city_zone_map(ps).contains_key(k) {
                let j = choose|j: int|
                    0 <= j < p.len() && lowercase(#[trigger] p[j].0) == k && city_zone_map(p)[k] == p[j].1
                        && forall|t: int| j < t < p.len() ==> lowercase(#[trigger] p[t].0) != k;
                assert(ps[j] == p[j]);
                assert forall|t: int| j < t < ps.len() implies lowercase(#[trigger] ps[t].0) != k by {
                    if t < n {
                        assert(ps[t] == p[t]);
                    }
                }
            }
            if exists|j: int| 0 <= j < ps.len() && lowercase(#[trigger] ps[j].0) == k {
                let j = choose|j: int| 0 <= j < ps.len() && lowercase(#[trigger] ps[j].0) == k;
                assert(j < n);
                assert(p[j] == ps[j]);
            }
        }
    }
}

/// The cities of the table `text` as locations, in order: each named after
/// its city, in its zone, with no time worked out yet.
pub fn build_available_locations(text: &str) -> (r: Vec<Location>)
    ensures
        r@.len() == city_zones(zone_entries(text@)).len(),
        forall|i: int|
            #![trigger r@[i]]
            0 <= i < r@.len() ==> r@[i].is_new(
                city_zones(zone_entries(text@))[i].1,
                city_zones(zone_entries(text@))[i].0,
            ),
{
    let entries = load_entries(text);
    let ghost es = zone_entries(text@);
    let mut v: Vec<Location> = Vec::new();
    let n = entries.len();
    for i in 0..n
        invariant
            n == entries@.len(),
            zone_entries_view(entries@) == es,
            v@.len() == city_zones(es.take(i as int)).len(),
            forall|k: int|
                #![trigger v@[k]]
                0 <= k < v@.len() ==> v@[k].is_new(
                    city_zones(es.take(i as int))[k].1,
                    city_zones(es.take(i as int))[k].0,
                ),
    {
        let zone = &entries[i].0;
        let cities = &entries[i].1;
        let m = cities.len();
        let ghost prefix = city_zones(es.take(i as int));
        assert(es.take(i + 1).drop_last() =~= es.take(i as int));
        assert(es.take(i + 1).last() == es[i as int]);
        assert(es[i as int] == zone_entries_view(entries@)[i as int]);
        let ghost added = Seq::new(es[i as int].1.len(), |j: int| (es[i as int].1[j], es[i as int].0));
        for j in 0..m
            invariant
                m == cities@.len(),
                cities@ == entries@[i as int].1@,
                zone@ == es[i as int].0,
                es[i as int].1 == Seq::new(cities@.len(), |t: int| cities@[t]@),
                added == Seq::new(es[i as int].1.len(), |t: int| (es[i as int].1[t], es[i as int].0)),
                v@.len() == prefix.len() + j,
                forall|k: int|
                    #![trigger v@[k]]
                    0 <= k < v@.len() ==> v@[k].is_new(
                        (prefix + added)[k].1,
                        (prefix + added)[k].0,
                    ),
        {
            let loc = Location::new(zone.as_str(), cities[j].as_str());
            v.push(loc);
        }
        assert(city_zones(es.take(i + 1)) =~= prefix + added);
    }
    assert(es.take(n as int) =~= es);
    v
}

/// The pairs of `map` seen as characters.
pub open spec fn pairs_of(map: Seq<(String, String)>) -> Seq<(Seq<char>, Seq<char>)> {
    Seq::new(map.len(), |t: int| (map[t].0@, map[t].1@))
}

/// Sets `key` to `value` in a list of pairs with distinct keys: in place
/// when the key is there, else at the end.
fn map_insert(map: &mut Vec<(String, String)>, key: String, value: String)
    requires
        keys_unique(pairs_of(old(map)@)),
    ensures
        keys_unique(pairs_of(final(map)@)),
        assoc_map(pairs_of(final(map)@)) == assoc_map(pairs_of(old(map)@)).insert(key@, value@),
{
    let ghost before = pairs_of(map@);
    let len = map.len();
    let mut pos: Option<usize> = None;
    for t in 0..len
        invariant
            len == map@.len(),
            before == pairs_of(map@),
            match pos {
                Some(p) => p < len && before[p as int].0 == key@,
                None => forall|u: int| 0 <= u < t ==> #[trigger] before[u].0 != key@,
            },
    {
        if pos.is_none() && str_equal(map[t].0.as_str(), key.as_str()) {
            pos = Some(t);
        }
    }
    match pos {
        Some(t) => {
            let (k, _) = map.remove(t);
            map.insert(t, (k, value));
            proof {
                assert(pairs_of(map@) =~= before.update(t as int, (before[t as int].0, value@)));
                crate::assoc::lemma_assoc_update(before, t as int, value@);
            }
        },
        None => {
            map.push((key, value));
            proof {
                assert(pairs_of(map@) =~= before.insert(before.len() as int, (key@, value@)));
                crate::assoc::lemma_assoc_insert(before, before.len() as int, key@, value@);
            }
        },
    }
}

/// Each city's name in lower case with its zone id: no name twice, and
/// a name's zone that of its last line (`city_zone_map`).
pub fn build_city_to_tz_map(text: &str) -> (r: Vec<(String, String)>)
    ensures
        keys_unique(pairs_of(r@)),
        assoc_map(pairs_of(r@)) == city_zone_map(
            city_zones(zone_entries(text@)),
        ),
{
    let entries = load_entries(text);
    let ghost es = zone_entries(text@);
    let ghost ps = city_zones(es);
    let mut map: Vec<(String, String)> = Vec::new();
    let n = entries.len();
    assert(pairs_of(map@) =~= Seq::<(Seq<char>, Seq<char>)>::empty());
    assert(assoc_map(Seq::<(Seq<char>, Seq<char>)>::empty()) =~= Map::<Seq<char>, Seq<char>>::empty());
    for i in 0..n
        invariant
            n == entries@.len(),
            zone_entries_view(entries@) == es,
            keys_unique(pairs_of(map@)),
            assoc_map(pairs_of(map@)) == city_zone_map(
                city_zones(es.take(i as int)),
            ),
    {
        let zone = &entries[i].0;
        let cities = &entries[i].1;
        let m = cities.len();
        let ghost prefix = city_zones(es.take(i as int));
        assert(es.take(i + 1).drop_last() =~= es.take(i as int));
        assert(es.take(i + 1).last() == es[i as int]);
        assert(es[i as int] == zone_entries_view(entries@)[i as int]);
        let ghost added = Seq::new(es[i as int].1.len(), |j: int| (es[i as int].1[j], es[i as int].0));
        assert((prefix + added).take(prefix.len() as int) =~= prefix);
        for j in 0..m
            invariant
                m == cities@.len(),
                cities@ == entries@[i as int].1@,
                zone@ == es[i as int].0,
                es[i as int].1 == Seq::new(cities@.len(), |t: int| cities@[t]@),
                added == Seq::new(es[i as int].1.len(), |t: int| (es[i as int].1[t], es[i as int].0)),
                keys_unique(pairs_of(map@)),
                assoc_map(pairs_of(map@)) == city_zone_map(
                    (prefix + added).take(prefix.len() + j),
                ),
        {
            let key = to_lowercase(cities[j].as_str());
            assert((prefix + added).take(prefix.len() + j + 1).drop_last() =~= (prefix + added).take(prefix.len() + j));
            assert((prefix + added).take(prefix.len() + j + 1).last() == (cities@[j as int]@, zone@));
            map_insert(&mut map, key, zone.clone());
        }
        assert((prefix + added).take(prefix.len() + m) =~= prefix + added);
        assert(city_zones(es.take(i + 1)) =~= prefix + added);
    }
    assert(es.take(n as int) =~= es);
    map
}

/// The zones of lines read one after another are those of each part, in
/// order.
proof fn lemma_zone_lines_concat(x: Seq<Seq<char>>, y: Seq<Seq<char>>)
    ensures
        zone_lines(x + y) == zone_lines(x) + zone_lines(y),
    decreases y.len(),
{
    if y.len() == 0 {
        assert(x + y =~= x);
        assert(zone_lines(x) + zone_lines(y) =~= zone_lines(x));
    } else {
        lemma_zone_lines_concat(x, y.drop_last());
        assert((x + y).drop_last() =~= x + y.drop_last());
        assert((x + y).last() == y.last());
        match zone_line(y.last()) {
            Some(z) => {
                assert(zone_lines(x) + zone_lines(y) =~= (zone_lines(x) + zone_lines(y.drop_last())).push(z));
            },
            None => {},
        }
    }
}

/// A line that, trimmed, starts with `;` is a comment and gives nothing.
pub proof fn lemma_comment_line(line: Seq<char>)
    requires
        trim(line).len() > 0,
        trim(line)[0] == ';',
    ensures
        zone_line(line) is None,
{
}

/// A comment line adds nothing to the table: with it, anywhere in the text,
/// the table reads the same zones and cities as without it.
pub proof fn lemma_comment_lines_skipped(a: Seq<char>, c: Seq<char>, b: Seq<char>)
    requires
        lacks(c, '\n'),
        trim(c).len() > 0,
        trim(c)[0] == ';',
    ensures
        zone_entries(a.push('\n') + c.push('\n') + b) == zone_entries(a.push('\n') + b),
        zone_entries(c.push('\n') + b) == zone_entries(b),
{
    lemma_split_on_lacking(c, '\n');
    lemma_split_on_join(c, b, '\n');
    assert(a.push('\n') + c.push('\n') + b =~= a.push('\n') + (c.push('\n') + b));
    lemma_split_on_join(a, c.push('\n') + b, '\n');
    lemma_split_on_join(a, b, '\n');
    let sa = split_on(a, '\n');
    let sb = split_on(b, '\n');
    lemma_zone_lines_concat(seq![c], sb);
    lemma_zone_lines_concat(sa, seq![c] + sb);
    lemma_zone_lines_concat(sa, sb);
    assert(seq![c].drop_last() =~= Seq::<Seq<char>>::empty());
    lemma_comment_line(c);
    assert(seq![c].last() == c);
    assert(zone_lines(seq![c]) == zone_lines(seq![c].drop_last()));
    assert(zone_lines(seq![c]) =~= Seq::<(Seq<char>, Seq<Seq<char>>)>::empty());
    assert(zone_lines(seq![c]) + zone_lines(sb) =~= zone_lines(sb));
}

/// No zone id read from a line starts with `;`: such lines are comments.
pub proof fn lemma_zone_line_id(line: Seq<char>)
    ensures
        zone_line(line) matches Some(z) ==> z.0.len() == 0 || z.0[0] != ';',
{
    let (ta, tb) = lemma_trim_range(line);
    let t = trim(line);
    if t.len() > 0 && t[0] != ';' {
        let e = first_index(t, '=');
        lemma_first_index(t, '=');
        if e < t.len() {
            let kt = t.take(e);
            let (ka, kb) = lemma_trim_range(kt);
            assert(zone_line(line) == Some((trim(kt), city_list(split_on(t.skip(e + 1), ',')))));
            if trim(kt).len() > 0 {
                assert(kt.len() > 0);
                assert(kt[0] == t[0]);
                assert(!is_white_space(t[0]));
                assert(ka == 0);
                assert(trim(kt)[0] == kt[0]);
            }
        }
    }
}

/// No zone read from a table has an id starting with `;`.
pub proof fn lemma_zone_ids_not_comments(text: Seq<char>)
    ensures
        forall|i: int|
            0 <= i < zone_entries(text).len() ==> (#[trigger] zone_entries(text)[i]).0.len() == 0
                || zone_entries(text)[i].0[0] != ';',
{
    lemma_zone_lines_ids(split_on(text, '\n'));
}

proof fn lemma_zone_lines_ids(lines: Seq<Seq<char>>)
    ensures
        forall|i: int|
            0 <= i < zone_lines(lines).len() ==> (#[trigger] zone_lines(lines)[i]).0.len() == 0
                || zone_lines(lines)[i].0[0] != ';',
    decreases lines.len(),
{
    if lines.len() > 0 {
        lemma_zone_lines_ids(lines.drop_last());
        lemma_zone_line_id(lines.last());
        let rest = zone_lines(lines.drop_last());
        assert forall|i: int| 0 <= i < zone_lines(lines).len() implies (#[trigger] zone_lines(lines)[i]).0.len() == 0
            || zone_lines(lines)[i].0[0] != ';' by {
            if i < rest.len() {
                assert(zone_lines(lines)[i] == rest[i]);
            }
        }
    }
}

/// Every city read from a line is one of its comma-separated parts,
/// trimmed, and none is empty, `PST8PDT`, or a `GMT` name longer than
/// `GMT`; every part that is none of these is read.
pub proof fn lemma_city_list_kept(parts: Seq<Seq<char>>)
    ensures
        forall|j: int|
            0 <= j < city_list(parts).len() ==> {
                let c = #[trigger] city_list(parts)[j];
                &&& exists|i: int| 0 <= i < parts.len() && c == trim(#[trigger] parts[i])
                &&& c.len() > 0
                &&& c != "PST8PDT"@
                &&& !(c.len() > 3 && c.take(3) == "GMT"@)
            },
        forall|i: int|
            0 <= i < parts.len() && trim(#[trigger] parts[i]).len() > 0 && trim(parts[i]) != "PST8PDT"@
                && !(trim(parts[i]).len() > 3 && trim(parts[i]).take(3) == "GMT"@) ==> city_list(
                parts,
            ).contains(trim(parts[i])),
    decreases parts.len(),
{
    reveal_strlit("PST8PDT");
    reveal_strlit("GMT");
    assert("PST8PDT"@ =~= seq!['P', 'S', 'T', '8', 'P', 'D', 'T']);
    if parts.len() > 0 {
        let p = parts.drop_last();
        lemma_city_list_kept(p);
        let rest = city_list(p);
        let c = trim(parts.last());
        assert(parts.last() == parts[parts.len() - 1]);
        assert forall|k: Seq<char>| k.len() > 3 implies (k.take(3) == "GMT"@ <==> (k[0] == 'G' && k[1] == 'M' && k[2] == 'T')) by {
            if k[0] == 'G' && k[1] == 'M' && k[2] == 'T' {
                assert(k.take(3) =~= "GMT"@);
            }
            if k.take(3) == "GMT"@ {
                assert(k.take(3)[0] == k[0] && k.take(3)[1] == k[1] && k.take(3)[2] == k[2]);
            }
        }
        assert forall|j: int| 0 <= j < city_list(parts).len() implies {
            let x = #[trigger] city_list(parts)[j];
            &&& exists|i: int| 0 <= i < parts.len() && x == trim(#[trigger] parts[i])
            &&& x.len() > 0
            &&& x != "PST8PDT"@
            &&& !(x.len() > 3 && x.take(3) == "GMT"@)
        } by {
            if j < rest.len() {
                assert(city_list(parts)[j] == rest[j]);
                let i = choose|i: int| 0 <= i < p.len() && rest[j] == trim(#[trigger] p[i]);
                assert(p[i] == parts[i]);
            } else {
                assert(city_list(parts)[j] == c);
            }
        }
        assert forall|i: int|
            0 <= i < parts.len() && trim(#[trigger] parts[i]).len() > 0 && trim(parts[i]) != "PST8PDT"@
                && !(trim(parts[i]).len() > 3 && trim(parts[i]).take(3) == "GMT"@) implies city_list(
                parts,
            ).contains(trim(parts[i])) by {
            if i < p.len() {
                assert(p[i] == parts[i]);
                let j = choose|j: int| 0 <= j < rest.len() && rest[j] == trim(p[i]);
                if keep_city(c) {
                    assert(city_list(parts)[j] == rest[j]);
                }
            } else {
                assert(city_list(parts)[rest.len() as int] == c);
            }
        }
    }
}

} // verus!
