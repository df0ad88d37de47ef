//! A small INI store: named sections of `key=value` entries, read from and
//! written to text, with sections and keys kept in `String` order.

use vstd::prelude::*;
use crate::assoc::{lemma_sorted_insert, lemma_sorted_remove, keys_of, key_views, strictly_sorted, keys_sorted, keys_unique, assoc_map, lemma_sorted_unique, lemma_assoc_lookup, lemma_assoc_absent, lemma_assoc_update, lemma_assoc_insert, lemma_assoc_remove, find_key};
use crate::text::{str_lt, lemma_str_lt_order, chars_of, trim, split_on, first_index, trim_bounds, find_char, string_of_range, push_str, push_char};
use crate::number::{parsed_i32, parse_i32_range, int_text, int_to_string};

verus! {

/// The INI text of the file at `path`, held as sections of entries; both
/// kept in increasing `String` order of their names.
pub struct IniFile {
    sections: Vec<(String, Vec<(String, String)>)>,
    path: String,
}

/// The entries of a section, each key and value as characters.
pub open spec fn pairs_view(e: Seq<(String, String)>) -> Seq<(Seq<char>, Seq<char>)> {
    Seq::new(e.len(), |i: int| (e[i].0@, e[i].1@))
}

/// Both levels of an INI store are in strictly increasing name order.
pub open spec fn ini_wf(v: Seq<(Seq<char>, Seq<(Seq<char>, Seq<char>)>)>) -> bool {
    &&& keys_sorted(v)
    &&& forall|i: int| 0 <= i < v.len() ==> keys_sorted(#[trigger] v[i].1)
}

/// The sections of a store, each paired with the map of its entries.
pub open spec fn section_maps(v: Seq<(Seq<char>, Seq<(Seq<char>, Seq<char>)>)>) -> Seq<
    (Seq<char>, Map<Seq<char>, Seq<char>>),
> {
    Seq::new(v.len(), |i: int| (v[i].0, assoc_map(v[i].1)))
}

/// What a store holds: section name to (key to value).
pub open spec fn ini_model(v: Seq<(Seq<char>, Seq<(Seq<char>, Seq<char>)>)>) -> Map<
    Seq<char>,
    Map<Seq<char>, Seq<char>>,
> {
    assoc_map(section_maps(v))
}

/// The value stored under `section` and `key`, if any.
pub open spec fn ini_get(
    m: Map<Seq<char>, Map<Seq<char>, Seq<char>>>,
    section: Seq<char>,
    key: Seq<char>,
) -> Option<Seq<char>> {
    if m.contains_key(section) && m[section].contains_key(key) {
        Some(m[section][key])
    } else {
        None
    }
}

/// `m` with `key` set to `value` in `section`, the section made when missing.
pub open spec fn ini_set(
    m: Map<Seq<char>, Map<Seq<char>, Seq<char>>>,
    section: Seq<char>,
    key: Seq<char>,
    value: Seq<char>,
) -> Map<Seq<char>, Map<Seq<char>, Seq<char>>> {
    let entries = if m.contains_key(section) {
        m[section]
    } else {
        Map::empty()
    };
    m.insert(section, entries.insert(key, value))
}

/// What `get_int` reads: the stored value parsed as an `i32`, or `default`
/// when there is no value or it does not parse.
pub open spec fn int_or(value: Option<Seq<char>>, default: i32) -> i32 {
    match value {
        Some(v) => match parsed_i32(v) {
            Some(n) => n,
            None => default,
        },
        None => default,
    }
}

/// The state of reading INI text: the current section and what has been
/// read so far.
pub type ReadState = (Seq<char>, Map<Seq<char>, Map<Seq<char>, Seq<char>>>);

/// Reads one line: blank lines and lines starting with `;` or `#` are
/// skipped; `[name]` makes `name` the current section; `key=value` (split
/// at the first `=`, both sides trimmed) sets the key in the current
/// section; any other line is skipped.
pub open spec fn read_line(st: ReadState, line: Seq<char>) -> ReadState {
    let t = trim(line);
    if t.len() == 0 || t[0] == ';' || t[0] == '#' {
        st
    } else if t[0] == '[' && t.last() == ']' {
        (t.subrange(1, t.len() - 1), st.1)
    } else {
        let e = first_index(t, '=');
        if e < t.len() {
            (st.0, ini_set(st.1, st.0, trim(t.take(e)), trim(t.skip(e + 1))))
        } else {
            st
        }
    }
}

/// Reads `lines` in order from the state `st`.
pub open spec fn read_lines(st: ReadState, lines: Seq<Seq<char>>) -> ReadState
    decreases lines.len(),
{
    if lines.len() == 0 {
        st
    } else {
        read_line(read_lines(st, lines.drop_last()), lines.last())
    }
}

/// The section that entries before any `[section]` line go to.
pub open spec fn root_section() -> Seq<char> {
    seq!['R', 'O', 'O', 'T']
}

/// What INI text holds: its lines read in order, starting in the section
/// `ROOT` with nothing stored.
pub open spec fn text_model(text: Seq<char>) -> Map<Seq<char>, Map<Seq<char>, Seq<char>>> {
    read_lines((root_section(), Map::empty()), split_on(text, '\n')).1
}

/// The text of entries: `key=value` and a line break for each.
pub open spec fn entries_text(e: Seq<(Seq<char>, Seq<char>)>) -> Seq<char>
    decreases e.len(),
{
    if e.len() == 0 {
        Seq::empty()
    } else {
        entries_text(e.drop_last()) + e.last().0 + seq!['='] + e.last().1 + seq!['\n']
    }
}

/// The text of a section: nothing when it has no entries, else `[name]`,
/// its entries and an empty line.
pub open spec fn section_text(name: Seq<char>, e: Seq<(Seq<char>, Seq<char>)>) -> Seq<char> {
    if e.len() == 0 {
        Seq::empty()
    } else {
        seq!['['] + name + seq![']', '\n'] + entries_text(e) + seq!['\n']
    }
}

/// The text of a store: its sections' texts in order.
pub open spec fn ini_text(v: Seq<(Seq<char>, Seq<(Seq<char>, Seq<char>)>)>) -> Seq<char>
    decreases v.len(),
{
    if v.len() == 0 {
        Seq::empty()
    } else {
        ini_text(v.drop_last()) + section_text(v.last().0, v.last().1)
    }
}

/// The entries of the section named `name`, in key order; none when there
/// is no such section.
pub open spec fn section_entries(
    v: Seq<(Seq<char>, Seq<(Seq<char>, Seq<char>)>)>,
    name: Seq<char>,
) -> Seq<(Seq<char>, Seq<char>)> {
    if exists|i: int| 0 <= i < v.len() && v[i].0 == name {
        v[choose|i: int| 0 <= i < v.len() && v[i].0 == name].1
    } else {
        Seq::empty()
    }
}

/// Sections held as owned strings, seen as characters.
pub open spec fn sections_view(secs: Seq<(String, Vec<(String, String)>)>) -> Seq<
    (Seq<char>, Seq<(Seq<char>, Seq<char>)>),
> {
    Seq::new(secs.len(), |i: int| (secs[i].0@, pairs_view(secs[i].1@)))
}

/// Sets `key` to `value` among entries kept in strict key order.
fn entries_set(entries: &mut Vec<(String, String)>, key: &str, value: &str)
    requires
        strictly_sorted(key_views(old(entries)@)),
    ensures
        strictly_sorted(key_views(final(entries)@)),
        assoc_map(pairs_view(final(entries)@)) == assoc_map(pairs_view(old(entries)@)).insert(
            key@,
            value@,
        ),
{
    let ghost e0 = pairs_view(entries@);
    proof {
        lemma_key_views_pairs(entries@);
        lemma_sorted_unique(e0);
    }
    match find_key(entries, key) {
        Ok(j) => {
            let (k, _) = entries.remove(j);
            entries.insert(j, (k, value.to_owned()));
            proof {
                assert(pairs_view(entries@) =~= e0.update(j as int, (e0[j as int].0, value@)));
                assert(key_views(entries@) =~= key_views(old(entries)@));
                lemma_assoc_update(e0, j as int, value@);
            }
        },
        Err(p) => {
            entries.insert(p, (key.to_owned(), value.to_owned()));
            proof {
                assert(pairs_view(entries@) =~= e0.insert(p as int, (key@, value@)));
                assert(key_views(entries@) =~= key_views(old(entries)@).insert(p as int, key@));
                lemma_sorted_insert(key_views(old(entries)@), p as int, key@);
                lemma_not_among(key_views(old(entries)@), key@, p as int);
                assert forall|t: int| 0 <= t < e0.len() implies e0[t].0 != key@ by {
                    assert(e0[t].0 == key_views(old(entries)@)[t]);
                }
                lemma_assoc_insert(e0, p as int, key@, value@);
            }
        },
    }
}

impl View for IniFile {
    type V = Seq<(Seq<char>, Seq<(Seq<char>, Seq<char>)>)>;

    /// The sections in order, each with its entries in order.
    closed spec fn view(&self) -> Self::V {
        sections_view(self.sections@)
    }
}

proof fn lemma_key_views_pairs(e: Seq<(String, String)>)
    ensures
        key_views(e) == keys_of(pairs_view(e)),
{
    assert(key_views(e) =~= keys_of(pairs_view(e)));
}

/// `k` is below or above every key of `ks`, so none of them equals it.
proof fn lemma_not_among(ks: Seq<Seq<char>>, k: Seq<char>, p: int)
    requires
        0 <= p <= ks.len(),
        forall|j: int| 0 <= j < p ==> str_lt(#[trigger] ks[j], k),
        forall|j: int| p <= j < ks.len() ==> str_lt(k, #[trigger] ks[j]),
    ensures
        forall|j: int| 0 <= j < ks.len() ==> ks[j] != k,
{
    assert forall|j: int| 0 <= j < ks.len() implies ks[j] != k by {
        lemma_str_lt_order(k, k, k);
        if j < p {
            assert(str_lt(ks[j], k));
        } else {
            assert(str_lt(k, ks[j]));
        }
    }
}

impl IniFile {
    #[verifier::type_invariant]
    spec fn well_formed(self) -> bool {
        ini_wf(self@)
    }

    /// What the store holds, as nested maps.
    pub open spec fn model(&self) -> Map<Seq<char>, Map<Seq<char>, Seq<char>>> {
        ini_model(self@)
    }

    /// The file the store was read from and is written to.
    pub closed spec fn path_view(&self) -> Seq<char> {
        self.path@
    }

    proof fn lemma_views(&self)
        requires
            ini_wf(self@),
        ensures
            strictly_sorted(key_views(self.sections@)),
            keys_unique(self@),
            keys_of(section_maps(self@)) == keys_of(self@),
            keys_unique(section_maps(self@)),
            forall|i: int|
                0 <= i < self.sections@.len() ==> strictly_sorted(
                    key_views(#[trigger] self.sections@[i].1@),
                ),
    {
        assert(key_views(self.sections@) =~= keys_of(self@));
        assert(keys_of(section_maps(self@)) =~= keys_of(self@));
        lemma_sorted_unique(self@);
        lemma_sorted_unique(section_maps(self@));
        assert forall|i: int| 0 <= i < self.sections@.len() implies strictly_sorted(
            key_views(#[trigger] self.sections@[i].1@),
        ) by {
            lemma_key_views_pairs(self.sections@[i].1@);
            assert(keys_sorted(self@[i].1));
        }
    }

    /// Where the section `name` stands: `Some(i)` when `self@[i]` is it.
    fn section_index(&self, name: &str) -> (r: Option<usize>)
        ensures
            match r {
                Some(i) => i < self@.len() && self@[i as int].0 == name@ && self.model().contains_key(
                    name@,
                ) && self.model()[name@] == assoc_map(self@[i as int].1) && section_entries(
                    self@,
                    name@,
                ) == self@[i as int].1,
                None => !self.model().contains_key(name@) && section_entries(self@, name@)
                    == Seq::<(Seq<char>, Seq<char>)>::empty(),
            },
    {
        proof {
            use_type_invariant(self);
            self.lemma_views();
        }
        match find_key(&self.sections, name) {
            Ok(i) => {
                proof {
                    assert(self@[i as int].0 == name@);
                    assert(section_maps(self@)[i as int].0 == name@);
                    lemma_assoc_lookup(section_maps(self@), i as int);
                    assert(self.model().contains_key(name@));
                    let j = choose|j: int| 0 <= j < self@.len() && self@[j].0 == name@;
                    assert(self@[j].0 == self@[i as int].0);
                    assert(j == i);
                    assert(section_entries(self@, name@) == self@[i as int].1);
                }
                Some(i)
            },
            Err(p) => {
                proof {
                    lemma_not_among(key_views(self.sections@), name@, p as int);
                    assert forall|j: int| 0 <= j < self@.len() implies section_maps(self@)[j].0 != name@ by {
                        assert(section_maps(self@)[j].0 == key_views(self.sections@)[j]);
                    }
                    assert(!exists|j: int| 0 <= j < self@.len() && self@[j].0 == name@) by {
                        assert forall|j: int| 0 <= j < self@.len() implies self@[j].0 != name@ by {
                            assert(section_maps(self@)[j].0 == self@[j].0);
                        }
                    }
                    lemma_assoc_absent(section_maps(self@), name@);
                }
                None
            },
        }
    }

    /// Whether the store has a section named `section`.
    pub fn section_exists(&self, section: &str) -> (r: bool)
        ensures
            r == self.model().contains_key(section@),
            !r ==> section_entries(self@, section@) == Seq::<(Seq<char>, Seq<char>)>::empty(),
    {
        self.section_index(section).is_some()
    }

    /// The file the store was read from and is written to.
    pub fn path(&self) -> (r: &str)
        ensures
            r@ == self.path_view(),
    {
        self.path.as_str()
    }

    /// An empty store for the file at `path`.
    pub fn new(path: &str) -> (r: IniFile)
        ensures
            r@ == Seq::<(Seq<char>, Seq<(Seq<char>, Seq<char>)>)>::empty(),
            r.model() == Map::<Seq<char>, Map<Seq<char>, Seq<char>>>::empty(),
            r.path_view() == path@,
    {
        let r = IniFile { sections: Vec::new(), path: path.to_owned() };
        assert(r@ =~= Seq::<(Seq<char>, Seq<(Seq<char>, Seq<char>)>)>::empty());
        assert(r.model() =~= Map::<Seq<char>, Map<Seq<char>, Seq<char>>>::empty());
        r
    }

    /// The keys of `section`, in increasing order; none when there is no
    /// such section.
    pub fn get_keys(&self, section: &str) -> (r: Vec<String>)
        ensures
            r@.len() == section_entries(self@, section@).len(),
            forall|i: int|
                0 <= i < r@.len() ==> #[trigger] r@[i]@ == section_entries(self@, section@)[i].0,
            keys_sorted(section_entries(self@, section@)),
            self.model().contains_key(section@) ==> self.model()[section@] == assoc_map(
                section_entries(self@, section@),
            ),
    {
        proof {
            use_type_invariant(self);
        }
        let mut keys: Vec<String> = Vec::new();
        match self.section_index(section) {
            Some(i) => {
                let entries = &self.sections[i].1;
                let n = entries.len();
                for j in 0..n
                    invariant
                        n == entries@.len(),
                        i < self@.len(),
                        entries@ == self.sections@[i as int].1@,
                        section_entries(self@, section@) == self@[i as int].1,
                        keys@.len() == j,
                        forall|t: int|
                            0 <= t < j ==> #[trigger] keys@[t]@ == section_entries(
                                self@,
                                section@,
                            )[t].0,
                {
                    keys.push(entries[j].0.clone());
                }
            },
            None => {
                assert(keys_of(Seq::<(Seq<char>, Seq<char>)>::empty()) =~= Seq::<Seq<char>>::empty());
            },
        }
        keys
    }

    /// The value under `section` and `key`, if the store has one.
    pub fn get_string(&self, section: &str, key: &str) -> (r: Option<&str>)
        ensures
            match r {
                Some(v) => ini_get(self.model(), section@, key@) == Some(v@),
                None => ini_get(self.model(), section@, key@) is None,
            },
    {
        proof {
            use_type_invariant(self);
            self.lemma_views();
        }
        match self.section_index(section) {
            Some(i) => {
                let entries = &self.sections[i].1;
                proof {
                    assert(strictly_sorted(key_views(self.sections@[i as int].1@)));
                    assert(keys_sorted(self@[i as int].1));
                    lemma_sorted_unique(self@[i as int].1);
                }
                match find_key(entries, key) {
                    Ok(j) => {
                        proof {
                            assert(self@[i as int].1[j as int].0 == key@);
                            lemma_assoc_lookup(self@[i as int].1, j as int);
                        }
                        Some(entries[j].1.as_str())
                    },
                    Err(p) => {
                        proof {
                            lemma_not_among(key_views(entries@), key@, p as int);
                            assert forall|t: int|
                                0 <= t < self@[i as int].1.len() implies self@[i as int].1[t].0
                                != key@ by {
                                assert(self@[i as int].1[t].0 == key_views(entries@)[t]);
                            }
                            lemma_assoc_absent(self@[i as int].1, key@);
                        }
                        None
                    },
                }
            },
            None => None,
        }
    }

    /// Sets `key` to `value` in `section`, making the section when missing.
    pub fn set_string(&mut self, section: &str, key: &str, value: &str)
        ensures
            final(self).model() == ini_set(old(self).model(), section@, key@, value@),
            final(self).path_view() == old(self).path_view(),
    {
        proof {
            use_type_invariant(&*self);
            self.lemma_views();
        }
        let ghost v0 = self@;
        let ghost m0 = section_maps(v0);
        let mut secs: Vec<(String, Vec<(String, String)>)> = Vec::new();
        std::mem::swap(&mut secs, &mut self.sections);
        assert(sections_view(secs@) == v0);
        match find_key(&secs, section) {
            Ok(i) => {
                let (name, mut entries) = secs.remove(i);
                proof {
                    assert(v0[i as int].1 == pairs_view(entries@));
                    assert(keys_sorted(v0[i as int].1));
                    lemma_key_views_pairs(entries@);
                }
                entries_set(&mut entries, key, value);
                secs.insert(i, (name, entries));
                proof {
                    let e1 = pairs_view(entries@);
                    lemma_key_views_pairs(entries@);
                    assert(sections_view(secs@) =~= v0.update(i as int, (v0[i as int].0, e1)));
                    assert(section_maps(sections_view(secs@)) =~= m0.update(
                        i as int,
                        (m0[i as int].0, assoc_map(e1)),
                    ));
                    assert(m0[i as int].0 == section@);
                    lemma_assoc_lookup(m0, i as int);
                    lemma_assoc_update(m0, i as int, assoc_map(e1));
                    let v1 = sections_view(secs@);
                    assert(keys_of(v1) =~= keys_of(v0));
                    assert forall|t: int| 0 <= t < v1.len() implies keys_sorted(#[trigger] v1[t].1) by {
                        if t != i {
                            assert(v1[t] == v0[t]);
                        }
                    }
                }
            },
            Err(p) => {
                let mut entries: Vec<(String, String)> = Vec::new();
                entries.push((key.to_owned(), value.to_owned()));
                secs.insert(p, (section.to_owned(), entries));
                proof {
                    let e1 = seq![(key@, value@)];
                    assert(pairs_view(entries@) =~= e1);
                    let empty = Seq::<(Seq<char>, Seq<char>)>::empty();
                    assert(e1 =~= empty.insert(0, (key@, value@)));
                    lemma_assoc_insert(empty, 0, key@, value@);
                    assert(assoc_map(empty) =~= Map::<Seq<char>, Seq<char>>::empty());
                    assert(sections_view(secs@) =~= v0.insert(p as int, (section@, e1)));
                    assert(section_maps(sections_view(secs@)) =~= m0.insert(
                        p as int,
                        (section@, assoc_map(e1)),
                    ));
                    lemma_not_among(key_views(old(self).sections@), section@, p as int);
                    assert forall|t: int| 0 <= t < m0.len() implies m0[t].0 != section@ by {
                        assert(m0[t].0 == key_views(old(self).sections@)[t]);
                    }
                    lemma_assoc_absent(m0, section@);
                    lemma_assoc_insert(m0, p as int, section@, assoc_map(e1));
                    let v1 = sections_view(secs@);
                    assert(keys_of(v1) =~= keys_of(v0).insert(p as int, section@));
                    assert(keys_of(v0) =~= key_views(old(self).sections@));
                    lemma_sorted_insert(keys_of(v0), p as int, section@);
                    assert forall|t: int| 0 <= t < v1.len() implies keys_sorted(#[trigger] v1[t].1) by {
                        if t < p {
                            assert(v1[t] == v0[t]);
                        } else if t > p {
                            assert(v1[t] == v0[t - 1]);
                        } else {
                            assert(keys_of(v1[t].1) =~= seq![key@]);
                        }
                    }
                }
            },
        }
        self.sections = secs;
    }

    /// The value under `section` and `key` parsed as an `i32`; `default`
    /// when there is none or it is not an `i32`.
    pub fn get_int(&self, section: &str, key: &str, default: i32) -> (r: i32)
        ensures
            r == int_or(ini_get(self.model(), section@, key@), default),
    {
        match self.get_string(section, key) {
            Some(s) => {
                let v = chars_of(s);
                assert(v@.subrange(0, v@.len() as int) =~= v@);
                match parse_i32_range(&v, 0, v.len()) {
                    Some(n) => n,
                    None => default,
                }
            },
            None => default,
        }
    }

    /// Whether the value under `section` and `key`, read as `get_int` does
    /// with 1 or 0 for `default`, is 1.
    pub fn get_bool(&self, section: &str, key: &str, default: bool) -> (r: bool)
        ensures
            r == (int_or(ini_get(self.model(), section@, key@), if default { 1 } else { 0 }) == 1),
    {
        self.get_int(section, key, if default { 1 } else { 0 }) == 1
    }

    /// Sets `key` in `section` to `value` written in decimal.
    pub fn set_int(&mut self, section: &str, key: &str, value: i32)
        ensures
            final(self).model() == ini_set(old(self).model(), section@, key@, int_text(value as int)),
            final(self).path_view() == old(self).path_view(),
    {
        let text = int_to_string(value as i64);
        self.set_string(section, key, text.as_str());
    }

    /// Sets `key` in `section` to `1` or `0`.
    pub fn set_bool(&mut self, section: &str, key: &str, value: bool)
        ensures
            final(self).model() == ini_set(
                old(self).model(),
                section@,
                key@,
                if value { seq!['1'] } else { seq!['0'] },
            ),
            final(self).path_view() == old(self).path_view(),
    {
        let text = if value { "1" } else { "0" };
        proof {
            reveal_strlit("1");
            reveal_strlit("0");
        }
        self.set_string(section, key, text);
        assert(text@ =~= if value { seq!['1'] } else { seq!['0'] });
    }

    /// Removes `key` from `section`; the section stays, even when emptied.
    pub fn delete_key(&mut self, section: &str, key: &str)
        ensures
            final(self).model() == (if old(self).model().contains_key(section@) {
                old(self).model().insert(section@, old(self).model()[section@].remove(key@))
            } else {
                old(self).model()
            }),
            final(self).path_view() == old(self).path_view(),
    {
        proof {
            use_type_invariant(&*self);
            self.lemma_views();
        }
        let ghost v0 = self@;
        let ghost m0 = section_maps(v0);
        let mut secs: Vec<(String, Vec<(String, String)>)> = Vec::new();
        std::mem::swap(&mut secs, &mut self.sections);
        assert(sections_view(secs@) == v0);
        match find_key(&secs, section) {
            Ok(i) => {
                let (name, mut entries) = secs.remove(i);
                let ghost e0 = pairs_view(entries@);
                proof {
                    assert(v0[i as int].1 == e0);
                    assert(keys_sorted(e0));
                    lemma_key_views_pairs(entries@);
                    lemma_sorted_unique(e0);
                }
                match find_key(&entries, key) {
                    Ok(j) => {
                        entries.remove(j);
                        proof {
                            assert(pairs_view(entries@) =~= e0.remove(j as int));
                            lemma_assoc_remove(e0, j as int);
                            assert(e0[j as int].0 == key@);
                            assert(key_views(entries@) =~= key_views(old(self).sections@[i as int].1@).remove(j as int));
                            lemma_sorted_remove(key_views(old(self).sections@[i as int].1@), j as int);
                        }
                    },
                    Err(p) => {
                        proof {
                            lemma_not_among(key_views(entries@), key@, p as int);
                            assert forall|t: int| 0 <= t < e0.len() implies e0[t].0 != key@ by {
                                assert(e0[t].0 == key_views(entries@)[t]);
                            }
                            lemma_assoc_absent(e0, key@);
                            assert(assoc_map(e0).remove(key@) =~= assoc_map(e0));
                        }
                    },
                }
                secs.insert(i, (name, entries));
                proof {
                    let e1 = pairs_view(entries@);
                    lemma_key_views_pairs(entries@);
                    assert(sections_view(secs@) =~= v0.update(i as int, (v0[i as int].0, e1)));
                    assert(section_maps(sections_view(secs@)) =~= m0.update(
                        i as int,
                        (m0[i as int].0, assoc_map(e1)),
                    ));
                    assert(m0[i as int].0 == section@);
                    lemma_assoc_lookup(m0, i as int);
                    lemma_assoc_update(m0, i as int, assoc_map(e1));
                    let v1 = sections_view(secs@);
                    assert(keys_of(v1) =~= keys_of(v0));
                    assert forall|t: int| 0 <= t < v1.len() implies keys_sorted(#[trigger] v1[t].1) by {
                        if t != i {
                            assert(v1[t] == v0[t]);
                        }
                    }
                }
            },
            Err(p) => {
                proof {
                    lemma_not_among(key_views(secs@), section@, p as int);
                    assert forall|t: int| 0 <= t < m0.len() implies m0[t].0 != section@ by {
                        assert(m0[t].0 == key_views(secs@)[t]);
                    }
                    lemma_assoc_absent(m0, section@);
                }
            },
        }
        self.sections = secs;
    }

    /// Removes `section` and all its entries.
    pub fn delete_section(&mut self, section: &str)
        ensures
            final(self).model() == old(self).model().remove(section@),
            final(self).path_view() == old(self).path_view(),
    {
        proof {
            use_type_invariant(&*self);
            self.lemma_views();
        }
        let ghost v0 = self@;
        let ghost m0 = section_maps(v0);
        let mut secs: Vec<(String, Vec<(String, String)>)> = Vec::new();
        std::mem::swap(&mut secs, &mut self.sections);
        assert(sections_view(secs@) == v0);
        match find_key(&secs, section) {
            Ok(i) => {
                secs.remove(i);
                proof {
                    assert(sections_view(secs@) =~= v0.remove(i as int));
                    assert(section_maps(sections_view(secs@)) =~= m0.remove(i as int));
                    assert(m0[i as int].0 == section@);
                    lemma_assoc_remove(m0, i as int);
                    let v1 = sections_view(secs@);
                    assert(keys_of(v1) =~= keys_of(v0).remove(i as int));
                    lemma_sorted_remove(keys_of(v0), i as int);
                    assert forall|t: int| 0 <= t < v1.len() implies keys_sorted(#[trigger] v1[t].1) by {
                        if t < i {
                            assert(v1[t] == v0[t]);
                        } else {
                            assert(v1[t] == v0[t + 1]);
                        }
                    }
                }
            },
            Err(p) => {
                proof {
                    lemma_not_among(key_views(secs@), section@, p as int);
                    assert forall|t: int| 0 <= t < m0.len() implies m0[t].0 != section@ by {
                        assert(m0[t].0 == key_views(secs@)[t]);
                    }
                    lemma_assoc_absent(m0, section@);
                    assert(assoc_map(m0).remove(section@) =~= assoc_map(m0));
                }
            },
        }
        self.sections = secs;
    }

    /// Reads the line `v[lo..hi]` into the store, as `read_line` says.
    fn read_line_into(&mut self, current: &mut String, v: &Vec<char>, lo: usize, hi: usize)
        requires
            lo <= hi <= v@.len(),
        ensures
            (final(current)@, final(self).model()) == read_line(
                (old(current)@, old(self).model()),
                v@.subrange(lo as int, hi as int),
            ),
            final(self).path_view() == old(self).path_view(),
    {
        let ghost line = v@.subrange(lo as int, hi as int);
        let (a, b) = trim_bounds(v, lo, hi);
        let ghost t = v@.subrange(a as int, b as int);
        if a == b || v[a] == ';' || v[a] == '#' {
            return;
        }
        if v[a] == '[' && v[b - 1] == ']' {
            *current = string_of_range(v, a + 1, b - 1);
            assert(t.subrange(1, t.len() - 1) =~= v@.subrange(a + 1, b - 1));
            return;
        }
        let e = find_char(v, a, b, '=');
        if a + e < b {
            proof {
                crate::text::lemma_first_index(t, '=');
            }
            let (ka, kb) = trim_bounds(v, a, a + e);
            let (va, vb) = trim_bounds(v, a + e + 1, b);
            let key = string_of_range(v, ka, kb);
            let value = string_of_range(v, va, vb);
            assert(t.take(e as int) =~= v@.subrange(a as int, a + e));
            assert(t.skip(e + 1) =~= v@.subrange(a + e + 1, b as int));
            self.set_string(current.as_str(), key.as_str(), value.as_str());
        }
    }

    /// The store that the INI `content` of the file at `path` holds, read
    /// line by line as `text_model` says.
    pub fn parse(path: &str, content: &str) -> (r: IniFile)
        ensures
            r.model() == text_model(content@),
            r.path_view() == path@,
            ini_wf(r@),
    {
        let v = chars_of(content);
        let mut ini = IniFile::new(path);
        let mut current = String::new();
        push_str(&mut current, "ROOT");
        proof {
            reveal_strlit("ROOT");
            assert(current@ =~= root_section());
        }
        let ghost init: ReadState = (root_section(), Map::empty());
        let n = v.len();
        let mut start: usize = 0;
        for i in 0..n
            invariant
                n == v@.len(),
                start <= i,
                split_on(v@.take(i as int), '\n').len() >= 1,
                (current@, ini.model()) == read_lines(
                    init,
                    split_on(v@.take(i as int), '\n').drop_last(),
                ),
                split_on(v@.take(i as int), '\n').last() == v@.subrange(start as int, i as int),
                ini.path_view() == path@,
        {
            let ghost pieces = split_on(v@.take(i as int), '\n');
            assert(v@.take(i + 1).drop_last() =~= v@.take(i as int));
            if v[i] == '\n' {
                ini.read_line_into(&mut current, &v, start, i);
                proof {
                    let next = split_on(v@.take(i + 1), '\n');
                    assert(next == pieces.push(Seq::empty()));
                    assert(next.drop_last() =~= pieces);
                    assert(pieces.drop_last().push(pieces.last()) =~= pieces);
                    assert(v@.subrange(i + 1, i + 1) =~= Seq::<char>::empty());
                }
                start = i + 1;
            } else {
                proof {
                    let next = split_on(v@.take(i + 1), '\n');
                    assert(next.drop_last() =~= pieces.drop_last());
                    assert(v@.subrange(start as int, i + 1) =~= v@.subrange(start as int, i as int).push(v@[i as int]));
                }
            }
        }
        ini.read_line_into(&mut current, &v, start, n);
        proof {
            let pieces = split_on(v@.take(n as int), '\n');
            assert(v@.take(n as int) =~= v@);
            assert(pieces.drop_last().push(pieces.last()) =~= pieces);
            use_type_invariant(&ini);
        }
        ini
    }

    /// The INI text of the store: for each section that has entries, in
    /// order, `[name]`, then `key=value` for each entry in order, then an
    /// empty line; every line ends with a line break.
    pub fn to_text(&self) -> (r: String)
        ensures
            r@ == ini_text(self@),
            ini_wf(self@),
    {
        proof {
            use_type_invariant(self);
        }
        let mut out = String::new();
        let n = self.sections.len();
        for i in 0..n
            invariant
                n == self.sections@.len(),
                out@ == ini_text(self@.take(i as int)),
        {
            let name = &self.sections[i].0;
            let entries = &self.sections[i].1;
            let ghost before = out@;
            assert(self@.take(i + 1).drop_last() =~= self@.take(i as int));
            if entries.len() > 0 {
                push_char(&mut out, '[');
                push_str(&mut out, name.as_str());
                push_char(&mut out, ']');
                push_char(&mut out, '\n');
                let m = entries.len();
                let ghost e = pairs_view(entries@);
                let ghost head = out@;
                for j in 0..m
                    invariant
                        m == entries@.len(),
                        e == pairs_view(entries@),
                        out@ == head + entries_text(e.take(j as int)),
                {
                    assert(e.take(j + 1).drop_last() =~= e.take(j as int));
                    push_str(&mut out, entries[j].0.as_str());
                    push_char(&mut out, '=');
                    push_str(&mut out, entries[j].1.as_str());
                    push_char(&mut out, '\n');
                    assert(out@ =~= head + entries_text(e.take(j + 1)));
                }
                push_char(&mut out, '\n');
                assert(e.take(m as int) =~= e);
                assert(out@ =~= before + section_text(name@, e));
            } else {
                assert(out@ =~= before + section_text(name@, pairs_view(entries@)));
            }
        }
        assert(self@.take(n as int) =~= self@);
        out
    }
}

} // verus!
