//! What holds of the INI store as a whole: writing its text and reading it
//! back gives what it holds, and what it holds fixes how it is laid out.

use vstd::prelude::*;
use crate::assoc::{lemma_assoc_determined, keys_of, keys_sorted, keys_unique, assoc_map, lemma_sorted_unique, lemma_assoc_insert, lemma_assoc_lookup};
use crate::ini_file::{ini_get, int_or, ini_wf, ini_model, ini_set, section_maps, read_line, read_lines, ReadState, root_section, text_model, entries_text, section_text, ini_text};
use crate::number::{int_text, lemma_int_text_parses};
use crate::text::{first_index, lemma_trim_range, lemma_split_on_pieces_lack, str_lt, lemma_str_lt_order, lacks, split_on, lemma_split_on_extend, lemma_split_on_sep, is_trimmed, lemma_trim_trimmed, trim, lemma_first_index_at, is_white_space};

verus! {

/// The text of `lines`, each followed by a line break.
pub open spec fn lines_text(ls: Seq<Seq<char>>) -> Seq<char>
    decreases ls.len(),
{
    if ls.len() == 0 {
        Seq::empty()
    } else {
        lines_text(ls.drop_last()) + ls.last() + seq!['\n']
    }
}

/// The `key=value` lines of entries.
pub open spec fn entry_lines(e: Seq<(Seq<char>, Seq<char>)>) -> Seq<Seq<char>> {
    Seq::new(e.len(), |j: int| e[j].0 + seq!['='] + e[j].1)
}

/// The lines of a section's text.
pub open spec fn section_lines(name: Seq<char>, e: Seq<(Seq<char>, Seq<char>)>) -> Seq<Seq<char>> {
    if e.len() == 0 {
        Seq::empty()
    } else {
        seq![seq!['['] + name + seq![']']] + entry_lines(e) + seq![Seq::<char>::empty()]
    }
}

/// The lines of a store's text.
pub open spec fn ini_lines(v: Seq<(Seq<char>, Seq<(Seq<char>, Seq<char>)>)>) -> Seq<Seq<char>>
    decreases v.len(),
{
    if v.len() == 0 {
        Seq::empty()
    } else {
        ini_lines(v.drop_last()) + section_lines(v.last().0, v.last().1)
    }
}

proof fn lemma_lines_text_concat(a: Seq<Seq<char>>, b: Seq<Seq<char>>)
    ensures
        lines_text(a + b) == lines_text(a) + lines_text(b),
    decreases b.len(),
{
    if b.len() == 0 {
        assert(a + b =~= a);
        assert(lines_text(a) + lines_text(b) =~= lines_text(a));
    } else {
        lemma_lines_text_concat(a, b.drop_last());
        assert((a + b).drop_last() =~= a + b.drop_last());
        assert(lines_text(a + b) =~= lines_text(a) + lines_text(b));
    }
}

proof fn lemma_entries_text_lines(e: Seq<(Seq<char>, Seq<char>)>)
    ensures
        entries_text(e) == lines_text(entry_lines(e)),
    decreases e.len(),
{
    if e.len() > 0 {
        lemma_entries_text_lines(e.drop_last());
        assert(entry_lines(e).drop_last() =~= entry_lines(e.drop_last()));
        assert(entries_text(e) =~= lines_text(entry_lines(e)));
    } else {
        assert(entry_lines(e) =~= Seq::<Seq<char>>::empty());
    }
}

proof fn lemma_section_text_lines(name: Seq<char>, e: Seq<(Seq<char>, Seq<char>)>)
    ensures
        section_text(name, e) == lines_text(section_lines(name, e)),
{
    if e.len() > 0 {
        let h = seq![seq!['['] + name + seq![']']];
        let t = seq![Seq::<char>::empty()];
        lemma_entries_text_lines(e);
        lemma_lines_text_concat(h, entry_lines(e));
        lemma_lines_text_concat(h + entry_lines(e), t);
        assert(h.drop_last() =~= Seq::<Seq<char>>::empty());
        assert(t.drop_last() =~= Seq::<Seq<char>>::empty());
        assert(lines_text(Seq::<Seq<char>>::empty()) =~= Seq::<char>::empty());
        assert(lines_text(h) == lines_text(h.drop_last()) + h.last() + seq!['\n']);
        assert(lines_text(h) =~= seq!['['] + name + seq![']'] + seq!['\n']);
        assert(lines_text(t) == lines_text(t.drop_last()) + t.last() + seq!['\n']);
        assert(lines_text(t) =~= seq!['\n']);
        assert(section_text(name, e) =~= lines_text(section_lines(name, e)));
    }
}

proof fn lemma_ini_text_lines(v: Seq<(Seq<char>, Seq<(Seq<char>, Seq<char>)>)>)
    ensures
        ini_text(v) == lines_text(ini_lines(v)),
    decreases v.len(),
{
    if v.len() > 0 {
        lemma_ini_text_lines(v.drop_last());
        lemma_section_text_lines(v.last().0, v.last().1);
        lemma_lines_text_concat(ini_lines(v.drop_last()), section_lines(v.last().0, v.last().1));
    }
}

/// Splitting the text of lines without line breaks at its line breaks
/// gives the lines back, and an empty last piece.
proof fn lemma_split_lines_text(ls: Seq<Seq<char>>)
    requires
        forall|i: int| 0 <= i < ls.len() ==> lacks(#[trigger] ls[i], '\n'),
    ensures
        split_on(lines_text(ls), '\n') == ls.push(Seq::empty()),
    decreases ls.len(),
{
    if ls.len() == 0 {
        assert(split_on(Seq::<char>::empty(), '\n') =~= seq![Seq::<char>::empty()]);
        assert(ls.push(Seq::empty()) =~= seq![Seq::<char>::empty()]);
    } else {
        let p = ls.drop_last();
        lemma_split_lines_text(p);
        let a = lines_text(p);
        lemma_split_on_extend(a, ls.last(), '\n');
        lemma_split_on_sep(a + ls.last(), '\n');
        assert(lines_text(ls) == (a + ls.last()).push('\n'));
        let q = p.push(Seq::empty());
        assert(q.update(q.len() - 1, q.last() + ls.last()) =~= ls);
    }
}

/// Reading lines one after the other.
proof fn lemma_read_lines_concat(st: ReadState, a: Seq<Seq<char>>, b: Seq<Seq<char>>)
    ensures
        read_lines(st, a + b) == read_lines(read_lines(st, a), b),
    decreases b.len(),
{
    if b.len() == 0 {
        assert(a + b =~= a);
    } else {
        lemma_read_lines_concat(st, a, b.drop_last());
        assert((a + b).drop_last() =~= a + b.drop_last());
    }
}

/// Text that reads back as itself: no line break, no white space at
/// either end.
pub open spec fn plain_text(s: Seq<char>) -> bool {
    lacks(s, '\n') && is_trimmed(s)
}

/// An entry whose `key=value` line reads back as that entry: key and value
/// plain, no `=` in the key, the line not starting with `;` or `#`, and not
/// looking like `[section]`.
pub open spec fn entry_writable(k: Seq<char>, v: Seq<char>) -> bool {
    &&& plain_text(k)
    &&& plain_text(v)
    &&& lacks(k, '=')
    &&& !(k.len() > 0 && (k[0] == ';' || k[0] == '#'))
    &&& !(k.len() > 0 && k[0] == '[' && v.len() > 0 && v.last() == ']')
}

/// Every section name has no line break and every entry is writable.
pub open spec fn ini_writable(v: Seq<(Seq<char>, Seq<(Seq<char>, Seq<char>)>)>) -> bool {
    forall|i: int|
        0 <= i < v.len() ==> lacks(#[trigger] v[i].0, '\n') && (forall|j: int|
            0 <= j < v[i].1.len() ==> entry_writable(#[trigger] v[i].1[j].0, v[i].1[j].1))
}

/// The sections of `m` that have at least one entry.
pub open spec fn without_empty_sections(m: Map<Seq<char>, Map<Seq<char>, Seq<char>>>) -> Map<
    Seq<char>,
    Map<Seq<char>, Seq<char>>,
> {
    Map::new(
        |k: Seq<char>| m.contains_key(k) && m[k] != Map::<Seq<char>, Seq<char>>::empty(),
        |k: Seq<char>| m[k],
    )
}

/// The header line `[name]` of a section.
proof fn lemma_read_header(st: ReadState, name: Seq<char>)
    ensures
        read_line(st, seq!['['] + name + seq![']']) == (name, st.1),
{
    let l = seq!['['] + name + seq![']'];
    assert(l[0] == '[');
    assert(l.last() == ']');
    lemma_trim_trimmed(l);
    assert(l.subrange(1, l.len() - 1) =~= name);
}

/// A `key=value` line of a writable entry.
proof fn lemma_read_entry(st: ReadState, k: Seq<char>, v: Seq<char>)
    requires
        entry_writable(k, v),
    ensures
        read_line(st, k + seq!['='] + v) == (st.0, ini_set(st.1, st.0, k, v)),
{
    let l = k + seq!['='] + v;
    assert(l[k.len() as int] == '=');
    assert(l[0] == (if k.len() > 0 { k[0] } else { '=' }));
    assert(l.last() == (if v.len() > 0 { v.last() } else { '=' }));
    assert(!is_white_space('='));
    lemma_trim_trimmed(l);
    assert forall|j: int| 0 <= j < k.len() implies l[j] != '=' by {
        assert(l[j] == k[j]);
    }
    lemma_first_index_at(l, '=', k.len() as int);
    assert(l.take(k.len() as int) =~= k);
    assert(l.skip(k.len() as int + 1) =~= v);
    lemma_trim_trimmed(k);
    lemma_trim_trimmed(v);
}

/// The empty line after a section.
proof fn lemma_read_blank(st: ReadState)
    ensures
        read_line(st, Seq::empty()) == st,
{
    assert(trim(Seq::<char>::empty()) =~= Seq::<char>::empty());
}

/// Reading the entry lines of a section that `m` does not hold yet.
proof fn lemma_read_entries(
    c: Seq<char>,
    m: Map<Seq<char>, Map<Seq<char>, Seq<char>>>,
    name: Seq<char>,
    e: Seq<(Seq<char>, Seq<char>)>,
    n: int,
)
    requires
        !m.contains_key(name),
        keys_unique(e),
        0 < n <= e.len(),
        forall|j: int| 0 <= j < e.len() ==> entry_writable(#[trigger] e[j].0, e[j].1),
    ensures
        read_lines((name, m), entry_lines(e).take(n)) == (name, m.insert(name, assoc_map(e.take(n)))),
    decreases n,
{
    let ls = entry_lines(e).take(n);
    assert(ls.drop_last() =~= entry_lines(e).take(n - 1));
    assert(ls.last() == e[n - 1].0 + seq!['='] + e[n - 1].1);
    let before = e.take(n - 1);
    assert(e.take(n) =~= before.insert(n - 1, (e[n - 1].0, e[n - 1].1)));
    assert forall|j: int| 0 <= j < before.len() implies before[j].0 != e[n - 1].0 by {
        assert(before[j] == e[j]);
    }
    assert(keys_unique(before)) by {
        assert forall|a: int, b: int|
            0 <= a < before.len() && 0 <= b < before.len() && a != b implies #[trigger] before[a].0
            != #[trigger] before[b].0 by {
            assert(before[a] == e[a] && before[b] == e[b]);
        }
    }
    lemma_assoc_insert(before, n - 1, e[n - 1].0, e[n - 1].1);
    assert(read_lines((name, m), ls) == read_line(read_lines((name, m), ls.drop_last()), ls.last()));
    if n == 1 {
        assert(ls.drop_last() =~= Seq::<Seq<char>>::empty());
        assert(read_lines((name, m), ls.drop_last()) == (name, m));
        lemma_read_entry((name, m), e[0].0, e[0].1);
        assert(assoc_map(before) =~= Map::<Seq<char>, Seq<char>>::empty());
        assert(ini_set(m, name, e[0].0, e[0].1) =~= m.insert(name, assoc_map(e.take(n))));
    } else {
        lemma_read_entries(c, m, name, e, n - 1);
        lemma_read_entry((name, m.insert(name, assoc_map(before))), e[n - 1].0, e[n - 1].1);
        assert(m.insert(name, assoc_map(before)).insert(name, assoc_map(before).insert(e[n - 1].0, e[n - 1].1))
            =~= m.insert(name, assoc_map(e.take(n))));
    }
}

/// Reading the lines of a section that `m` does not hold yet.
proof fn lemma_read_section(
    st: ReadState,
    name: Seq<char>,
    e: Seq<(Seq<char>, Seq<char>)>,
)
    requires
        !st.1.contains_key(name),
        keys_unique(e),
        e.len() > 0,
        forall|j: int| 0 <= j < e.len() ==> entry_writable(#[trigger] e[j].0, e[j].1),
    ensures
        read_lines(st, section_lines(name, e)) == (name, st.1.insert(name, assoc_map(e))),
{
    let h = seq![seq!['['] + name + seq![']']];
    let b = seq![Seq::<char>::empty()];
    lemma_read_lines_concat(st, h + entry_lines(e), b);
    lemma_read_lines_concat(st, h, entry_lines(e));
    assert(h.drop_last() =~= Seq::<Seq<char>>::empty());
    assert(read_lines(st, h) == read_line(read_lines(st, h.drop_last()), h.last()));
    assert(read_lines(st, h.drop_last()) == st);
    lemma_read_header(st, name);
    lemma_read_entries(st.0, st.1, name, e, e.len() as int);
    assert(entry_lines(e).take(e.len() as int) =~= entry_lines(e));
    assert(e.take(e.len() as int) =~= e);
    assert(b.drop_last() =~= Seq::<Seq<char>>::empty());
    let mid = read_lines(st, h + entry_lines(e));
    assert(read_lines(mid, b) == read_line(read_lines(mid, b.drop_last()), b.last()));
    assert(read_lines(mid, b.drop_last()) == mid);
    lemma_read_blank((name, st.1.insert(name, assoc_map(e))));
}

/// The sections with entries, in the order written: what reading the text
/// of the sections gives.
pub open spec fn written_sections(v: Seq<(Seq<char>, Seq<(Seq<char>, Seq<char>)>)>) -> Map<
    Seq<char>,
    Map<Seq<char>, Seq<char>>,
>
    decreases v.len(),
{
    if v.len() == 0 {
        Map::empty()
    } else if v.last().1.len() > 0 {
        written_sections(v.drop_last()).insert(v.last().0, assoc_map(v.last().1))
    } else {
        written_sections(v.drop_last())
    }
}

proof fn lemma_wf_prefix(v: Seq<(Seq<char>, Seq<(Seq<char>, Seq<char>)>)>)
    requires
        ini_wf(v),
        v.len() > 0,
    ensures
        ini_wf(v.drop_last()),
        keys_unique(v.last().1),
        forall|j: int| 0 <= j < v.len() - 1 ==> str_lt(#[trigger] v[j].0, v.last().0),
{
    let p = v.drop_last();
    assert forall|a: int, b: int| 0 <= a < b < keys_of(p).len() implies str_lt(
        #[trigger] keys_of(p)[a],
        #[trigger] keys_of(p)[b],
    ) by {
        assert(keys_of(p)[a] == keys_of(v)[a] && keys_of(p)[b] == keys_of(v)[b]);
    }
    assert forall|i: int| 0 <= i < p.len() implies keys_sorted(#[trigger] p[i].1) by {
        assert(p[i] == v[i]);
    }
    assert(keys_sorted(v[v.len() - 1].1));
    lemma_sorted_unique(v.last().1);
    assert forall|j: int| 0 <= j < v.len() - 1 implies str_lt(#[trigger] v[j].0, v.last().0) by {
        assert(keys_of(v)[j] == v[j].0);
        assert(keys_of(v)[v.len() - 1] == v.last().0);
    }
}

/// Reading the lines of the sections from the start state.
proof fn lemma_read_ini_lines(v: Seq<(Seq<char>, Seq<(Seq<char>, Seq<char>)>)>)
    requires
        ini_wf(v),
        ini_writable(v),
    ensures
        read_lines((root_section(), Map::empty()), ini_lines(v)).1 == written_sections(v),
        forall|k: Seq<char>| #[trigger]
            written_sections(v).contains_key(k) ==> exists|j: int| 0 <= j < v.len() && v[j].0 == k,
    decreases v.len(),
{
    if v.len() > 0 {
        let p = v.drop_last();
        let init: ReadState = (root_section(), Map::empty());
        lemma_wf_prefix(v);
        assert(ini_writable(p)) by {
            assert forall|i: int| 0 <= i < p.len() implies lacks(#[trigger] p[i].0, '\n') && (forall|j: int|
                0 <= j < p[i].1.len() ==> entry_writable(#[trigger] p[i].1[j].0, p[i].1[j].1)) by {
                assert(p[i] == v[i]);
            }
        }
        lemma_read_ini_lines(p);
        lemma_read_lines_concat(init, ini_lines(p), section_lines(v.last().0, v.last().1));
        let st = read_lines(init, ini_lines(p));
        let e = v.last().1;
        assert(v[v.len() - 1] == v.last());
        if e.len() > 0 {
            assert(!st.1.contains_key(v.last().0)) by {
                if st.1.contains_key(v.last().0) {
                    let j = choose|j: int| 0 <= j < p.len() && p[j].0 == v.last().0;
                    assert(str_lt(v[j].0, v.last().0));
                    lemma_str_lt_order(v.last().0, v.last().0, v.last().0);
                }
            }
            assert forall|j: int| 0 <= j < e.len() implies entry_writable(#[trigger] e[j].0, e[j].1) by {
                assert(v[v.len() - 1].1 == e);
            }
            lemma_read_section(st, v.last().0, e);
            assert forall|k: Seq<char>| #[trigger] written_sections(v).contains_key(k) implies exists|j: int|
                0 <= j < v.len() && v[j].0 == k by {
                if k != v.last().0 {
                    let j = choose|j: int| 0 <= j < p.len() && p[j].0 == k;
                    assert(v[j] == p[j]);
                } else {
                    assert(v[v.len() - 1].0 == k);
                }
            }
        } else {
            assert(section_lines(v.last().0, e) =~= Seq::<Seq<char>>::empty());
            assert(ini_lines(p) + Seq::<Seq<char>>::empty() =~= ini_lines(p));
            assert forall|k: Seq<char>| #[trigger] written_sections(v).contains_key(k) implies exists|j: int|
                0 <= j < v.len() && v[j].0 == k by {
                let j = choose|j: int| 0 <= j < p.len() && p[j].0 == k;
                assert(v[j] == p[j]);
            }
        }
    }
}


/// The sections with entries, in the order written, are the sections with
/// entries that the store holds.
proof fn lemma_written_sections(v: Seq<(Seq<char>, Seq<(Seq<char>, Seq<char>)>)>)
    requires
        ini_wf(v),
    ensures
        written_sections(v) == without_empty_sections(ini_model(v)),
    decreases v.len(),
{
    if v.len() == 0 {
        assert(section_maps(v) =~= Seq::<(Seq<char>, Map<Seq<char>, Seq<char>>)>::empty());
        assert(without_empty_sections(ini_model(v)) =~= Map::<Seq<char>, Map<Seq<char>, Seq<char>>>::empty());
    } else {
        let p = v.drop_last();
        let name = v.last().0;
        let e = v.last().1;
        let a = assoc_map(e);
        lemma_wf_prefix(v);
        lemma_written_sections(p);
        let sp = section_maps(p);
        assert(section_maps(v) =~= sp.insert(sp.len() as int, (name, a)));
        assert forall|j: int| 0 <= j < sp.len() implies sp[j].0 != name by {
            assert(sp[j].0 == v[j].0);
            lemma_str_lt_order(name, name, name);
        }
        assert(keys_unique(sp)) by {
            assert(keys_of(sp) =~= keys_of(p));
            lemma_sorted_unique(p);
        }
        lemma_assoc_insert(sp, sp.len() as int, name, a);
        let m = ini_model(p);
        assert(ini_model(v) == m.insert(name, a));
        assert(!m.contains_key(name));
        if e.len() > 0 {
            lemma_assoc_lookup(e, 0);
            assert(a != Map::<Seq<char>, Seq<char>>::empty()) by {
                assert(a.contains_key(e[0].0));
            }
            assert(without_empty_sections(m.insert(name, a)) =~= without_empty_sections(m).insert(name, a));
        } else {
            assert(a =~= Map::<Seq<char>, Seq<char>>::empty());
            assert(without_empty_sections(m.insert(name, a)) =~= without_empty_sections(m));
        }
    }
}

/// Writing a store's text and reading it back gives what the store holds,
/// less its sections without entries, when every section name has no line
/// break and every entry is writable (`entry_writable`).
pub proof fn lemma_text_round_trip(v: Seq<(Seq<char>, Seq<(Seq<char>, Seq<char>)>)>)
    requires
        ini_wf(v),
        ini_writable(v),
    ensures
        text_model(ini_text(v)) == without_empty_sections(ini_model(v)),
{
    lemma_ini_text_lines(v);
    let ls = ini_lines(v);
    assert forall|i: int| 0 <= i < ls.len() implies lacks(#[trigger] ls[i], '\n') by {
        lemma_ini_lines_lack_breaks(v, i);
    }
    lemma_split_lines_text(ls);
    lemma_read_ini_lines(v);
    let init: ReadState = (root_section(), Map::empty());
    let all = ls.push(Seq::empty());
    assert(all.drop_last() =~= ls);
    lemma_read_blank(read_lines(init, ls));
    lemma_written_sections(v);
}

proof fn lemma_ini_lines_lack_breaks(v: Seq<(Seq<char>, Seq<(Seq<char>, Seq<char>)>)>, i: int)
    requires
        ini_writable(v),
        0 <= i < ini_lines(v).len(),
    ensures
        lacks(ini_lines(v)[i], '\n'),
    decreases v.len(),
{
    let p = v.drop_last();
    let lp = ini_lines(p);
    let name = v.last().0;
    let e = v.last().1;
    assert(v[v.len() - 1] == v.last());
    if i < lp.len() {
        assert(ini_writable(p)) by {
            assert forall|t: int| 0 <= t < p.len() implies lacks(#[trigger] p[t].0, '\n') && (forall|j: int|
                0 <= j < p[t].1.len() ==> entry_writable(#[trigger] p[t].1[j].0, p[t].1[j].1)) by {
                assert(p[t] == v[t]);
            }
        }
        lemma_ini_lines_lack_breaks(p, i);
        assert(ini_lines(v)[i] == lp[i]);
    } else {
        let k = i - lp.len();
        let sl = section_lines(name, e);
        assert(ini_lines(v)[i] == sl[k]);
        if k == 0 {
            let l = seq!['['] + name + seq![']'];
            assert(sl[0] == l);
            assert forall|j: int| 0 <= j < l.len() implies l[j] != '\n' by {
                if 0 < j < l.len() - 1 {
                    assert(l[j] == name[j - 1]);
                }
            }
        } else if k <= e.len() {
            let l = e[k - 1].0 + seq!['='] + e[k - 1].1;
            assert(sl[k] == entry_lines(e)[k - 1]);
            assert(entry_writable(e[k - 1].0, e[k - 1].1));
            assert forall|j: int| 0 <= j < l.len() implies l[j] != '\n' by {
                if j < e[k - 1].0.len() {
                    assert(l[j] == e[k - 1].0[j]);
                } else if j > e[k - 1].0.len() {
                    assert(l[j] == e[k - 1].1[j - e[k - 1].0.len() - 1]);
                }
            }
        } else {
            assert(sl[k] == Seq::<char>::empty());
        }
    }
}


/// What a store holds fixes how it is laid out: two stores in name order
/// that hold the same sections and entries list them identically.
pub proof fn lemma_layout_determined(
    v: Seq<(Seq<char>, Seq<(Seq<char>, Seq<char>)>)>,
    w: Seq<(Seq<char>, Seq<(Seq<char>, Seq<char>)>)>,
)
    requires
        ini_wf(v),
        ini_wf(w),
        ini_model(v) == ini_model(w),
    ensures
        v == w,
{
    assert(keys_of(section_maps(v)) =~= keys_of(v));
    assert(keys_of(section_maps(w)) =~= keys_of(w));
    lemma_assoc_determined(section_maps(v), section_maps(w));
    assert forall|i: int| 0 <= i < v.len() implies v[i] == w[i] by {
        assert(section_maps(v)[i] == section_maps(w)[i]);
        assert(keys_sorted(v[i].1) && keys_sorted(w[i].1));
        lemma_assoc_determined(v[i].1, w[i].1);
    }
    assert(v =~= w);
}


/// A read gives back what the last write under the same section and key
/// wrote, and a write leaves every other section and key as it was.
pub proof fn lemma_get_after_set(
    m: Map<Seq<char>, Map<Seq<char>, Seq<char>>>,
    section: Seq<char>,
    key: Seq<char>,
    value: Seq<char>,
    other_section: Seq<char>,
    other_key: Seq<char>,
)
    ensures
        ini_get(ini_set(m, section, key, value), section, key) == Some(value),
        (other_section, other_key) != (section, key) ==> ini_get(
            ini_set(m, section, key, value),
            other_section,
            other_key,
        ) == ini_get(m, other_section, other_key),
{
}

/// An integer written with `set_int` reads back with `get_int`, whatever
/// the default.
pub proof fn lemma_get_int_after_set_int(
    m: Map<Seq<char>, Map<Seq<char>, Seq<char>>>,
    section: Seq<char>,
    key: Seq<char>,
    value: i32,
    default: i32,
)
    ensures
        int_or(ini_get(ini_set(m, section, key, int_text(value as int)), section, key), default)
            == value,
{
    lemma_int_text_parses(value as int);
}

/// A flag written with `set_bool` reads back with `get_bool`, whatever the
/// default.
pub proof fn lemma_get_bool_after_set_bool(
    m: Map<Seq<char>, Map<Seq<char>, Seq<char>>>,
    section: Seq<char>,
    key: Seq<char>,
    value: bool,
    default: bool,
)
    ensures
        (int_or(
            ini_get(
                ini_set(m, section, key, if value { seq!['1'] } else { seq!['0'] }),
                section,
                key,
            ),
            if default { 1 } else { 0 },
        ) == 1) == value,
{
    let t = if value { seq!['1'] } else { seq!['0'] };
    assert(t == int_text(if value { 1 } else { 0 })) by {
        assert(t =~= int_text(if value { 1int } else { 0int }));
    }
    lemma_int_text_parses(if value { 1 } else { 0 });
}


/// After deleting a key, or its whole section, a read finds nothing there,
/// and every other key reads as before.
pub proof fn lemma_get_after_delete(
    m: Map<Seq<char>, Map<Seq<char>, Seq<char>>>,
    section: Seq<char>,
    key: Seq<char>,
    other_section: Seq<char>,
    other_key: Seq<char>,
)
    ensures
        ({
            let d = if m.contains_key(section) {
                m.insert(section, m[section].remove(key))
            } else {
                m
            };
            &&& ini_get(d, section, key) is None
            &&& (other_section, other_key) != (section, key) ==> ini_get(d, other_section, other_key)
                == ini_get(m, other_section, other_key)
        }),
        ini_get(m.remove(section), section, other_key) is None,
        other_section != section ==> ini_get(m.remove(section), other_section, other_key) == ini_get(
            m,
            other_section,
            other_key,
        ),
{
}

/// One change to the store, as `set_string`, `set_int` and `set_bool`
/// (a value written as text), `delete_key` and `delete_section` make it.
pub enum IniChange {
    Write(Seq<char>, Seq<char>, Seq<char>),
    DeleteKey(Seq<char>, Seq<char>),
    DeleteSection(Seq<char>),
}

/// The store after the change `c`.
pub open spec fn apply_change(
    m: Map<Seq<char>, Map<Seq<char>, Seq<char>>>,
    c: IniChange,
) -> Map<Seq<char>, Map<Seq<char>, Seq<char>>> {
    match c {
        IniChange::Write(section, key, value) => ini_set(m, section, key, value),
        IniChange::DeleteKey(section, key) => if m.contains_key(section) {
            m.insert(section, m[section].remove(key))
        } else {
            m
        },
        IniChange::DeleteSection(section) => m.remove(section),
    }
}

/// The store after the changes `cs`, in order.
pub open spec fn apply_changes(
    m: Map<Seq<char>, Map<Seq<char>, Seq<char>>>,
    cs: Seq<IniChange>,
) -> Map<Seq<char>, Map<Seq<char>, Seq<char>>>
    decreases cs.len(),
{
    if cs.len() == 0 {
        m
    } else {
        apply_change(apply_changes(m, cs.drop_last()), cs.last())
    }
}

/// The change `c` writes or deletes the key `key` of `section`.
pub open spec fn touches(c: IniChange, section: Seq<char>, key: Seq<char>) -> bool {
    match c {
        IniChange::Write(s, k, _) => s == section && k == key,
        IniChange::DeleteKey(s, k) => s == section && k == key,
        IniChange::DeleteSection(s) => s == section,
    }
}

/// Changes that leave a key alone leave its value as it was: after any
/// sequence of writes and deletions of other keys and other sections, a
/// read of the key gives what it gave before.
pub proof fn lemma_get_after_changes(
    m: Map<Seq<char>, Map<Seq<char>, Seq<char>>>,
    cs: Seq<IniChange>,
    section: Seq<char>,
    key: Seq<char>,
)
    requires
        forall|i: int| 0 <= i < cs.len() ==> !touches(#[trigger] cs[i], section, key),
    ensures
        ini_get(apply_changes(m, cs), section, key) == ini_get(m, section, key),
    decreases cs.len(),
{
    if cs.len() > 0 {
        let p = cs.drop_last();
        assert forall|i: int| 0 <= i < p.len() implies !touches(#[trigger] p[i], section, key) by {
            assert(p[i] == cs[i]);
        }
        lemma_get_after_changes(m, p, section, key);
        assert(!touches(cs[cs.len() - 1], section, key));
    }
}

/// A read gives back what a write wrote, however many changes to other keys
/// and other sections came after it.
pub proof fn lemma_get_after_set_and_changes(
    m: Map<Seq<char>, Map<Seq<char>, Seq<char>>>,
    section: Seq<char>,
    key: Seq<char>,
    value: Seq<char>,
    cs: Seq<IniChange>,
)
    requires
        forall|i: int| 0 <= i < cs.len() ==> !touches(#[trigger] cs[i], section, key),
    ensures
        ini_get(apply_changes(ini_set(m, section, key, value), cs), section, key) == Some(value),
{
    lemma_get_after_changes(ini_set(m, section, key, value), cs, section, key);
}

/// Every section name of `m` has no line break and every entry of it is
/// writable: what `ini_writable` asks of a store, said of what it holds.
pub open spec fn model_writable(m: Map<Seq<char>, Map<Seq<char>, Seq<char>>>) -> bool {
    forall|sec: Seq<char>|
        #[trigger] m.contains_key(sec) ==> lacks(sec, '\n') && forall|k: Seq<char>|
            #[trigger] m[sec].contains_key(k) ==> entry_writable(k, m[sec][k])
}

/// Setting a writable entry in a section whose name has no line break
/// keeps a store writable.
pub proof fn lemma_set_writable(
    m: Map<Seq<char>, Map<Seq<char>, Seq<char>>>,
    section: Seq<char>,
    key: Seq<char>,
    value: Seq<char>,
)
    requires
        model_writable(m),
        lacks(section, '\n'),
        entry_writable(key, value),
    ensures
        model_writable(ini_set(m, section, key, value)),
{
    let r = ini_set(m, section, key, value);
    assert forall|sec: Seq<char>| #[trigger] r.contains_key(sec) implies lacks(sec, '\n') && forall|k: Seq<char>|
        #[trigger] r[sec].contains_key(k) ==> entry_writable(k, r[sec][k]) by {
        if sec != section {
            assert(m.contains_key(sec));
        }
    }
}

/// A stretch of text without a line break has none.
proof fn lemma_lacks_subrange(s: Seq<char>, a: int, b: int, c: char)
    requires
        lacks(s, c),
        0 <= a <= b <= s.len(),
    ensures
        lacks(s.subrange(a, b), c),
{
    assert forall|i: int| 0 <= i < b - a implies s.subrange(a, b)[i] != c by {
        assert(s.subrange(a, b)[i] == s[a + i]);
    }
}

/// Reading a line keeps the store writable and the current section free of
/// line breaks.
proof fn lemma_read_line_writable(st: ReadState, line: Seq<char>)
    requires
        lacks(st.0, '\n'),
        lacks(line, '\n'),
        model_writable(st.1),
    ensures
        lacks(read_line(st, line).0, '\n'),
        model_writable(read_line(st, line).1),
{
    let (ta, tb) = lemma_trim_range(line);
    let t = trim(line);
    lemma_lacks_subrange(line, ta, tb, '\n');
    if t.len() == 0 || t[0] == ';' || t[0] == '#' {
    } else if t[0] == '[' && t.last() == ']' {
        lemma_lacks_subrange(t, 1, t.len() - 1, '\n');
    } else {
        let e = first_index(t, '=');
        crate::text::lemma_first_index(t, '=');
        if e < t.len() {
            let kt = t.take(e);
            let vt = t.skip(e + 1);
            assert(kt =~= t.subrange(0, e));
            assert(vt =~= t.subrange(e + 1, t.len() as int));
            lemma_lacks_subrange(t, 0, e, '\n');
            lemma_lacks_subrange(t, e + 1, t.len() as int, '\n');
            let (ka, kb) = lemma_trim_range(kt);
            let (va, vb) = lemma_trim_range(vt);
            let key = trim(kt);
            let value = trim(vt);
            lemma_lacks_subrange(kt, ka, kb, '\n');
            lemma_lacks_subrange(vt, va, vb, '\n');
            assert(lacks(key, '=')) by {
                assert forall|i: int| 0 <= i < key.len() implies key[i] != '=' by {
                    assert(key[i] == kt[ka + i]);
                    assert(kt[ka + i] == t[ka + i]);
                }
            }
            if key.len() > 0 {
                assert(kt[0] == t[0]);
                assert(!is_white_space(t[0]));
                assert(ka == 0);
                assert(key[0] == t[0]);
                if key[0] == '[' && value.len() > 0 && value.last() == ']' {
                    assert(vt.last() == t.last());
                    assert(!is_white_space(t.last()));
                    assert(vb == vt.len());
                    assert(value.last() == vt[vb - 1]);
                    assert(false);
                }
            }
            assert(entry_writable(key, value));
            lemma_set_writable(st.1, st.0, key, value);
        }
    }
}

/// Reading lines without line breaks keeps the store writable.
proof fn lemma_read_lines_writable(st: ReadState, lines: Seq<Seq<char>>)
    requires
        lacks(st.0, '\n'),
        model_writable(st.1),
        forall|i: int| 0 <= i < lines.len() ==> lacks(#[trigger] lines[i], '\n'),
    ensures
        lacks(read_lines(st, lines).0, '\n'),
        model_writable(read_lines(st, lines).1),
    decreases lines.len(),
{
    if lines.len() > 0 {
        let p = lines.drop_last();
        assert forall|i: int| 0 <= i < p.len() implies lacks(#[trigger] p[i], '\n') by {
            assert(p[i] == lines[i]);
        }
        lemma_read_lines_writable(st, p);
        assert(lacks(lines[lines.len() - 1], '\n'));
        lemma_read_line_writable(read_lines(st, p), lines.last());
    }
}

/// Whatever text is read, the store it gives is writable: each section
/// name, key and value read back from its own line.
pub proof fn lemma_parsed_writable(text: Seq<char>)
    ensures
        model_writable(text_model(text)),
{
    lemma_split_on_pieces_lack(text, '\n');
    let init: ReadState = (root_section(), Map::empty());
    assert(lacks(root_section(), '\n'));
    lemma_read_lines_writable(init, split_on(text, '\n'));
}

/// A store in name order is writable when what it holds is.
pub proof fn lemma_writable_store(v: Seq<(Seq<char>, Seq<(Seq<char>, Seq<char>)>)>)
    requires
        ini_wf(v),
        model_writable(ini_model(v)),
    ensures
        ini_writable(v),
{
    let sm = section_maps(v);
    assert(keys_of(sm) =~= keys_of(v));
    lemma_sorted_unique(v);
    lemma_sorted_unique(sm);
    assert forall|i: int| 0 <= i < v.len() implies lacks(#[trigger] v[i].0, '\n') && (forall|j: int|
        0 <= j < v[i].1.len() ==> entry_writable(#[trigger] v[i].1[j].0, v[i].1[j].1)) by {
        assert(sm[i].0 == v[i].0);
        lemma_assoc_lookup(sm, i);
        assert(ini_model(v).contains_key(v[i].0));
        assert(ini_model(v)[v[i].0] == assoc_map(v[i].1));
        assert(keys_sorted(v[i].1));
        lemma_sorted_unique(v[i].1);
        assert forall|j: int| 0 <= j < v[i].1.len() implies entry_writable(#[trigger] v[i].1[j].0, v[i].1[j].1) by {
            lemma_assoc_lookup(v[i].1, j);
            assert(ini_model(v)[v[i].0].contains_key(v[i].1[j].0));
        }
    }
}

/// A store read from any text is writable as a whole: its text reads back
/// as what it holds.
pub proof fn lemma_parsed_store_writable(v: Seq<(Seq<char>, Seq<(Seq<char>, Seq<char>)>)>, text: Seq<char>)
    requires
        ini_wf(v),
        ini_model(v) == text_model(text),
    ensures
        ini_writable(v),
{
    lemma_parsed_writable(text);
    lemma_writable_store(v);
}

} // verus!
