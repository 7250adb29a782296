//! Song catalog: entries keyed by a stable id, lookup and search.
use vstd::prelude::*;

verus! {

broadcast use vstd::seq_lib::group_seq_properties, vstd::seq_lib::group_to_multiset_ensures;

/// A song as the indexer found it. `id` is derived from the file's absolute
/// path, so the same file keeps its id across scans.
pub struct SongMeta {
    pub id: u128,
    pub title: String,
    pub artists: Vec<String>,
    /// Length in nanoseconds.
    pub duration: u128,
    pub path: String,
}

/// A catalog entry as values.
pub struct MetaView {
    pub id: u128,
    pub title: Seq<char>,
    pub artists: Seq<Seq<char>>,
    pub duration: u128,
    pub path: Seq<char>,
}

impl View for SongMeta {
    type V = MetaView;

    open spec fn view(&self) -> MetaView {
        MetaView {
            id: self.id,
            title: self.title@,
            artists: self.artists@.map_values(|a: String| a@),
            duration: self.duration,
            path: self.path@,
        }
    }
}

/// The values of a sequence of entries.
pub open spec fn views(s: Seq<SongMeta>) -> Seq<MetaView> {
    s.map_values(|m: SongMeta| m@)
}

/// A song as clients see it: everything but the path.
pub struct Song {
    pub id: u128,
    pub title: String,
    pub artists: Vec<String>,
    pub duration: u128,
}

/// A client's song as values.
pub struct SongView {
    pub id: u128,
    pub title: Seq<char>,
    pub artists: Seq<Seq<char>>,
    pub duration: u128,
}

impl View for Song {
    type V = SongView;

    open spec fn view(&self) -> SongView {
        SongView {
            id: self.id,
            title: self.title@,
            artists: self.artists@.map_values(|a: String| a@),
            duration: self.duration,
        }
    }
}

/// The client's song of a catalog entry: everything but the path.
pub open spec fn song_of(m: MetaView) -> SongView {
    SongView { id: m.id, title: m.title, artists: m.artists, duration: m.duration }
}

/// What to search the catalog by, with the query.
pub enum SearchType {
    ByTitle(String),
    ByArtist(String),
}

/// All songs known, each id at most once. The entries are kept in a `Vec`,
/// in the order they were added, rather than in a map keyed by id: a
/// `HashMap` is walked in an order that its per-process hasher decides and
/// that vstd states nothing about, while a search here walks every entry and
/// its loop is proved over a sequence.
pub struct Catalog {
    entries: Vec<SongMeta>,
}

/// Lowercase form of a string, as `str::to_lowercase` gives it.
pub uninterp spec fn lower_of(s: Seq<char>) -> Seq<char>;

/// Relies on `str::to_lowercase`: its result depends on the characters alone.
#[verifier::external_body]
pub(crate) fn lowercase(s: &str) -> (r: Vec<char>)
    ensures
        r@ == lower_of(s@),
{
    s.to_lowercase().chars().collect()
}

/// Relies on `str::chars`: the characters of the string, in order.
#[verifier::external_body]
pub(crate) fn chars_of(s: &str) -> (r: Vec<char>)
    ensures
        r@ == s@,
{
    s.chars().collect()
}

/// `needle` occurs in `hay` as a contiguous run.
pub open spec fn contains(hay: Seq<char>, needle: Seq<char>) -> bool {
    exists|i: int| 0 <= i <= hay.len() - needle.len() && #[trigger] hay.subrange(i, i + needle.len()) == needle
}

/// Lexicographic order on characters by code point, which is the order of
/// `String`s (their UTF-8 bytes compare the same way).
pub open spec fn lex_le(a: Seq<char>, b: Seq<char>) -> bool
    decreases a.len(),
{
    if a.len() == 0 {
        true
    } else if b.len() == 0 {
        false
    } else if (a[0] as u32) != (b[0] as u32) {
        (a[0] as u32) < (b[0] as u32)
    } else {
        lex_le(a.drop_first(), b.drop_first())
    }
}

/// A song matches a search when the lowercased query occurs in its lowercased
/// title, or in one of its lowercased artist names.
pub open spec fn song_matches(s: SearchType, m: MetaView) -> bool {
    match s {
        SearchType::ByTitle(q) => contains(lower_of(m.title), lower_of(q@)),
        SearchType::ByArtist(q) => exists|j: int|
            0 <= j < m.artists.len() && contains(lower_of(#[trigger] m.artists[j]), lower_of(q@)),
    }
}

/// Neighbouring entries are in ascending order of title.
pub open spec fn sorted_by_title(r: Seq<MetaView>) -> bool {
    forall|i: int| 0 <= i < r.len() - 1 ==> lex_le((#[trigger] r[i]).title, r[i + 1].title)
}

/// Every two entries have different ids.
pub open spec fn ids_unique(r: Seq<SongMeta>) -> bool {
    forall|i: int, j: int| 0 <= i < j < r.len() ==> (#[trigger] r[i]).id != (#[trigger] r[j]).id
}

proof fn lemma_lex_total(a: Seq<char>, b: Seq<char>)
    ensures
        lex_le(a, b) || lex_le(b, a),
    decreases a.len(),
{
    if a.len() > 0 && b.len() > 0 && (a[0] as u32) == (b[0] as u32) {
        lemma_lex_total(a.drop_first(), b.drop_first());
    }
}

/// Whether `needle` occurs in `hay`.
pub fn contains_chars(hay: &Vec<char>, needle: &Vec<char>) -> (r: bool)
    ensures
        r == contains(hay@, needle@),
{
    if needle.len() > hay.len() {
        return false;
    }
    let last = hay.len() - needle.len();
    let mut i: usize = 0;
    while i <= last
        invariant
            last == hay.len() - needle.len(),
            i <= last + 1,
            forall|k: int| 0 <= k < i ==> #[trigger] hay@.subrange(k, k + needle@.len()) != needle@,
        decreases last + 1 - i,
    {
        let mut j: usize = 0;
        let mut same = true;
        while j < needle.len()
            invariant
                i <= last,
                last == hay.len() - needle.len(),
                j <= needle.len(),
                same == (forall|k: int| 0 <= k < j ==> hay@[i + k] == needle@[k]),
            decreases needle.len() - j,
        {
            if hay[i + j] != needle[j] {
                same = false;
            }
            j += 1;
        }
        if same {
            assert(hay@.subrange(i as int, i + needle@.len()) =~= needle@);
            return true;
        }
        assert(hay@.subrange(i as int, i + needle@.len())[j as int - 1] == hay@[i + j - 1]);
        proof {
            let k = choose|k: int| 0 <= k < needle@.len() && hay@[i + k] != needle@[k];
            assert(hay@.subrange(i as int, i + needle@.len())[k] != needle@[k]);
        }
        i += 1;
    }
    false
}

/// Whether `a` comes before `b`, or equals it, in the order of strings.
pub fn title_le(a: &Vec<char>, b: &Vec<char>) -> (r: bool)
    ensures
        r == lex_le(a@, b@),
{
    let mut i: usize = 0;
    while i < a.len() && i < b.len()
        invariant
            i <= a.len(),
            i <= b.len(),
            lex_le(a@, b@) == lex_le(a@.skip(i as int), b@.skip(i as int)),
        decreases a.len() - i,
    {
        let x = a[i] as u32;
        let y = b[i] as u32;
        if x != y {
            return x < y;
        }
        assert(a@.skip(i as int).drop_first() =~= a@.skip(i + 1));
        assert(b@.skip(i as int).drop_first() =~= b@.skip(i + 1));
        i += 1;
    }
    i == a.len()
}

impl SongMeta {
    /// A field-for-field copy.
    pub fn copy(&self) -> (r: SongMeta)
        ensures
            r@ == self@,
    {
        let artists = self.artists.clone();
        assert(artists@ =~= self.artists@);
        assert(artists@.map_values(|a: String| a@) =~= self.artists@.map_values(|a: String| a@));
        SongMeta {
            id: self.id,
            title: self.title.clone(),
            artists,
            duration: self.duration,
            path: self.path.clone(),
        }
    }
}

impl Song {
    /// The client's view of a catalog entry.
    pub fn from_meta(m: &SongMeta) -> (r: Song)
        ensures
            r@ == song_of(m@),
    {
        let artists = m.artists.clone();
        assert(artists@ =~= m.artists@);
        assert(artists@.map_values(|a: String| a@) =~= m.artists@.map_values(|a: String| a@));
        Song { id: m.id, title: m.title.clone(), artists, duration: m.duration }
    }
}

/// Whether `m` matches the search `s`.
pub fn matches_search(s: &SearchType, m: &SongMeta) -> (r: bool)
    ensures
        r == song_matches(*s, m@),
{
    match s {
        SearchType::ByTitle(q) => {
            let q = lowercase(q.as_str());
            let t = lowercase(m.title.as_str());
            contains_chars(&t, &q)
        },
        SearchType::ByArtist(q) => {
            let q = lowercase(q.as_str());
            let mut j: usize = 0;
            while j < m.artists.len()
                invariant
                    *s is ByArtist,
                    q@ == lower_of(s->ByArtist_0@),
                    j <= m.artists@.len(),
                    forall|k: int|
                        0 <= k < j ==> !contains(lower_of((#[trigger] m@.artists[k])), q@),
                decreases m.artists.len() - j,
            {
                let a = lowercase(m.artists[j].as_str());
                if contains_chars(&a, &q) {
                    assert(m@.artists[j as int] == m.artists@[j as int]@);
                    assert(contains(lower_of(m@.artists[j as int]), q@));
                    return true;
                }
                j += 1;
            }
            false
        },
    }
}

impl Catalog {
    pub closed spec fn entries(&self) -> Seq<SongMeta> {
        self.entries@
    }

    pub open spec fn wf(&self) -> bool {
        ids_unique(self.entries())
    }

    /// An empty catalog.
    pub fn new() -> (r: Catalog)
        ensures
            r.wf(),
            r.entries() == Seq::<SongMeta>::empty(),
    {
        Catalog { entries: Vec::new() }
    }

    pub fn len(&self) -> (r: usize)
        ensures
            r == self.entries().len(),
    {
        self.entries.len()
    }

    /// The entry at position `i`.
    pub fn entry(&self, i: usize) -> (r: &SongMeta)
        requires
            i < self.entries().len(),
        ensures
            *r == self.entries()[i as int],
    {
        &self.entries[i]
    }

    /// Position of the entry with id `id`.
    pub fn find(&self, id: u128) -> (r: Option<usize>)
        ensures
            r is None <==> (forall|i: int| 0 <= i < self.entries().len() ==> (#[trigger] self.entries()[i]).id != id),
            r matches Some(i) ==> i < self.entries().len() && self.entries()[i as int].id == id,
    {
        let mut i: usize = 0;
        while i < self.entries.len()
            invariant
                i <= self.entries@.len(),
                forall|k: int| 0 <= k < i ==> (#[trigger] self.entries@[k]).id != id,
            decreases self.entries.len() - i,
        {
            if self.entries[i].id == id {
                assert(self.entries()[i as int].id == id);
                return Some(i);
            }
            i += 1;
        }
        None
    }

    /// The entry with id `id`, if there is one.
    pub fn get(&self, id: u128) -> (r: Option<&SongMeta>)
        ensures
            r is None <==> (forall|i: int| 0 <= i < self.entries().len() ==> (#[trigger] self.entries()[i]).id != id),
            r matches Some(m) ==> m.id == id && self.entries().contains(*m),
    {
        match self.find(id) {
            Some(i) => Some(&self.entries[i]),
            None => None,
        }
    }

    /// Adds `m`, replacing the entry that has its id if there is one.
    pub fn insert(&mut self, m: SongMeta)
        requires
            old(self).wf(),
        ensures
            final(self).wf(),
            final(self).entries().contains(m),
            forall|i: int| 0 <= i < old(self).entries().len() && (#[trigger] old(self).entries()[i]).id != m.id
                ==> final(self).entries().contains(old(self).entries()[i]),
            forall|x: SongMeta| #[trigger] final(self).entries().contains(x) ==> x == m || old(self).entries().contains(x),
    {
        match self.find(m.id) {
            Some(i) => {
                self.entries.set(i, m);
                proof {
                    assert(final(self).entries@[i as int] == m);
                    assert forall|k: int| 0 <= k < old(self).entries@.len() && (#[trigger] old(self).entries@[k]).id != m.id
                        implies final(self).entries@.contains(old(self).entries@[k]) by {
                        assert(final(self).entries@[k] == old(self).entries@[k]);
                    }
                    assert forall|x: SongMeta| #[trigger] final(self).entries@.contains(x) implies x == m || old(self).entries@.contains(x) by {
                        let k = choose|k: int| 0 <= k < final(self).entries@.len() && final(self).entries@[k] == x;
                        if k != i {
                            assert(old(self).entries@[k] == x);
                        }
                    }
                }
            },
            None => {
                self.entries.push(m);
                proof {
                    let n = old(self).entries@.len();
                    assert(final(self).entries@[n as int] == m);
                    assert forall|k: int| 0 <= k < n && (#[trigger] old(self).entries@[k]).id != m.id
                        implies final(self).entries@.contains(old(self).entries@[k]) by {
                        assert(final(self).entries@[k] == old(self).entries@[k]);
                    }
                    assert forall|x: SongMeta| #[trigger] final(self).entries@.contains(x) implies x == m || old(self).entries@.contains(x) by {
                        let k = choose|k: int| 0 <= k < final(self).entries@.len() && final(self).entries@[k] == x;
                        if k < n {
                            assert(old(self).entries@[k] == x);
                        }
                    }
                }
            },
        }
    }

    /// The entries that match `s`, in ascending order of title.
    pub fn search(&self, s: SearchType) -> (r: Vec<SongMeta>)
        ensures
            views(r@).to_multiset() == views(self.entries()).filter(|m: MetaView| song_matches(s, m)).to_multiset(),
            sorted_by_title(views(r@)),
    {
        let ghost pred = |m: MetaView| song_matches(s, m);
        let mut results: Vec<SongMeta> = Vec::new();
        let mut i: usize = 0;
        while i < self.entries.len()
            invariant
                i <= self.entries@.len(),
                pred == (|m: MetaView| song_matches(s, m)),
                views(results@).to_multiset() == views(self.entries@).take(i as int).filter(pred).to_multiset(),
                sorted_by_title(views(results@)),
            decreases self.entries.len() - i,
        {
            let m = &self.entries[i];
            proof {
                assert(views(self.entries@).take(i + 1) =~= views(self.entries@).take(i as int).push(m@));
                views(self.entries@).take(i as int).lemma_filter_push(m@, pred);
            }
            if matches_search(&s, m) {
                let key = chars_of(m.title.as_str());
                let mut p: usize = 0;
                let mut placed = false;
                while p < results.len() && !placed
                    invariant
                        p <= results@.len(),
                        key@ == m.title@,
                        !placed ==> forall|k: int| 0 <= k < p ==> lex_le((#[trigger] results@[k]).title@, key@),
                        placed ==> p > 0 && !lex_le(results@[p - 1].title@, key@)
                            && forall|k: int| 0 <= k < p - 1 ==> lex_le((#[trigger] results@[k]).title@, key@),
                    decreases results.len() - p,
                {
                    let other = chars_of(results[p].title.as_str());
                    if !title_le(&other, &key) {
                        placed = true;
                    }
                    p += 1;
                }
                let pos: usize = if placed { p - 1 } else { p };
                proof {
                    if pos < results@.len() {
                        lemma_lex_total(results@[pos as int].title@, m.title@);
                    }
                }
                let ghost before = results@;
                let c = m.copy();
                results.insert(pos, c);
                proof {
                    assert(views(results@) =~= views(before).insert(pos as int, m@));
                    vstd::seq_lib::to_multiset_insert(views(before), pos as int, m@);
                    let vr = views(results@);
                    let vb = views(before);
                    assert forall|k: int| 0 <= k < vr.len() - 1 implies lex_le(
                        (#[trigger] vr[k]).title,
                        vr[k + 1].title,
                    ) by {
                        if k < pos as int - 1 {
                            assert(vr[k] == vb[k] && vr[k + 1] == vb[k + 1]);
                        } else if k == pos as int - 1 {
                            assert(vr[k] == vb[k] && vb[k] == before[k]@);
                        } else if k == pos as int {
                            assert(vr[k + 1] == vb[k] && vb[k] == before[k]@);
                        } else {
                            assert(vr[k] == vb[k - 1] && vr[k + 1] == vb[k]);
                        }
                    }
                }
            }
            i += 1;
        }
        proof {
            assert(views(self.entries@).take(i as int) =~= views(self.entries@));
        }
        results
    }
}

} // verus!
