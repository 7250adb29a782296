//! What the library scan decides about each file: whether it is audio, which
//! tags name it, how its artists are listed, and its stable id.
use vstd::prelude::*;
use crate::catalog::{chars_of, lower_of, lowercase, SongMeta};
use vstd::string::StringSliceAdditionalSpecFns;

verus! {

broadcast use vstd::seq_lib::group_seq_properties;

/// The name-based (version 5) UUID of `name` in the URL namespace, as a number.
pub uninterp spec fn url_uuid_v5(name: Seq<u8>) -> u128;

/// Relies on `uuid::Uuid::new_v5` with `Uuid::NAMESPACE_URL`, and `Uuid::as_u128`:
/// the id depends on the bytes of the name alone.
#[verifier::external_body]
fn uuid_v5_of(name: &[u8]) -> (r: u128)
    ensures
        r == url_uuid_v5(name@),
{
    uuid::Uuid::new_v5(&uuid::Uuid::NAMESPACE_URL, name).as_u128()
}

/// Relies on `String::from_iter` over `char`s: the string of exactly these characters.
#[verifier::external_body]
fn string_of(v: &Vec<char>) -> (r: String)
    ensures
        r@ == v@,
{
    v.iter().collect()
}

/// The stable id of `name` (a song's absolute path, a playlist's title): the
/// same name always gives the same id.
pub fn stable_id(name: &str) -> (r: u128)
    ensures
        r == url_uuid_v5(name.spec_bytes()),
{
    uuid_v5_of(name.as_bytes())
}

/// A lowercase extension of the audio files taken into the catalog.
pub open spec fn audio_word(l: Seq<char>) -> bool {
    l == "mp3"@ || l == "flac"@ || l == "wav"@ || l == "ogg"@ || l == "m4a"@
}

/// The lowercased extension is one of mp3, flac, wav, ogg and m4a.
pub open spec fn is_audio_ext(ext: Seq<char>) -> bool {
    audio_word(lower_of(ext))
}

fn same_chars(a: &Vec<char>, b: &Vec<char>) -> (r: bool)
    ensures
        r == (a@ == b@),
{
    if a.len() != b.len() {
        return false;
    }
    let mut i: usize = 0;
    while i < a.len()
        invariant
            a@.len() == b@.len(),
            i <= a@.len(),
            forall|k: int| 0 <= k < i ==> a@[k] == b@[k],
        decreases a.len() - i,
    {
        if a[i] != b[i] {
            return false;
        }
        i += 1;
    }
    assert(a@ =~= b@);
    true
}

/// Whether `lit`, as characters, equals `v`.
fn is_word(v: &Vec<char>, lit: &str) -> (r: bool)
    ensures
        r == (v@ == lit@),
{
    let w = chars_of(lit);
    same_chars(v, &w)
}

/// Whether a file with extension `ext` is taken into the catalog.
pub fn is_audio_extension(ext: &str) -> (r: bool)
    ensures
        r == is_audio_ext(ext@),
{
    let l = lowercase(ext);
    is_audio_word(&l)
}

/// Whether the lowercased extension `l` is one of an audio file.
pub fn is_audio_word(l: &Vec<char>) -> (r: bool)
    ensures
        r == audio_word(l@),
{
    is_word(l, "mp3") || is_word(l, "flac") || is_word(l, "wav") || is_word(l, "ogg") || is_word(l, "m4a")
}

/// Which field a lowercase tag key sets: 1 for the title, 2 for the artist, 0 for neither.
pub open spec fn field_of_word(l: Seq<char>) -> u8 {
    if l == "title"@ || l == "tit2"@ {
        1
    } else if l == "artist"@ || l == "tpe1"@ {
        2
    } else {
        0
    }
}

/// Which field a tag key sets, whatever its case.
pub open spec fn tag_field(key: Seq<char>) -> u8 {
    field_of_word(lower_of(key))
}

/// Which field the lowercased tag key `l` sets: 1 for the title, 2 for the artist, 0 for neither.
pub fn tag_field_of_word(l: &Vec<char>) -> (r: u8)
    ensures
        r == field_of_word(l@),
{
    if is_word(l, "title") || is_word(l, "tit2") {
        1
    } else if is_word(l, "artist") || is_word(l, "tpe1") {
        2
    } else {
        0
    }
}

/// Takes one tag into the title and artist found so far: a non-empty value
/// under the key title (or TIT2) replaces the title, under artist (or TPE1)
/// the artist; any other tag is ignored.
pub fn apply_tag(key: &str, val: &str, title: &mut String, artist: &mut String)
    ensures
        (val@.len() > 0 && tag_field(key@) == 1) ==> final(title)@ == val@,
        !(val@.len() > 0 && tag_field(key@) == 1) ==> final(title)@ == old(title)@,
        (val@.len() > 0 && tag_field(key@) == 2) ==> final(artist)@ == val@,
        !(val@.len() > 0 && tag_field(key@) == 2) ==> final(artist)@ == old(artist)@,
{
    if val.is_empty() {
        return;
    }
    let l = lowercase(key);
    let field = tag_field_of_word(&l);
    if field == 1 {
        *title = val.to_owned();
    } else if field == 2 {
        *artist = val.to_owned();
    }
}

/// The pieces joined with '/' between each two.
pub open spec fn join_slash(p: Seq<Seq<char>>) -> Seq<char>
    decreases p.len(),
{
    if p.len() == 0 {
        Seq::empty()
    } else if p.len() == 1 {
        p[0]
    } else {
        join_slash(p.drop_last()) + seq!['/'] + p.last()
    }
}

proof fn lemma_join_push(p: Seq<Seq<char>>, x: Seq<char>)
    requires
        p.len() > 0,
    ensures
        join_slash(p.push(x)) == join_slash(p) + seq!['/'] + x,
{
    assert(p.push(x).drop_last() =~= p);
}

/// The pieces `p` joined with '/', followed by one more '/' when there are any:
/// the text that comes before the piece still being read.
spec fn done_prefix(p: Seq<Seq<char>>) -> Seq<char> {
    if p.len() == 0 {
        Seq::empty()
    } else {
        join_slash(p) + seq!['/']
    }
}

/// The artist names in `s`, split at each '/'.
pub fn split_artists(s: &str) -> (r: Vec<String>)
    ensures
        r@.len() >= 1,
        join_slash(r@.map_values(|a: String| a@)) == s@,
        forall|i: int| 0 <= i < r@.len() ==> !(#[trigger] r@[i])@.contains('/'),
{
    let cs = chars_of(s);
    let mut pieces: Vec<String> = Vec::new();
    let mut cur: Vec<char> = Vec::new();
    let mut i: usize = 0;
    while i < cs.len()
        invariant
            i <= cs@.len(),
            cs@ == s@,
            done_prefix(pieces@.map_values(|a: String| a@)) + cur@ == cs@.take(i as int),
            !cur@.contains('/'),
            forall|k: int| 0 <= k < pieces@.len() ==> !(#[trigger] pieces@[k])@.contains('/'),
        decreases cs.len() - i,
    {
        let c = cs[i];
        let ghost before = pieces@.map_values(|a: String| a@);
        if c == '/' {
            let piece = string_of(&cur);
            pieces.push(piece);
            proof {
                let after = pieces@.map_values(|a: String| a@);
                assert(after =~= before.push(cur@));
                if before.len() > 0 {
                    lemma_join_push(before, cur@);
                }
                assert(done_prefix(after) + Seq::<char>::empty() =~= cs@.take(i + 1));
            }
            cur = Vec::new();
        } else {
            let ghost old_cur = cur@;
            cur.push(c);
            proof {
                assert(pieces@.map_values(|a: String| a@) =~= before);
                assert(done_prefix(before) + cur@ =~= cs@.take(i + 1));
                assert forall|x: char| cur@.contains(x) implies x != '/' by {
                    let k = choose|k: int| 0 <= k < cur@.len() && cur@[k] == x;
                    if k < cur@.len() - 1 {
                        assert(old_cur[k] == x);
                    }
                }
            }
        }
        i += 1;
    }
    let ghost before = pieces@.map_values(|a: String| a@);
    let last = string_of(&cur);
    pieces.push(last);
    proof {
        let after = pieces@.map_values(|a: String| a@);
        assert(after =~= before.push(cur@));
        if before.len() > 0 {
            lemma_join_push(before, cur@);
        } else {
            assert(join_slash(after) == cur@);
        }
        assert(cs@.take(i as int) =~= cs@);
        assert(join_slash(after) =~= s@);
    }
    pieces
}


/// Title and artist after taking the tags in order, starting from `title` and `artist`.
pub open spec fn fold_tags(tags: Seq<(Seq<char>, Seq<char>)>, title: Seq<char>, artist: Seq<char>) -> (Seq<char>, Seq<char>)
    decreases tags.len(),
{
    if tags.len() == 0 {
        (title, artist)
    } else {
        let prev = fold_tags(tags.drop_last(), title, artist);
        let k = tags.last().0;
        let v = tags.last().1;
        if v.len() > 0 && tag_field(k) == 1 {
            (v, prev.1)
        } else if v.len() > 0 && tag_field(k) == 2 {
            (prev.0, v)
        } else {
            prev
        }
    }
}

/// The tags as pairs of character sequences.
pub open spec fn tag_views(tags: Seq<(String, String)>) -> Seq<(Seq<char>, Seq<char>)> {
    tags.map_values(|p: (String, String)| (p.0@, p.1@))
}

/// The title a file gets before its tags are read: its stem, else "Unknown".
pub open spec fn default_title(stem: Option<Seq<char>>) -> Seq<char> {
    match stem {
        Some(s) => s,
        None => "Unknown"@,
    }
}

/// The catalog entry for the file at `path`: its id comes from the path, its
/// title from the tags or else from `stem` (the file name without extension)
/// or else "Unknown", its artists from the tags (split at '/') or else
/// "Unknown", and `duration` is what the container reports.
pub fn song_meta_from_tags(path: &str, stem: Option<&str>, tags: &Vec<(String, String)>, duration: u128) -> (r: SongMeta)
    ensures
        r.id == url_uuid_v5(path.spec_bytes()),
        r.path@ == path@,
        r.duration == duration,
        r.title@ == fold_tags(tag_views(tags@), default_title(match stem { Some(s) => Some(s@), None => None }), "Unknown"@).0,
        join_slash(r.artists@.map_values(|a: String| a@)) == fold_tags(
            tag_views(tags@),
            default_title(match stem { Some(s) => Some(s@), None => None }),
            "Unknown"@,
        ).1,
        forall|i: int| 0 <= i < r.artists@.len() ==> !(#[trigger] r.artists@[i])@.contains('/'),
{
    let ghost t0 = default_title(match stem { Some(s) => Some(s@), None => None });
    let mut title = match stem {
        Some(s) => s.to_owned(),
        None => "Unknown".to_owned(),
    };
    let mut artist = "Unknown".to_owned();
    let mut i: usize = 0;
    while i < tags.len()
        invariant
            i <= tags@.len(),
            (title@, artist@) == fold_tags(tag_views(tags@).take(i as int), t0, "Unknown"@),
        decreases tags.len() - i,
    {
        let (k, v) = (&tags[i].0, &tags[i].1);
        apply_tag(k.as_str(), v.as_str(), &mut title, &mut artist);
        proof {
            assert(tag_views(tags@).take(i + 1).drop_last() =~= tag_views(tags@).take(i as int));
            assert(tag_views(tags@).take(i + 1).last() == (k@, v@));
        }
        i += 1;
    }
    proof {
        assert(tag_views(tags@).take(i as int) =~= tag_views(tags@));
    }
    let artists = split_artists(artist.as_str());
    SongMeta { id: stable_id(path), title, artists, duration, path: path.to_owned() }
}

} // verus!
