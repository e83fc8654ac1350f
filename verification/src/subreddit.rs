//! One board of the listing service: its endpoint URLs and the extraction of
//! candidate image URLs from a listing document.
//!
//! Extraction walks `data.children`; an entry whose `data.media_metadata` is
//! a mapping fans out to one gallery candidate per key, otherwise a string
//! `data.url` ending in `.jpg` is taken verbatim, and any other entry
//! contributes nothing.

use vstd::prelude::*;

use crate::json::Json;
use crate::json::field_of;

verus! {

/// A named board of the listing service.
pub struct Subreddit {
    pub name: String,
}

/// The `data.children` array of a listing document, if it has one.
pub open spec fn children_of(doc: Json) -> Option<Seq<Json>> {
    match field_of(field_of(doc, "data"@), "children"@) {
        Json::Arr(entries) => Some(entries@),
        _ => None,
    }
}

/// The gallery candidate URL built from one `media_metadata` key.
pub open spec fn gallery_url_spec(key: Seq<char>) -> Seq<char> {
    "https://i.redd.it/"@ + key + ".jpg"@
}

/// Whether `s` ends in `.jpg`.
pub open spec fn has_jpg_suffix(s: Seq<char>) -> bool {
    s.len() >= 4 && s.subrange(s.len() - 4, s.len() as int) == ".jpg"@
}

/// The candidates contributed by a gallery mapping, one per member, in the
/// mapping's own order.
pub open spec fn gallery_candidates(pairs: Seq<(String, Json)>) -> Seq<Seq<char>>
    decreases pairs.len(),
{
    if pairs.len() == 0 {
        Seq::empty()
    } else {
        gallery_candidates(pairs.drop_last()) + seq![gallery_url_spec(pairs.last().0@)]
    }
}

/// The candidates contributed by one `data.children` entry. A gallery
/// mapping takes precedence; otherwise a string `url` ending in `.jpg`
/// counts, verbatim; anything else contributes nothing.
pub open spec fn post_candidates(entry: Json) -> Seq<Seq<char>> {
    let data = field_of(entry, "data"@);
    match field_of(data, "media_metadata"@) {
        Json::Obj(pairs) => gallery_candidates(pairs@),
        _ => match field_of(data, "url"@) {
            Json::Str(u) => if has_jpg_suffix(u@) {
                seq![u@]
            } else {
                Seq::empty()
            },
            _ => Seq::empty(),
        },
    }
}

/// The candidates of a sequence of entries, in document order.
pub open spec fn candidates_of(entries: Seq<Json>) -> Seq<Seq<char>>
    decreases entries.len(),
{
    if entries.len() == 0 {
        Seq::empty()
    } else {
        candidates_of(entries.drop_last()) + post_candidates(entries.last())
    }
}

/// Every candidate URL of a listing document; empty when the document has no
/// usable `data.children` array.
pub open spec fn candidate_urls_of(doc: Json) -> Seq<Seq<char>> {
    match children_of(doc) {
        Some(entries) => candidates_of(entries),
        None => Seq::empty(),
    }
}

impl Subreddit {
    pub fn new(name: String) -> (r: Subreddit)
        ensures
            r.name == name,
    {
        Subreddit { name }
    }

    /// The listing endpoint for this board and one sort's file name.
    pub open spec fn listing_url_spec(&self, secondary: Seq<char>) -> Seq<char> {
        "https://www.reddit.com/r/"@ + self.name@ + "/"@ + secondary
    }

    /// The URL queried for this board under the given sort file name.
    pub fn url(&self, secondary: &str) -> (r: String)
        ensures
            r@ == self.listing_url_spec(secondary@),
    {
        String::from_str("https://www.reddit.com/r/").concat(self.name.as_str()).concat(
            "/",
        ).concat(secondary)
    }

    /// The `data.children` entries of a listing document; `None` when the
    /// document has no such array, which a caller reports as a board without
    /// images rather than as an error.
    pub fn get_image_data<'a>(&self, entries: &'a Json) -> (r: Option<&'a Vec<Json>>)
        ensures
            r matches Some(v) ==> children_of(*entries) == Some(v@),
            r is None ==> children_of(*entries) is None,
    {
        listing_children(entries)
    }
}

/// The `data.children` array of a listing document, if it has one.
pub fn listing_children<'a>(doc: &'a Json) -> (r: Option<&'a Vec<Json>>)
    ensures
        r matches Some(v) ==> children_of(*doc) == Some(v@),
        r is None ==> children_of(*doc) is None,
{
    let data = match doc.get("data") {
        Some(d) => d,
        None => {
            return None;
        },
    };
    let children = match data.get("children") {
        Some(c) => c,
        None => {
            return None;
        },
    };
    match children {
        Json::Arr(v) => Some(v),
        _ => None,
    }
}

/// Whether `u` ends in `.jpg`.
fn ends_with_jpg(u: &str) -> (r: bool)
    ensures
        r == has_jpg_suffix(u@),
{
    let n = u.unicode_len();
    if n < 4 {
        return false;
    }
    let c0 = u.get_char(n - 4);
    let c1 = u.get_char(n - 3);
    let c2 = u.get_char(n - 2);
    let c3 = u.get_char(n - 1);
    let r = c0 == '.' && c1 == 'j' && c2 == 'p' && c3 == 'g';
    proof {
        reveal_strlit(".jpg");
        if r {
            assert(u@.subrange(u@.len() - 4, u@.len() as int) =~= ".jpg"@);
        } else {
            assert(u@.subrange(u@.len() - 4, u@.len() as int) != ".jpg"@) by {
                if u@.subrange(u@.len() - 4, u@.len() as int) == ".jpg"@ {
                    assert(u@.subrange(u@.len() - 4, u@.len() as int)[0] == '.');
                    assert(u@.subrange(u@.len() - 4, u@.len() as int)[1] == 'j');
                    assert(u@.subrange(u@.len() - 4, u@.len() as int)[2] == 'p');
                    assert(u@.subrange(u@.len() - 4, u@.len() as int)[3] == 'g');
                }
            }
        }
    }
    r
}

/// The gallery candidate URL for one `media_metadata` key.
fn gallery_url(key: &String) -> (r: String)
    ensures
        r@ == gallery_url_spec(key@),
{
    String::from_str("https://i.redd.it/").concat(key.as_str()).concat(".jpg")
}

/// Appends the candidates of one entry to `out`.
fn push_post_candidates(out: &mut Vec<String>, entry: &Json)
    ensures
        final(out).deep_view() == old(out).deep_view() + post_candidates(*entry),
{
    let ghost base = out.deep_view();
    let data = match entry.get("data") {
        Some(d) => d,
        None => {
            proof {
                assert(out.deep_view() =~= base + post_candidates(*entry));
            }
            return ;
        },
    };
    let media = data.get("media_metadata");
    match media {
        Some(mm) => {
            match mm {
                Json::Obj(pairs) => {
                    let n = pairs.len();
                    let mut j: usize = 0;
                    while j < n
                        invariant
                            n == pairs@.len(),
                            j <= n,
                            out.deep_view() == base + gallery_candidates(pairs@.take(j as int)),
                        decreases n - j,
                    {
                        let u = gallery_url(&pairs[j].0);
                        let ghost old_dv = out.deep_view();
                        out.push(u);
                        proof {
                            let prev = pairs@.take(j as int);
                            let now = pairs@.take(j as int + 1);
                            assert(now.drop_last() =~= prev);
                            assert(now.last() == pairs@[j as int]);
                            assert(out.deep_view() =~= old_dv.push(gallery_url_spec(
                                pairs@[j as int].0@,
                            )));
                            assert(out.deep_view() =~= base + gallery_candidates(now));
                        }
                        j = j + 1;
                    }
                    proof {
                        assert(pairs@.take(n as int) =~= pairs@);
                        assert(post_candidates(*entry) == gallery_candidates(pairs@));
                    }
                },
                _ => {
                    push_direct_url(out, data);
                    proof {
                        assert(out.deep_view() =~= base + post_candidates(*entry));
                    }
                },
            }
        },
        None => {
            push_direct_url(out, data);
            proof {
                assert(out.deep_view() =~= base + post_candidates(*entry));
            }
        },
    }
}

/// Appends the `url` candidate of an entry's `data` node, when there is one;
/// used only when the entry has no gallery mapping.
fn push_direct_url(out: &mut Vec<String>, data: &Json)
    ensures
        final(out).deep_view() == old(out).deep_view() + (match field_of(*data, "url"@) {
            Json::Str(u) => if has_jpg_suffix(u@) {
                seq![u@]
            } else {
                Seq::<Seq<char>>::empty()
            },
            _ => Seq::<Seq<char>>::empty(),
        }),
{
    let ghost base = out.deep_view();
    let url_node = match data.get("url") {
        Some(w) => w,
        None => {
            proof {
                assert(out.deep_view() =~= base);
            }
            return ;
        },
    };
    match url_node {
        Json::Str(u) => {
            if ends_with_jpg(u.as_str()) {
                let ghost old_dv = out.deep_view();
                out.push(u.clone());
                proof {
                    assert(out.deep_view() =~= old_dv.push(u@));
                }
            }
        },
        _ => {},
    }
    proof {
        assert(out.deep_view() =~= base + (match field_of(*data, "url"@) {
            Json::Str(u) => if has_jpg_suffix(u@) {
                seq![u@]
            } else {
                Seq::<Seq<char>>::empty()
            },
            _ => Seq::<Seq<char>>::empty(),
        }));
    }
}

/// Every candidate image URL of a listing document, in document order,
/// galleries fanned out one candidate per key.
pub fn extract_candidates(doc: &Json) -> (r: Vec<String>)
    ensures
        r.deep_view() == candidate_urls_of(*doc),
{
    let mut out: Vec<String> = Vec::new();
    let entries = match listing_children(doc) {
        Some(v) => v,
        None => {
            proof {
                assert(out.deep_view() =~= Seq::<Seq<char>>::empty());
            }
            return out;
        },
    };
    let n = entries.len();
    let mut i: usize = 0;
    while i < n
        invariant
            n == entries@.len(),
            i <= n,
            children_of(*doc) == Some(entries@),
            out.deep_view() == candidates_of(entries@.take(i as int)),
        decreases n - i,
    {
        push_post_candidates(&mut out, &entries[i]);
        proof {
            let prev = entries@.take(i as int);
            let now = entries@.take(i as int + 1);
            assert(now.drop_last() =~= prev);
            assert(now.last() == entries@[i as int]);
        }
        i = i + 1;
    }
    proof {
        assert(entries@.take(n as int) =~= entries@);
    }
    out
}

/// A listing without a usable `data.children` array yields no candidates —
/// extraction never fails.
pub proof fn lemma_missing_children_extracts_nothing(doc: Json)
    ensures
        children_of(doc) is None ==> candidate_urls_of(doc) == Seq::<Seq<char>>::empty(),
{
}

/// A gallery mapping of K members yields exactly K candidates, one per key,
/// each `https://i.redd.it/{key}.jpg`, in the mapping's own order.
pub proof fn lemma_gallery_fanout(pairs: Seq<(String, Json)>)
    ensures
        gallery_candidates(pairs).len() == pairs.len(),
        forall|i: int|
            0 <= i < pairs.len() ==> gallery_candidates(pairs)[i] == gallery_url_spec(
                pairs[i].0@,
            ),
    decreases pairs.len(),
{
    if pairs.len() > 0 {
        lemma_gallery_fanout(pairs.drop_last());
    }
}

/// An entry whose `data.media_metadata` is a mapping contributes one
/// candidate per key of the mapping and nothing else.
pub proof fn lemma_post_gallery(entry: Json, pairs: Seq<(String, Json)>)
    requires
        field_of(field_of(entry, "data"@), "media_metadata"@) matches Json::Obj(m) && m@ == pairs,
    ensures
        post_candidates(entry).len() == pairs.len(),
        forall|i: int|
            0 <= i < pairs.len() ==> post_candidates(entry)[i] == gallery_url_spec(pairs[i].0@),
{
    lemma_gallery_fanout(pairs);
}

/// An entry without a gallery mapping whose `data.url` is a string ending in
/// `.jpg` contributes exactly that URL, verbatim.
pub proof fn lemma_post_direct_url(entry: Json, u: Seq<char>)
    requires
        !(field_of(field_of(entry, "data"@), "media_metadata"@) is Obj),
        field_of(field_of(entry, "data"@), "url"@) matches Json::Str(s) && s@ == u,
        has_jpg_suffix(u),
    ensures
        post_candidates(entry) == seq![u],
{
}

/// An entry with neither a gallery mapping nor a string `data.url` ending in
/// `.jpg` contributes no candidate.
pub proof fn lemma_post_no_image(entry: Json)
    requires
        !(field_of(field_of(entry, "data"@), "media_metadata"@) is Obj),
        match field_of(field_of(entry, "data"@), "url"@) {
            Json::Str(s) => !has_jpg_suffix(s@),
            _ => true,
        },
    ensures
        post_candidates(entry) == Seq::<Seq<char>>::empty(),
{
}

} // verus!
