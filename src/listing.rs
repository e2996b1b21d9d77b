//! Listing of the keys under a prefix: every page that the backend returned is
//! drained into one collection, which is then sorted ascending.
use vstd::prelude::*;

verus! {

/// Lexicographic order of keys, character by character by code point; on
/// UTF-8 text this is the byte order by which `String`s compare.
pub open spec fn key_le(a: Seq<char>, b: Seq<char>) -> bool
    decreases a.len(),
{
    if a.len() == 0 {
        true
    } else if b.len() == 0 {
        false
    } else if a[0] != b[0] {
        (a[0] as u32) < (b[0] as u32)
    } else {
        key_le(a.drop_first(), b.drop_first())
    }
}

/// The keys in ascending order.
pub open spec fn keys_sorted(keys: Seq<Seq<char>>) -> bool {
    forall|i: int, j: int| 0 <= i < j < keys.len() ==> key_le(#[trigger] keys[i], #[trigger] keys[j])
}

/// The text of each string.
pub open spec fn texts(v: Seq<String>) -> Seq<Seq<char>> {
    v.map_values(|s: String| s@)
}

/// The keys that one page holds, in page order; entries without a key are skipped.
pub open spec fn page_keys(page: Seq<Option<String>>) -> Seq<Seq<char>>
    decreases page.len(),
{
    if page.len() == 0 {
        Seq::empty()
    } else {
        page_keys(page.drop_last()) + match page.last() {
            Some(k) => seq![k@],
            None => Seq::empty(),
        }
    }
}

/// The keys of all pages, page after page.
pub open spec fn listed_keys(pages: Seq<Vec<Option<String>>>) -> Seq<Seq<char>>
    decreases pages.len(),
{
    if pages.len() == 0 {
        Seq::empty()
    } else {
        listed_keys(pages.drop_last()) + page_keys(pages.last()@)
    }
}

/// Relies on `slice::sort` (std): sorts ascending by `Ord`, which for `String`
/// is the byte order of UTF-8, and keeps the same elements.
#[verifier::external_body]
fn sort_keys(keys: &mut Vec<String>)
    ensures
        keys_sorted(texts(final(keys)@)),
        texts(final(keys)@).to_multiset() == texts(old(keys)@).to_multiset(),
{
    keys.sort();
}

/// Every key of every page, sorted ascending.
pub fn collect_listing(pages: Vec<Vec<Option<String>>>) -> (r: Vec<String>)
    ensures
        keys_sorted(texts(r@)),
        texts(r@).to_multiset() == listed_keys(pages@).to_multiset(),
{
    let mut keys: Vec<String> = Vec::new();
    let mut i: usize = 0;
    while i < pages.len()
        invariant
            0 <= i <= pages.len(),
            texts(keys@) == listed_keys(pages@.subrange(0, i as int)),
        decreases pages.len() - i,
    {
        let page = &pages[i];
        let mut j: usize = 0;
        while j < page.len()
            invariant
                0 <= j <= page.len(),
                page == &pages@[i as int],
                i < pages.len(),
                texts(keys@) == listed_keys(pages@.subrange(0, i as int)) + page_keys(
                    page@.subrange(0, j as int),
                ),
            decreases page.len() - j,
        {
            let ghost before = keys@;
            if let Some(k) = &page[j] {
                keys.push(k.clone());
            }
            proof {
                let sub = page@.subrange(0, j as int + 1);
                assert(sub.drop_last() == page@.subrange(0, j as int));
                assert(texts(keys@) =~= texts(before) + match page@[j as int] {
                    Some(k) => seq![k@],
                    None => Seq::empty(),
                });
            }
            j += 1;
        }
        proof {
            let sub = pages@.subrange(0, i as int + 1);
            assert(sub.drop_last() == pages@.subrange(0, i as int));
            assert(page@.subrange(0, page@.len() as int) == page@);
        }
        i += 1;
    }
    assert(pages@.subrange(0, pages@.len() as int) == pages@);
    sort_keys(&mut keys);
    keys
}


/// One page of a version listing, as the backend returned it.
pub struct VersionPage {
    /// The version id of each version on the page; entries without one are skipped.
    pub versions: Vec<Option<String>>,
    pub next_key_marker: Option<String>,
    pub next_version_id_marker: Option<String>,
    pub is_truncated: Option<bool>,
}

/// The text of an optional marker; a missing marker reads as empty.
pub open spec fn marker_text(m: Option<String>) -> Seq<char> {
    match m {
        Some(s) => s@,
        None => Seq::empty(),
    }
}

/// A version listing in progress: the versions gathered so far, in the order
/// the backend reported them, and the two cursors that continue it.
pub struct VersionListing {
    versions: Vec<String>,
    key_marker: String,
    version_id_marker: String,
    truncated: bool,
}

impl VersionListing {
    /// The versions gathered so far.
    pub closed spec fn gathered(&self) -> Seq<Seq<char>> {
        texts(self.versions@)
    }

    /// The key marker that continues the listing.
    pub closed spec fn key_cursor(&self) -> Seq<char> {
        self.key_marker@
    }

    /// The version-id marker that continues the listing.
    pub closed spec fn version_cursor(&self) -> Seq<char> {
        self.version_id_marker@
    }

    /// Whether the backend reported more pages.
    pub closed spec fn more(&self) -> bool {
        self.truncated
    }

    /// Starts a listing from its first page.
    pub fn first(page: VersionPage) -> (r: Self)
        ensures
            r.gathered() == page_keys(page.versions@),
            r.key_cursor() == marker_text(page.next_key_marker),
            r.version_cursor() == marker_text(page.next_version_id_marker),
            r.more() == (page.is_truncated == Some(true)),
    {
        let mut r = VersionListing {
            versions: Vec::new(),
            key_marker: String::new(),
            version_id_marker: String::new(),
            truncated: false,
        };
        r.absorb(page);
        r
    }

    /// Adds the versions of the next page, after those gathered so far, and
    /// takes its cursors and truncation flag.
    pub fn absorb(&mut self, page: VersionPage)
        ensures
            final(self).gathered() == old(self).gathered() + page_keys(page.versions@),
            final(self).key_cursor() == marker_text(page.next_key_marker),
            final(self).version_cursor() == marker_text(page.next_version_id_marker),
            final(self).more() == (page.is_truncated == Some(true)),
    {
        let ghost before = self.versions@;
        let mut j: usize = 0;
        while j < page.versions.len()
            invariant
                0 <= j <= page.versions.len(),
                texts(self.versions@) == texts(before) + page_keys(page.versions@.subrange(0, j as int)),
            decreases page.versions.len() - j,
        {
            let ghost mid = self.versions@;
            if let Some(v) = &page.versions[j] {
                self.versions.push(v.clone());
            }
            proof {
                let sub = page.versions@.subrange(0, j as int + 1);
                assert(sub.drop_last() == page.versions@.subrange(0, j as int));
                assert(texts(self.versions@) =~= texts(mid) + match page.versions@[j as int] {
                    Some(k) => seq![k@],
                    None => Seq::empty(),
                });
            }
            j += 1;
        }
        assert(page.versions@.subrange(0, page.versions@.len() as int) == page.versions@);
        self.key_marker = match page.next_key_marker {
            Some(m) => m,
            None => String::new(),
        };
        self.version_id_marker = match page.next_version_id_marker {
            Some(m) => m,
            None => String::new(),
        };
        self.truncated = match page.is_truncated {
            Some(t) => t,
            None => false,
        };
    }

    /// The cursors that the next request carries, or `None` once the backend
    /// reported no more pages.
    pub fn next_markers(&self) -> (r: Option<(String, String)>)
        ensures
            r is Some <==> self.more(),
            r matches Some(m) ==> m.0@ == self.key_cursor() && m.1@ == self.version_cursor(),
    {
        if self.truncated {
            Some((self.key_marker.clone(), self.version_id_marker.clone()))
        } else {
            None
        }
    }

    /// The versions gathered, in the order the backend reported them.
    pub fn into_versions(self) -> (r: Vec<String>)
        ensures
            texts(r@) == self.gathered(),
    {
        self.versions
    }
}

} // verus!
