//! Paging through the releases that carry some tags ("dig deeper"): which
//! page to ask for next, and the releases loaded so far.
use vstd::prelude::*;

use crate::model::{DiscoverRequest, Filters, Item};

verus! {

broadcast use vstd::string::group_string_axioms;

/// The request for page `page` of the releases tagged `tags`: any format,
/// anywhere, most popular first.
pub open spec fn request_for(tags: Seq<String>, page: i64, r: DiscoverRequest) -> bool {
    &&& r.filters.format@ == "all"@
    &&& r.filters.location == 0
    &&& r.filters.sort@ == "pop"@
    &&& r.filters.tags@.len() == tags.len()
    &&& forall|i: int| 0 <= i < tags.len() ==> #[trigger] r.filters.tags@[i]@ == tags[i]@
    &&& r.page == page
}

/// Builds the request for page `page` of the releases tagged `tags`.
pub fn discover_request(tags: Vec<String>, page: usize) -> (r: DiscoverRequest)
    ensures
        request_for(tags@, page as i64, r),
{
    DiscoverRequest {
        filters: Filters {
            format: "all".to_string(),
            location: 0,
            sort: "pop".to_string(),
            tags,
        },
        page: page as i64,
    }
}

/// The releases loaded so far for the selected tags, and how many pages
/// were asked for.
pub struct DiscoverLoader {
    loaded_discover_pages: usize,
    pub discover: Vec<Item>,
}

impl DiscoverLoader {
    /// The number of pages asked for.
    pub closed spec fn pages(&self) -> usize {
        self.loaded_discover_pages
    }

    /// The releases loaded so far.
    pub closed spec fn loaded(&self) -> Seq<Item> {
        self.discover@
    }

    /// Nothing loaded yet.
    pub fn new() -> (l: Self)
        ensures
            l.pages() == 0,
            l.loaded() == Seq::<Item>::empty(),
    {
        Self { loaded_discover_pages: 0, discover: Vec::new() }
    }

    /// Asks for the next page of the releases tagged `tags`: counts the page
    /// and returns its request. With no tags nothing is asked for and `None`
    /// comes back.
    pub fn extend_discover(&mut self, tags: Vec<String>) -> (r: Option<DiscoverRequest>)
        requires
            old(self).pages() < usize::MAX,
        ensures
            final(self).loaded() == old(self).loaded(),
            tags@.len() == 0 ==> r is None && final(self).pages() == old(self).pages(),
            tags@.len() > 0 ==> (final(self).pages() == old(self).pages() + 1 && r is Some
                && request_for(tags@, final(self).pages() as i64, r.unwrap())),
    {
        if tags.len() != 0 {
            self.loaded_discover_pages = self.loaded_discover_pages + 1;
            Some(discover_request(tags, self.loaded_discover_pages))
        } else {
            None
        }
    }

    /// Adds the releases of a loaded page.
    pub fn append_discover(&mut self, items: Vec<Item>)
        ensures
            final(self).pages() == old(self).pages(),
            final(self).loaded() == old(self).loaded() + items@,
    {
        let mut items = items;
        self.discover.append(&mut items);
    }
}

/// The selected tags and the releases loaded for them, as the terminal
/// front-end keeps them.
pub struct State {
    loaded_discover_pages: usize,
    pub selected_tags: Vec<String>,
    pub discover: Vec<Item>,
}

/// Whether `tags` holds a tag with the text `tag`.
pub open spec fn has_tag(tags: Seq<String>, tag: Seq<char>) -> bool {
    exists|i: int| 0 <= i < tags.len() && #[trigger] tags[i]@ == tag
}

impl State {
    /// The number of pages asked for.
    pub closed spec fn pages(&self) -> usize {
        self.loaded_discover_pages
    }

    /// The releases loaded so far.
    pub closed spec fn loaded(&self) -> Seq<Item> {
        self.discover@
    }

    /// The selected tags.
    pub closed spec fn selected(&self) -> Seq<String> {
        self.selected_tags@
    }

    /// The number of releases loaded.
    pub fn loaded_count(&self) -> (r: usize)
        ensures
            r == self.loaded().len(),
    {
        self.discover.len()
    }

    /// The release loaded at `i`.
    pub fn release(&self, i: usize) -> (r: &Item)
        requires
            i < self.loaded().len(),
        ensures
            *r == self.loaded()[i as int],
    {
        &self.discover[i]
    }

    /// The selected tags.
    pub fn tags(&self) -> (r: &Vec<String>)
        ensures
            r@ == self.selected(),
    {
        &self.selected_tags
    }

    /// The number of pages asked for.
    pub fn pages_asked(&self) -> (r: usize)
        ensures
            r == self.pages(),
    {
        self.loaded_discover_pages
    }

    /// No tags, nothing loaded.
    pub fn new() -> (s: Self)
        ensures
            s.pages() == 0,
            s.selected() == Seq::<String>::empty(),
            s.loaded() == Seq::<Item>::empty(),
    {
        Self { loaded_discover_pages: 0, selected_tags: Vec::new(), discover: Vec::new() }
    }

    /// Asks for the next page of the releases tagged with the selected tags;
    /// `None` when no tag is selected.
    pub fn extend_discover(&mut self) -> (r: Option<DiscoverRequest>)
        requires
            old(self).pages() < usize::MAX,
        ensures
            final(self).selected() == old(self).selected(),
            final(self).loaded() == old(self).loaded(),
            old(self).selected().len() == 0 ==> r is None && final(self).pages() == old(
                self,
            ).pages(),
            old(self).selected().len() > 0 ==> (final(self).pages() == old(self).pages() + 1
                && r is Some && request_for(
                old(self).selected(),
                final(self).pages() as i64,
                r.unwrap(),
            )),
    {
        if self.selected_tags.len() > 0 {
            self.loaded_discover_pages = self.loaded_discover_pages + 1;
            let tags = clone_strings(&self.selected_tags);
            Some(discover_request(tags, self.loaded_discover_pages))
        } else {
            None
        }
    }

    /// Adds the releases of a loaded page.
    pub fn append_discover(&mut self, items: Vec<Item>)
        ensures
            final(self).pages() == old(self).pages(),
            final(self).selected() == old(self).selected(),
            final(self).loaded() == old(self).loaded() + items@,
    {
        let mut items = items;
        self.discover.append(&mut items);
    }

    /// Selects `tag` unless a tag with the same text is selected already.
    pub fn add_tag(&mut self, tag: String)
        ensures
            final(self).loaded() == old(self).loaded(),
            final(self).pages() == old(self).pages(),
            final(self).selected() == tags_with(old(self).selected(), tag),
    {
        let mut i: usize = 0;
        let mut is_present = false;
        while i < self.selected_tags.len()
            invariant
                i <= self.selected_tags.len(),
                is_present == exists|j: int|
                    0 <= j < i && #[trigger] self.selected_tags@[j]@ == tag@,
            decreases self.selected_tags.len() - i,
        {
            if self.selected_tags[i] == tag {
                is_present = true;
            }
            i = i + 1;
        }
        if !is_present {
            self.selected_tags.push(tag);
        }
    }
}

/// A copy of each string of `v`.
fn clone_strings(v: &Vec<String>) -> (r: Vec<String>)
    ensures
        r@.len() == v@.len(),
        forall|i: int| 0 <= i < v@.len() ==> #[trigger] r@[i]@ == v@[i]@,
{
    let mut r: Vec<String> = Vec::new();
    let mut i: usize = 0;
    while i < v.len()
        invariant
            i <= v.len(),
            r@.len() == i,
            forall|j: int| 0 <= j < i ==> #[trigger] r@[j]@ == v@[j]@,
        decreases v.len() - i,
    {
        r.push(v[i].clone());
        i = i + 1;
    }
    r
}

/// The selected tags after asking to select `tag`.
pub open spec fn tags_with(tags: Seq<String>, tag: String) -> Seq<String> {
    if has_tag(tags, tag@) {
        tags
    } else {
        tags.push(tag)
    }
}

/// Selecting a tag twice selects it once.
pub proof fn lemma_add_tag_idempotent(tags: Seq<String>, tag: String)
    ensures
        tags_with(tags_with(tags, tag), tag) == tags_with(tags, tag),
{
    if !has_tag(tags, tag@) {
        let t = tags.push(tag);
        assert(t[tags.len() as int]@ == tag@);
        assert(has_tag(t, tag@));
    }
}

} // verus!
