use vstd::prelude::*;
use crate::anime::Anime;
use crate::fetch::{Pager, FIRST_POST_PAGE};
use crate::parser::{Parser, ParseError, listing_ok, listed, episodes_ok, episodes_listed};
use crate::settings::{Settings, default_entries};

verus! {

/// Where the catalog is kept unless told otherwise.
pub open spec fn default_path() -> Seq<char> {
    "./data/cache.json"@
}

/// The persisted catalog: known shows, preferences and the listing watermark.
#[derive(Clone, Debug)]
pub struct Cache {
    pub path: String,
    pub settings: Settings,
    pub pages: u64,
    pub anime: Vec<Anime>,
}

/// What was found where the catalog is stored.
#[derive(Debug)]
pub enum Stored {
    /// The storage directory does not exist.
    NoFolder,
    /// The directory exists but the catalog file does not.
    NoFile,
    /// The file holds a well-formed catalog.
    Parsed(Cache),
    /// The file's content is not a well-formed catalog.
    Invalid,
}

/// Why a catalog lookup failed.
#[derive(Debug, PartialEq, Eq, Structural)]
pub enum CacheError {
    /// No show stands at the requested position.
    NotFound,
    /// The show's page could not be read.
    Unreadable,
}

impl Cache {
    pub fn new(path: String, settings: Settings, pages: u64, anime: Vec<Anime>) -> (r: Cache)
        ensures
            r.path@ == path@,
            r.settings == settings,
            r.pages == pages,
            r.anime@ == anime@,
    {
        Cache { path, settings, pages, anime }
    }

    /// Whether this is the empty catalog at the default place.
    pub open spec fn is_default(&self) -> bool {
        &&& self.path@ == default_path()
        &&& self.settings.entries() == default_entries()
        &&& self.pages == 0
        &&& self.anime@.len() == 0
    }

    /// The empty catalog at the default place, with default preferences.
    pub fn defaults() -> (r: Cache)
        ensures
            r.is_default(),
    {
        Cache {
            path: String::from_str("./data/cache.json"),
            settings: Settings::defaults(),
            pages: 0,
            anime: Vec::new(),
        }
    }

    /// The catalog that loading yields from what storage holds: a well-formed
    /// catalog as it is, and the default catalog in every other case, a
    /// corrupt file included, with no error.
    pub fn load(stored: Stored) -> (r: Cache)
        ensures
            stored matches Stored::Parsed(c) ==> r == c,
            !(stored is Parsed) ==> r.is_default(),
    {
        match stored {
            Stored::Parsed(c) => c,
            _ => Cache::defaults(),
        }
    }

    /// A refresh's listing fetch, seeded with the first listing page's body;
    /// a refresh always starts over from the first page.
    pub fn begin_refresh(&self, seed: String) -> (r: Pager)
        ensures
            r.html@ == seed@,
            r.page == FIRST_POST_PAGE,
            !r.finished,
    {
        Pager::new(seed, FIRST_POST_PAGE)
    }

    /// Ends a refresh with the finished listing: records the last page
    /// consumed and replaces the shows by those the listing holds. If the
    /// listing cannot be read the shows stay as they were.
    pub fn finish_refresh(&mut self, parser: &Parser, pager: Pager) -> (r: Result<(), ParseError>)
        requires
            pager.finished,
        ensures
            final(self).pages == pager.page,
            final(self).path == old(self).path,
            final(self).settings == old(self).settings,
            r is Ok <==> listing_ok(pager.html@),
            r is Ok ==> listed(final(self).anime@, pager.html@),
            r is Err ==> final(self).anime == old(self).anime,
    {
        self.pages = pager.page;
        match parser.parse_anime_list(pager.html) {
            Ok(list) => {
                self.anime = list;
                Ok(())
            },
            Err(e) => Err(e),
        }
    }

    /// A copy of the known shows, in catalog order.
    pub fn get_anime_list(&self) -> (r: Vec<Anime>)
        ensures
            r@.len() == self.anime@.len(),
            forall|i: int|
                0 <= i < r@.len() ==> {
                    &&& (#[trigger] r@[i]).name@ == self.anime@[i].name@
                    &&& r@[i].url@ == self.anime@[i].url@
                    &&& r@[i].episodes@.len() == self.anime@[i].episodes@.len()
                    &&& forall|k: int|
                        0 <= k < r@[i].episodes@.len() ==> (#[trigger] r@[i].episodes@[k]).same(
                            &self.anime@[i].episodes@[k],
                        )
                },
    {
        let mut out: Vec<Anime> = Vec::new();
        let mut i: usize = 0;
        while i < self.anime.len()
            invariant
                i <= self.anime@.len(),
                out@.len() == i,
                forall|j: int|
                    0 <= j < i ==> {
                        &&& (#[trigger] out@[j]).name@ == self.anime@[j].name@
                        &&& out@[j].url@ == self.anime@[j].url@
                        &&& out@[j].episodes@.len() == self.anime@[j].episodes@.len()
                        &&& forall|k: int|
                            0 <= k < out@[j].episodes@.len() ==> (#[trigger] out@[j].episodes@[k]).same(
                                &self.anime@[j].episodes@[k],
                            )
                    },
            decreases self.anime@.len() - i,
        {
            out.push(self.anime[i].duplicate());
            i = i + 1;
        }
        out
    }

    /// The page URL of the show at position `id`.
    pub fn anime_url(&self, id: usize) -> (r: Result<String, CacheError>)
        ensures
            id < self.anime@.len() ==> (r matches Ok(u) && u@ == self.anime@[id as int].url@),
            id >= self.anime@.len() ==> r == Err::<String, CacheError>(CacheError::NotFound),
    {
        if id < self.anime.len() {
            Ok(self.anime[id].url.clone())
        } else {
            Err(CacheError::NotFound)
        }
    }

    /// Reads the show at position `id` from its fetched page: a copy of the
    /// show with the page's episodes, in order.
    pub fn get_anime(&self, parser: &Parser, id: usize, anime_html: String) -> (r: Result<
        Anime,
        CacheError,
    >)
        ensures
            id >= self.anime@.len() ==> r == Err::<Anime, CacheError>(CacheError::NotFound),
            id < self.anime@.len() && !episodes_ok(anime_html@) ==> r == Err::<Anime, CacheError>(
                CacheError::Unreadable,
            ),
            id < self.anime@.len() && episodes_ok(anime_html@) ==> (r matches Ok(a)
                && episodes_listed(a, anime_html@) && a.name@ == self.anime@[id as int].name@
                && a.url@ == self.anime@[id as int].url@),
    {
        if id >= self.anime.len() {
            return Err(CacheError::NotFound);
        }
        match parser.parse_anime(anime_html) {
            Ok(a) => Ok(Anime::new(self.anime[id].name.clone(), self.anime[id].url.clone(), a.episodes)),
            Err(_) => Err(CacheError::Unreadable),
        }
    }
}

/// Loading heals a corrupt or missing catalog: every such load yields the
/// same catalog, the default one.
pub proof fn lemma_load_self_heals(a: Cache, b: Cache)
    requires
        a.is_default(),
        b.is_default(),
    ensures
        a.path@ == b.path@,
        a.settings.entries() == b.settings.entries(),
        a.pages == b.pages,
        a.anime@ == b.anime@,
{
    assert(a.anime@ =~= b.anime@);
}

} // verus!
