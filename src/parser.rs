use vstd::prelude::*;
use select::document::Document;
use select::predicate::{Class, Name};
use crate::anime::{Anime, Episode, Quality, add_variant, unique_tiers};

verus! {

#[verifier::external_type_specification]
#[verifier::external_body]
pub struct ExDocument(Document);

/// The nodes of the document parsed from `html` whose class list holds `class`,
/// by index, as select's `Document::find` with `Class` yields them.
pub uninterp spec fn class_nodes(html: Seq<char>, class: Seq<char>) -> Seq<usize>;

/// The element nodes named `tag` of the document parsed from `html`, by index.
pub uninterp spec fn tag_nodes(html: Seq<char>, tag: Seq<char>) -> Seq<usize>;

/// The text of a node and all its descendants, as select's `Node::text` gives it.
pub uninterp spec fn node_text(html: Seq<char>, node: usize) -> Seq<char>;

/// The value of a node's attribute, as select's `Node::attr` gives it.
pub uninterp spec fn node_attr(html: Seq<char>, node: usize, attr: Seq<char>) -> Option<Seq<char>>;

/// A node's first child, by index, as select's `Node::first_child` gives it.
pub uninterp spec fn node_first_child(html: Seq<char>, node: usize) -> Option<usize>;

/// `s` without leading and trailing Unicode white space, as `str::trim` gives it.
pub uninterp spec fn trimmed(s: Seq<char>) -> Seq<char>;

/// Whether `html` is short enough to be parsed: the parser's buffers hold at
/// most `u32::MAX` bytes, and a character takes at most four.
pub open spec fn page_fits(html: Seq<char>) -> bool {
    html.len() <= 0x3FFF_FFFF
}

/// The origin that relative links of the site are joined to.
pub open spec fn site() -> Seq<char> {
    "https://jut.su"@
}

/// The class of the listing nodes that stand for shows.
pub open spec fn show_class() -> Seq<char> {
    "all_anime_global"@
}

/// The class of the links to a show's episodes.
pub open spec fn episode_class() -> Seq<char> {
    "short-btn"@
}

/// How many characters precede the first line break of `s`.
pub open spec fn line_end(s: Seq<char>) -> nat
    decreases s.len(),
{
    if s.len() == 0 {
        0
    } else if s[0] == '\n' {
        0
    } else {
        1 + line_end(s.drop_first())
    }
}

/// The first line of `s`.
pub open spec fn first_line(s: Seq<char>) -> Seq<char> {
    s.take(line_end(s) as int)
}

/// The name and absolute URL of the show that listing node `n` stands for:
/// the first line of its trimmed text and its first child's link. `None` when
/// the child or its link is missing or the name is empty.
pub open spec fn show_entry(html: Seq<char>, n: usize) -> Option<(Seq<char>, Seq<char>)> {
    let name = first_line(trimmed(node_text(html, n)));
    match node_first_child(html, n) {
        Some(c) => match node_attr(html, c, "href"@) {
            Some(h) => if name.len() > 0 {
                Some((name, site() + h))
            } else {
                None
            },
            None => None,
        },
        None => None,
    }
}

/// The name and absolute URL of the episode that link node `n` stands for.
pub open spec fn episode_entry(html: Seq<char>, n: usize) -> Option<(Seq<char>, Seq<char>)> {
    match node_attr(html, n, "href"@) {
        Some(h) => Some((node_text(html, n), site() + h)),
        None => None,
    }
}

/// The tier that a resolution attribute names.
pub open spec fn tier_of(res: Seq<char>) -> Option<nat> {
    if res == "360"@ {
        Some(0)
    } else if res == "480"@ {
        Some(1)
    } else if res == "720"@ {
        Some(2)
    } else if res == "1080"@ {
        Some(3)
    } else {
        None
    }
}

/// Whether every show node of listing `html` yields a show.
pub open spec fn listing_ok(html: Seq<char>) -> bool {
    &&& page_fits(html)
    &&& forall|i: int|
        0 <= i < class_nodes(html, show_class()).len() ==> (#[trigger] show_entry(
            html,
            class_nodes(html, show_class())[i],
        )) is Some
}

/// Whether `shows` are the shows of listing `html`, in order, without episodes.
pub open spec fn listed(shows: Seq<Anime>, html: Seq<char>) -> bool {
    let nodes = class_nodes(html, show_class());
    &&& shows.len() == nodes.len()
    &&& forall|i: int|
        0 <= i < nodes.len() ==> {
            &&& (#[trigger] shows[i]).name@ == show_entry(html, nodes[i])->Some_0.0
            &&& shows[i].url@ == show_entry(html, nodes[i])->Some_0.1
            &&& shows[i].episodes@.len() == 0
        }
}

/// Whether every episode node of show page `html` yields an episode.
pub open spec fn episodes_ok(html: Seq<char>) -> bool {
    &&& page_fits(html)
    &&& forall|i: int|
        0 <= i < class_nodes(html, episode_class()).len() ==> (#[trigger] episode_entry(
            html,
            class_nodes(html, episode_class())[i],
        )) is Some
}

/// Whether `a` holds the episodes of show page `html`, in order, without
/// variants.
pub open spec fn episodes_listed(a: Anime, html: Seq<char>) -> bool {
    let nodes = class_nodes(html, episode_class());
    &&& a.episodes@.len() == nodes.len()
    &&& forall|i: int|
        0 <= i < nodes.len() ==> {
            &&& (#[trigger] a.episodes@[i]).name@ == episode_entry(html, nodes[i])->Some_0.0
            &&& a.episodes@[i].url@ == episode_entry(html, nodes[i])->Some_0.1
            &&& a.episodes@[i].quality@.len() == 0
        }
}

/// Why a page could not be read.
#[derive(Clone, Copy, Debug, PartialEq, Eq, Structural)]
pub enum ParseError {
    /// A node lacks the child, attribute or text the site's markup puts there.
    Extraction,
    /// A media source names a resolution that is not one of the four tiers.
    UnknownQualityTier,
}

/// The variant that media source node `n` stands for, as tier and URL.
pub open spec fn variant_of(html: Seq<char>, n: usize) -> Result<(nat, Seq<char>), ParseError> {
    match node_attr(html, n, "res"@) {
        None => Err(ParseError::Extraction),
        Some(res) => match node_attr(html, n, "src"@) {
            None => Err(ParseError::Extraction),
            Some(src) => match tier_of(res) {
                Some(t) => Ok((t, src)),
                None => Err(ParseError::UnknownQualityTier),
            },
        },
    }
}

/// The variants of media source nodes `nodes`, kept unique by tier (the first
/// of a tier stays); the first failing node's error otherwise.
pub open spec fn variants_from(html: Seq<char>, nodes: Seq<usize>) -> Result<
    Seq<(nat, Seq<char>)>,
    ParseError,
>
    decreases nodes.len(),
{
    if nodes.len() == 0 {
        Ok(Seq::empty())
    } else {
        match variants_from(html, nodes.drop_last()) {
            Err(e) => Err(e),
            Ok(s) => match variant_of(html, nodes.last()) {
                Err(e) => Err(e),
                Ok(v) => Ok(add_variant(s, v)),
            },
        }
    }
}

/// The variants of episode page `html`: those of its media source nodes, or
/// an extraction error for a page too long to parse.
pub open spec fn episode_variants(html: Seq<char>) -> Result<Seq<(nat, Seq<char>)>, ParseError> {
    if page_fits(html) {
        variants_from(html, tag_nodes(html, "source"@))
    } else {
        Err(ParseError::Extraction)
    }
}

/// Whether `html` is short enough to be parsed.
pub fn fits(html: &String) -> (r: bool)
    ensures
        r == page_fits(html@),
{
    html.as_str().unicode_len() <= 0x3FFF_FFFF
}

/// A parsed HTML document together with the text it was parsed from.
pub struct Page {
    source: String,
    doc: Document,
}

impl Page {
    /// The text the page was parsed from.
    pub closed spec fn html(&self) -> Seq<char> {
        self.source@
    }

    /// Parses `html` into a page.
    pub fn new(html: String) -> (r: Page)
        requires
            page_fits(html@),
        ensures
            r.html() == html@,
    {
        Page::parse(html)
    }

    /// Relies on select's `Document::from(&str)`, which parses any text whose
    /// UTF-8 form fits in `u32::MAX` bytes (tendril asserts that bound).
    #[verifier::external_body]
    fn parse(html: String) -> (r: Page)
        requires
            page_fits(html@),
        ensures
            r.html() == html@,
    {
        let doc = Document::from(html.as_str());
        Page { source: html, doc }
    }

    /// Relies on select's `Document::find` with a `Class` predicate.
    #[verifier::external_body]
    fn find_class(&self, class: &str) -> (r: Vec<usize>)
        ensures
            r@ == class_nodes(self.html(), class@),
    {
        self.doc.find(Class(class)).map(|n| n.index()).collect()
    }

    /// Relies on select's `Document::find` with a `Name` predicate.
    #[verifier::external_body]
    fn find_tag(&self, tag: &str) -> (r: Vec<usize>)
        ensures
            r@ == tag_nodes(self.html(), tag@),
    {
        self.doc.find(Name(tag)).map(|n| n.index()).collect()
    }

    /// Relies on select's `Node::text`.
    #[verifier::external_body]
    fn text(&self, node: usize) -> (r: String)
        ensures
            r@ == node_text(self.html(), node),
    {
        self.doc.nth(node).map(|n| n.text()).unwrap_or_default()
    }

    /// Relies on select's `Node::attr`.
    #[verifier::external_body]
    pub(crate) fn attr(&self, node: usize, name: &str) -> (r: Option<String>)
        ensures
            r matches Some(v) ==> node_attr(self.html(), node, name@) == Some(v@),
            r is None ==> node_attr(self.html(), node, name@) is None,
    {
        self.doc.nth(node).and_then(|n| n.attr(name)).map(|v| v.to_string())
    }

    /// Relies on select's `Node::first_child`.
    #[verifier::external_body]
    fn first_child(&self, node: usize) -> (r: Option<usize>)
        ensures
            r == node_first_child(self.html(), node),
    {
        self.doc.nth(node).and_then(|n| n.first_child()).map(|c| c.index())
    }
}

/// Whether `t` is a contiguous part of `s`.
pub open spec fn is_slice_of(t: Seq<char>, s: Seq<char>) -> bool {
    exists|i: int, j: int| 0 <= i <= j <= s.len() && t == #[trigger] s.subrange(i, j)
}

/// Relies on `str::trim`: a slice of `s` with leading and trailing white
/// space removed.
#[verifier::external_body]
fn trim(s: &str) -> (r: String)
    ensures
        r@ == trimmed(s@),
        is_slice_of(r@, s@),
{
    s.trim().to_string()
}

proof fn lemma_line_end(s: Seq<char>, k: nat)
    requires
        k <= s.len(),
        forall|j: int| 0 <= j < k ==> s[j] != '\n',
        k == s.len() || s[k as int] == '\n',
    ensures
        line_end(s) == k,
    decreases k,
{
    if k > 0 {
        lemma_line_end(s.drop_first(), (k - 1) as nat);
    }
}

/// The text of `s` up to its first line break.
pub fn first_line_of(s: &str) -> (r: String)
    ensures
        r@ == first_line(s@),
{
    let n = s.unicode_len();
    let mut i: usize = 0;
    while i < n && s.get_char(i) != '\n'
        invariant
            n == s@.len(),
            i <= n,
            forall|j: int| 0 <= j < i ==> s@[j] != '\n',
        decreases n - i,
    {
        i = i + 1;
    }
    proof {
        lemma_line_end(s@, i as nat);
    }
    String::from_str(s.substring_char(0, i))
}

/// `site()` followed by the relative link `href`.
fn absolute(href: &str) -> (r: String)
    ensures
        r@ == site() + href@,
{
    String::from_str("https://jut.su").concat(href)
}

/// Reads pages of the site into shows, episodes and stream variants.
#[derive(Clone, Debug)]
pub struct Parser {}

impl Parser {
    pub fn new() -> (r: Parser) {
        Parser {  }
    }

    /// The shows of a listing page: one per node of the show class, in
    /// document order, with no episodes yet. Fails if any such node lacks its
    /// link or its name.
    pub fn parse_anime_list(&self, anime_list_html: String) -> (r: Result<Vec<Anime>, ParseError>)
        ensures
            r is Ok <==> listing_ok(anime_list_html@),
            r is Err ==> r == Err::<Vec<Anime>, ParseError>(ParseError::Extraction),
            r matches Ok(v) ==> listed(v@, anime_list_html@),
    {
        if !fits(&anime_list_html) {
            return Err(ParseError::Extraction);
        }
        let page = Page::new(anime_list_html);
        let nodes = page.find_class("all_anime_global");
        proof {
            reveal_strlit("all_anime_global");
        }
        let ghost html = page.html();
        let mut result: Vec<Anime> = Vec::new();
        let mut i: usize = 0;
        while i < nodes.len()
            invariant
                html == anime_list_html@,
                page.html() == html,
                nodes@ == class_nodes(html, show_class()),
                i <= nodes@.len(),
                result@.len() == i,
                forall|k: int| 0 <= k < i ==> (#[trigger] show_entry(html, nodes@[k])) is Some,
                forall|k: int|
                    0 <= k < i ==> {
                        &&& (#[trigger] result@[k]).name@ == show_entry(html, nodes@[k])->Some_0.0
                        &&& result@[k].url@ == show_entry(html, nodes@[k])->Some_0.1
                        &&& result@[k].episodes@.len() == 0
                    },
            decreases nodes@.len() - i,
        {
            let node = nodes[i];
            let text = page.text(node);
            let trimmed_text = trim(text.as_str());
            let name = first_line_of(trimmed_text.as_str());
            let child = match page.first_child(node) {
                Some(c) => c,
                None => {
                    assert(show_entry(html, nodes@[i as int]) is None);
                    return Err(ParseError::Extraction);
                },
            };
            proof {
                reveal_strlit("href");
            }
            let href = match page.attr(child, "href") {
                Some(h) => h,
                None => {
                    assert(show_entry(html, nodes@[i as int]) is None);
                    return Err(ParseError::Extraction);
                },
            };
            if name.unicode_len() == 0 {
                assert(show_entry(html, nodes@[i as int]) is None);
                return Err(ParseError::Extraction);
            }
            let url = absolute(href.as_str());
            result.push(Anime::new(name, url, Vec::new()));
            i = i + 1;
        }
        Ok(result)
    }

    /// The episodes of a show page: one per node of the episode class, in
    /// document order, named by the node's text and with no variants yet.
    /// Fails if any such node lacks its link.
    pub fn parse_anime(&self, anime_html: String) -> (r: Result<Anime, ParseError>)
        ensures
            r is Ok <==> episodes_ok(anime_html@),
            r is Err ==> r == Err::<Anime, ParseError>(ParseError::Extraction),
            r matches Ok(a) ==> episodes_listed(a, anime_html@) && a.name@.len() == 0
                && a.url@.len() == 0,
    {
        if !fits(&anime_html) {
            return Err(ParseError::Extraction);
        }
        let page = Page::new(anime_html);
        let nodes = page.find_class("short-btn");
        proof {
            reveal_strlit("short-btn");
            reveal_strlit("href");
        }
        let ghost html = page.html();
        let mut episodes: Vec<Episode> = Vec::new();
        let mut i: usize = 0;
        while i < nodes.len()
            invariant
                html == anime_html@,
                page.html() == html,
                nodes@ == class_nodes(html, episode_class()),
                i <= nodes@.len(),
                episodes@.len() == i,
                forall|k: int| 0 <= k < i ==> (#[trigger] episode_entry(html, nodes@[k])) is Some,
                forall|k: int|
                    0 <= k < i ==> {
                        &&& (#[trigger] episodes@[k]).name@ == episode_entry(html, nodes@[k])->Some_0.0
                        &&& episodes@[k].url@ == episode_entry(html, nodes@[k])->Some_0.1
                        &&& episodes@[k].quality@.len() == 0
                    },
            decreases nodes@.len() - i,
        {
            let node = nodes[i];
            let name = page.text(node);
            let href = match page.attr(node, "href") {
                Some(h) => h,
                None => {
                    assert(episode_entry(html, nodes@[i as int]) is None);
                    return Err(ParseError::Extraction);
                },
            };
            let url = absolute(href.as_str());
            episodes.push(Episode::new(name, url, Vec::new()));
            i = i + 1;
        }
        Ok(Anime::new(String::new(), String::new(), episodes))
    }

    /// The stream variants of an episode page, one per tier, from its media
    /// source nodes in document order. Fails at the first source that lacks an
    /// attribute or names an unknown resolution.
    pub fn parse_episode(&self, episode_html: String) -> (r: Result<Episode, ParseError>)
        ensures
            ({
                let found = episode_variants(episode_html@);
                &&& found matches Err(e) ==> r == Err::<Episode, ParseError>(e)
                &&& found matches Ok(s) ==> (r matches Ok(ep) && ep.name@.len() == 0
                    && ep.url@.len() == 0 && ep.tiers() == s && unique_tiers(s))
            }),
    {
        if !fits(&episode_html) {
            return Err(ParseError::Extraction);
        }
        let page = Page::new(episode_html);
        let nodes = page.find_tag("source");
        let ghost html = page.html();
        let mut episode = Episode::new(String::new(), String::new(), Vec::new());
        assert(episode.tiers() =~= Seq::empty());
        let mut i: usize = 0;
        while i < nodes.len()
            invariant
                html == episode_html@,
                page.html() == html,
                nodes@ == tag_nodes(html, "source"@),
                page_fits(html),
                unique_tiers(episode.tiers()),
                i <= nodes@.len(),
                episode.name@.len() == 0,
                episode.url@.len() == 0,
                variants_from(html, nodes@.take(i as int)) == Ok::<
                    Seq<(nat, Seq<char>)>,
                    ParseError,
                >(episode.tiers()),
            decreases nodes@.len() - i,
        {
            let ghost before = episode.tiers();
            assert(nodes@.take(i + 1).drop_last() =~= nodes@.take(i as int));
            let q = match Quality::from(&page, nodes[i]) {
                Ok(q) => q,
                Err(e) => {
                    proof {
                        lemma_variants_fail(html, nodes@, (i + 1) as nat);
                    }
                    return Err(e);
                },
            };
            episode.add_quality(q);
            i = i + 1;
        }
        assert(nodes@.take(i as int) =~= nodes@);
        Ok(episode)
    }
}

proof fn lemma_variants_fail(html: Seq<char>, nodes: Seq<usize>, k: nat)
    requires
        k <= nodes.len(),
        variants_from(html, nodes.take(k as int)) is Err,
    ensures
        variants_from(html, nodes) == variants_from(html, nodes.take(k as int)),
    decreases nodes.len() - k,
{
    if k < nodes.len() {
        assert(nodes.take((k + 1) as int).drop_last() =~= nodes.take(k as int));
        lemma_variants_fail(html, nodes, k + 1);
    } else {
        assert(nodes.take(k as int) =~= nodes);
    }
}

/// Extraction is a function of the page text alone: equal texts give equal
/// shows, episodes and variants, however often they are read.
pub proof fn lemma_extraction_deterministic(a: Seq<char>, b: Seq<char>)
    requires
        a == b,
    ensures
        class_nodes(a, show_class()) == class_nodes(b, show_class()),
        forall|i: int|
            0 <= i < class_nodes(a, show_class()).len() ==> #[trigger] show_entry(
                a,
                class_nodes(a, show_class())[i],
            ) == show_entry(b, class_nodes(b, show_class())[i]),
        class_nodes(a, episode_class()) == class_nodes(b, episode_class()),
        forall|i: int|
            0 <= i < class_nodes(a, episode_class()).len() ==> #[trigger] episode_entry(
                a,
                class_nodes(a, episode_class())[i],
            ) == episode_entry(b, class_nodes(b, episode_class())[i]),
        variants_from(a, tag_nodes(a, "source"@)) == variants_from(b, tag_nodes(b, "source"@)),
{
}

} // verus!
