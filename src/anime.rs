use vstd::prelude::*;
use vstd::std_specs::cmp::PartialEqSpec;
use crate::parser::{Page, ParseError, tier_of, variant_of};

verus! {

/// A stream quality: one of four resolution tiers, each carrying its stream URL.
#[derive(Clone, Debug)]
pub enum Quality {
    Q360P(String),
    Q480P(String),
    Q720P(String),
    Q1080P(String),
}

impl Quality {
    /// The tier's rank: 360p < 480p < 720p < 1080p.
    pub open spec fn tier(&self) -> nat {
        match self {
            Quality::Q360P(_) => 0,
            Quality::Q480P(_) => 1,
            Quality::Q720P(_) => 2,
            Quality::Q1080P(_) => 3,
        }
    }

    /// The URL (or label) carried by the variant.
    pub open spec fn url(&self) -> Seq<char> {
        match self {
            Quality::Q360P(u) => u@,
            Quality::Q480P(u) => u@,
            Quality::Q720P(u) => u@,
            Quality::Q1080P(u) => u@,
        }
    }

    /// The four tiers in order, each labelled with its display name.
    pub fn arr() -> (r: [Quality; 4])
        ensures
            forall|i: int| 0 <= i < 4 ==> (#[trigger] r[i]).tier() == i,
            forall|i: int| 0 <= i < 4 ==> (#[trigger] r[i]).url() == tier_label(i as nat),
    {
        [
            Quality::Q360P(String::from_str("360p")),
            Quality::Q480P(String::from_str("480p")),
            Quality::Q720P(String::from_str("720p")),
            Quality::Q1080P(String::from_str("1080p")),
        ]
    }

    /// Tier equality: true exactly when both variants are of the same tier,
    /// whatever their URLs.
    pub fn equal(&self, quality: &Quality) -> (r: bool)
        ensures
            r == (self.tier() == quality.tier()),
    {
        self.empty().rank() == quality.empty().rank()
    }

    /// The same tier with an empty URL.
    pub fn empty(&self) -> (r: Quality)
        ensures
            r.tier() == self.tier(),
            r.url() == Seq::<char>::empty(),
    {
        match self {
            Quality::Q360P(_) => Quality::Q360P(String::new()),
            Quality::Q480P(_) => Quality::Q480P(String::new()),
            Quality::Q720P(_) => Quality::Q720P(String::new()),
            Quality::Q1080P(_) => Quality::Q1080P(String::new()),
        }
    }

    /// The URL carried by the variant.
    pub fn val(&self) -> (r: String)
        ensures
            r@ == self.url(),
    {
        match self {
            Quality::Q360P(u) => u.clone(),
            Quality::Q480P(u) => u.clone(),
            Quality::Q720P(u) => u.clone(),
            Quality::Q1080P(u) => u.clone(),
        }
    }

    /// The variant of resolution `res` carrying `url`; fails with
    /// `UnknownQualityTier` unless `res` is one of "360", "480", "720", "1080".
    pub fn classify(res: &String, url: String) -> (r: Result<Quality, ParseError>)
        ensures
            tier_of(res@) matches Some(t) ==> (r matches Ok(q) && q.tier() == t && q.url() == url@),
            tier_of(res@) is None ==> r == Err::<Quality, ParseError>(ParseError::UnknownQualityTier),
    {
        if *res == String::from_str("360") {
            Ok(Quality::Q360P(url))
        } else if *res == String::from_str("480") {
            Ok(Quality::Q480P(url))
        } else if *res == String::from_str("720") {
            Ok(Quality::Q720P(url))
        } else if *res == String::from_str("1080") {
            Ok(Quality::Q1080P(url))
        } else {
            Err(ParseError::UnknownQualityTier)
        }
    }

    /// The variant that media source node `node` of `page` stands for: its
    /// `res` attribute classified, carrying its `src` attribute.
    pub fn from(page: &Page, node: usize) -> (r: Result<Quality, ParseError>)
        ensures
            variant_of(page.html(), node) matches Ok(v) ==> (r matches Ok(q) && q.tier() == v.0
                && q.url() == v.1),
            variant_of(page.html(), node) matches Err(e) ==> r == Err::<Quality, ParseError>(e),
    {
        proof {
            reveal_strlit("res");
            reveal_strlit("src");
        }
        let res = match page.attr(node, "res") {
            Some(v) => v,
            None => {
                return Err(ParseError::Extraction);
            },
        };
        let url = match page.attr(node, "src") {
            Some(v) => v,
            None => {
                return Err(ParseError::Extraction);
            },
        };
        Quality::classify(&res, url)
    }

    /// The tier's rank as a number.
    pub fn rank(&self) -> (r: u8)
        ensures
            r as nat == self.tier(),
    {
        match self {
            Quality::Q360P(_) => 0,
            Quality::Q480P(_) => 1,
            Quality::Q720P(_) => 2,
            Quality::Q1080P(_) => 3,
        }
    }

    /// A copy of the variant.
    pub fn duplicate(&self) -> (r: Quality)
        ensures
            r.tier() == self.tier(),
            r.url() == self.url(),
    {
        match self {
            Quality::Q360P(u) => Quality::Q360P(u.clone()),
            Quality::Q480P(u) => Quality::Q480P(u.clone()),
            Quality::Q720P(u) => Quality::Q720P(u.clone()),
            Quality::Q1080P(u) => Quality::Q1080P(u.clone()),
        }
    }
}

/// The display name of tier `t`.
pub open spec fn tier_label(t: nat) -> Seq<char> {
    if t == 0 {
        "360p"@
    } else if t == 1 {
        "480p"@
    } else if t == 2 {
        "720p"@
    } else {
        "1080p"@
    }
}

/// The tiers and URLs of a sequence of variants.
pub open spec fn tiers_view(q: Seq<Quality>) -> Seq<(nat, Seq<char>)> {
    q.map_values(|v: Quality| (v.tier(), v.url()))
}

/// Whether some variant in `s` is of tier `t`.
pub open spec fn has_tier(s: Seq<(nat, Seq<char>)>, t: nat) -> bool {
    exists|i: int| 0 <= i < s.len() && (#[trigger] s[i]).0 == t
}

/// Whether `u` is the URL of the first variant of tier `t` in `s`.
pub open spec fn tier_url(s: Seq<(nat, Seq<char>)>, t: nat, u: Seq<char>) -> bool {
    exists|i: int|
        0 <= i < s.len() && (#[trigger] s[i]).0 == t && s[i].1 == u && forall|k: int|
            0 <= k < i ==> s[k].0 != t
}

/// Whether no two variants of `s` share a tier.
pub open spec fn unique_tiers(s: Seq<(nat, Seq<char>)>) -> bool {
    forall|i: int, j: int| 0 <= i < j < s.len() ==> (#[trigger] s[i]).0 != (#[trigger] s[j]).0
}

/// Adding a variant keeps the tiers unique.
pub proof fn lemma_add_variant_unique(s: Seq<(nat, Seq<char>)>, v: (nat, Seq<char>))
    requires
        unique_tiers(s),
    ensures
        unique_tiers(add_variant(s, v)),
{
    if !has_tier(s, v.0) {
        let t = s.push(v);
        assert forall|i: int, j: int| 0 <= i < j < t.len() implies (#[trigger] t[i]).0 != (
        #[trigger] t[j]).0 by {
            if j == s.len() {
                assert(s[i] == t[i]);
            } else {
                assert(s[i] == t[i] && s[j] == t[j]);
            }
        }
    }
}

/// Adds a variant to a set kept unique by tier: a variant whose tier is
/// already present leaves the set as it is.
pub open spec fn add_variant(s: Seq<(nat, Seq<char>)>, v: (nat, Seq<char>)) -> Seq<(nat, Seq<char>)> {
    if has_tier(s, v.0) {
        s
    } else {
        s.push(v)
    }
}

/// A show of the catalog.
#[derive(Clone, Debug)]
pub struct Anime {
    pub name: String,
    pub url: String,
    pub episodes: Vec<Episode>,
}

impl Anime {
    pub fn new(name: String, url: String, episodes: Vec<Episode>) -> (r: Anime)
        ensures
            r.name@ == name@,
            r.url@ == url@,
            r.episodes@ == episodes@,
    {
        Anime { name, url, episodes }
    }

    /// A copy of the show's name and URL, with its episodes copied too.
    pub fn duplicate(&self) -> (r: Anime)
        ensures
            r.name@ == self.name@,
            r.url@ == self.url@,
            r.episodes@.len() == self.episodes@.len(),
            forall|i: int|
                0 <= i < self.episodes@.len() ==> (#[trigger] r.episodes@[i]).same(
                    &self.episodes@[i],
                ),
    {
        let mut eps: Vec<Episode> = Vec::new();
        let mut i: usize = 0;
        while i < self.episodes.len()
            invariant
                i <= self.episodes@.len(),
                eps@.len() == i,
                forall|k: int| 0 <= k < i ==> (#[trigger] eps@[k]).same(&self.episodes@[k]),
            decreases self.episodes@.len() - i,
        {
            eps.push(self.episodes[i].duplicate());
            i = i + 1;
        }
        Anime { name: self.name.clone(), url: self.url.clone(), episodes: eps }
    }
}

/// An episode of a show, with the stream variants found for it (at most one
/// per tier).
#[derive(Clone, Debug)]
pub struct Episode {
    pub name: String,
    pub url: String,
    pub quality: Vec<Quality>,
}

impl Episode {
    pub fn new(name: String, url: String, quality: Vec<Quality>) -> (r: Episode)
        ensures
            r.name@ == name@,
            r.url@ == url@,
            r.quality@ == quality@,
    {
        Episode { name, url, quality }
    }

    /// The episode's variants as tier and URL pairs.
    pub open spec fn tiers(&self) -> Seq<(nat, Seq<char>)> {
        tiers_view(self.quality@)
    }

    /// At most one variant per tier.
    pub open spec fn wf(&self) -> bool {
        unique_tiers(self.tiers())
    }

    /// Equal name, URL and variants.
    pub open spec fn same(&self, o: &Episode) -> bool {
        self.name@ == o.name@ && self.url@ == o.url@ && self.tiers() == o.tiers()
    }

    /// A copy of the episode.
    pub fn duplicate(&self) -> (r: Episode)
        ensures
            r.same(self),
    {
        let mut qs: Vec<Quality> = Vec::new();
        let mut i: usize = 0;
        while i < self.quality.len()
            invariant
                i <= self.quality@.len(),
                qs@.len() == i,
                forall|k: int|
                    0 <= k < i ==> (#[trigger] qs@[k]).tier() == self.quality@[k].tier()
                        && qs@[k].url() == self.quality@[k].url(),
            decreases self.quality@.len() - i,
        {
            qs.push(self.quality[i].duplicate());
            i = i + 1;
        }
        let r = Episode { name: self.name.clone(), url: self.url.clone(), quality: qs };
        assert(r.tiers() =~= self.tiers());
        r
    }

    /// Adds `q` unless a variant of its tier is already present.
    pub fn add_quality(&mut self, q: Quality)
        ensures
            final(self).name@ == old(self).name@,
            final(self).url@ == old(self).url@,
            final(self).tiers() == add_variant(old(self).tiers(), (q.tier(), q.url())),
            old(self).wf() ==> final(self).wf(),
    {
        proof {
            if unique_tiers(self.tiers()) {
                lemma_add_variant_unique(self.tiers(), (q.tier(), q.url()));
            }
        }
        let mut i: usize = 0;
        while i < self.quality.len()
            invariant
                i <= self.quality@.len(),
                forall|k: int| 0 <= k < i ==> self.tiers()[k].0 != q.tier(),
            decreases self.quality@.len() - i,
        {
            if self.quality[i].equal(&q) {
                assert(self.tiers()[i as int].0 == q.tier());
                return;
            }
            i = i + 1;
        }
        let ghost before = self.tiers();
        self.quality.push(q);
        assert(self.tiers() =~= before.push((q.tier(), q.url())));
    }

    /// The URL of this episode's variant of the same tier as `quality`.
    pub fn url_for(&self, quality: &Quality) -> (r: Option<String>)
        ensures
            r is None <==> !has_tier(self.tiers(), quality.tier()),
            r matches Some(u) ==> tier_url(self.tiers(), quality.tier(), u@),
    {
        let mut i: usize = 0;
        while i < self.quality.len()
            invariant
                i <= self.quality@.len(),
                forall|k: int| 0 <= k < i ==> self.tiers()[k].0 != quality.tier(),
            decreases self.quality@.len() - i,
        {
            if self.quality[i].equal(quality) {
                assert(self.tiers()[i as int].0 == quality.tier());
                let u = self.quality[i].val();
                assert(self.tiers()[i as int].1 == u@);
                assert(tier_url(self.tiers(), quality.tier(), u@));
                return Some(u);
            }
            i = i + 1;
        }
        None
    }
}

/// Tier equality ignores the URL: two variants of one tier with different
/// URLs are tier-equal (what `equal` reports) and yet differ under `==`.
pub proof fn lemma_tier_equality_ignores_url(a: Quality, b: Quality)
    requires
        a.tier() == b.tier(),
        a.url() != b.url(),
    ensures
        a.tier() == b.tier(),
        !a.eq_spec(&b),
{
}

impl Default for Anime {
    fn default() -> (r: Anime)
        ensures
            r.name@.len() == 0,
            r.url@.len() == 0,
            r.episodes@.len() == 0,
    {
        Anime::new(String::new(), String::new(), Vec::new())
    }
}

impl Default for Episode {
    fn default() -> (r: Episode)
        ensures
            r.name@.len() == 0,
            r.url@.len() == 0,
            r.quality@.len() == 0,
    {
        Episode::new(String::new(), String::new(), Vec::new())
    }
}

impl PartialEq for Quality {
    fn eq(&self, o: &Quality) -> (r: bool) {
        self.rank() == o.rank() && self.val() == o.val()
    }
}

impl vstd::std_specs::cmp::PartialEqSpecImpl for Quality {
    open spec fn obeys_eq_spec() -> bool {
        true
    }

    open spec fn eq_spec(&self, o: &Quality) -> bool {
        self.tier() == o.tier() && self.url() == o.url()
    }
}

} // verus!
