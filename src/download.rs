use vstd::prelude::*;
use vstd::arithmetic::div_mod::*;
use vstd::arithmetic::mul::*;
use crate::anime::{Episode, Quality, has_tier, tier_url};
use crate::parser::{Parser, ParseError, episode_variants};

verus! {

/// Why an episode could not be downloaded.
#[derive(Debug, PartialEq, Eq, Structural)]
pub enum DownloadError {
    /// The episode's page could not be read.
    Parse(ParseError),
    /// The episode has no variant of the requested tier.
    QualityUnavailable,
    /// The stream's response gave no length.
    MissingContentLength,
}

/// One transfer to perform: the stream to fetch and the file to write.
#[derive(Clone, Debug)]
pub struct DownloadJob {
    pub name: String,
    pub url: String,
    pub path: String,
}

/// The directory episodes are written to.
pub open spec fn download_dir() -> Seq<char> {
    "./data/anime/"@
}

/// The file an episode named `name` is written to.
pub open spec fn episode_path(name: Seq<char>) -> Seq<char> {
    download_dir() + name + ".mp4"@
}

/// The file an episode named `name` is written to.
pub fn episode_file(name: &String) -> (r: String)
    ensures
        r@ == episode_path(name@),
{
    let dir = String::from_str("./data/anime/");
    let with_name = dir.concat(name.as_str());
    with_name.concat(".mp4")
}

/// Resolves an episode for download from its freshly fetched page: the page's
/// variants replace the episode's, and the one of `quality`'s tier gives the
/// stream to fetch. Fails if the page cannot be read or lacks that tier.
pub fn prepare_download(parser: &Parser, episode: Episode, episode_html: String, quality: &Quality)
    -> (r: Result<DownloadJob, DownloadError>)
    ensures
        ({
            let found = episode_variants(episode_html@);
            &&& found matches Err(e) ==> r == Err::<DownloadJob, DownloadError>(
                DownloadError::Parse(e),
            )
            &&& found matches Ok(s) ==> {
                &&& !has_tier(s, quality.tier()) ==> r == Err::<DownloadJob, DownloadError>(
                    DownloadError::QualityUnavailable,
                )
                &&& has_tier(s, quality.tier()) ==> (r matches Ok(job) && job.name@ == episode.name@
                    && job.path@ == episode_path(episode.name@) && tier_url(
                    s,
                    quality.tier(),
                    job.url@,
                ))
            }
        }),
{
    let mut episode = episode;
    let resolved = match parser.parse_episode(episode_html) {
        Ok(ep) => ep,
        Err(e) => {
            return Err(DownloadError::Parse(e));
        },
    };
    episode.quality = resolved.quality;
    let url = match episode.url_for(quality) {
        Some(u) => u,
        None => {
            return Err(DownloadError::QualityUnavailable);
        },
    };
    let path = episode_file(&episode.name);
    Ok(DownloadJob { name: episode.name, url, path })
}

/// The size a transfer's progress is measured against: the response's
/// content length, which must be present.
pub fn expected_size(content_length: Option<u64>) -> (r: Result<u64, DownloadError>)
    ensures
        content_length matches Some(n) ==> r == Ok::<u64, DownloadError>(n),
        content_length is None ==> r == Err::<u64, DownloadError>(
            DownloadError::MissingContentLength,
        ),
{
    match content_length {
        Some(n) => Ok(n),
        None => Err(DownloadError::MissingContentLength),
    }
}

/// What `str::to_lowercase` gives for `s`.
pub uninterp spec fn lower_of(s: Seq<char>) -> Seq<char>;

/// Relies on `str::to_lowercase`: the result depends on the characters alone.
#[verifier::external_body]
fn lowercase(s: &str) -> (r: String)
    ensures
        r@ == lower_of(s@),
{
    s.to_lowercase()
}

/// Whether an already lower-cased answer agrees to start: "y" or "yes".
pub fn confirms(lowered: &String) -> (r: bool)
    ensures
        r == (lowered@ == "y"@ || lowered@ == "yes"@),
{
    *lowered == String::from_str("y") || *lowered == String::from_str("yes")
}

/// Whether the answer to the start prompt agrees to download, in any case.
pub fn is_confirmation(answer: &str) -> (r: bool)
    ensures
        r == (lower_of(answer@) == "y"@ || lower_of(answer@) == "yes"@),
{
    let lowered = lowercase(answer);
    confirms(&lowered)
}

/// How many chunks `n` items are split into for `w` workers: `min(w, n)`.
pub open spec fn chunk_count(n: nat, w: nat) -> nat {
    if w < n {
        w
    } else {
        n
    }
}

/// Where chunk `i` of `c` chunks over `n` items starts: the first `n % c`
/// chunks hold one item more than the others.
pub open spec fn chunk_start(n: nat, c: nat, i: nat) -> nat {
    if c == 0 {
        0
    } else {
        i * (n / c) + if i < n % c {
            i
        } else {
            n % c
        }
    }
}

/// `ceil(n / c)`.
pub open spec fn ceil_div(n: nat, c: nat) -> nat {
    if c == 0 {
        0
    } else {
        ((n + c - 1) as nat) / c
    }
}

/// The chunks of `items` for `w` workers, as the scheduler hands them out.
pub open spec fn is_partition<T>(chunks: Seq<Vec<T>>, items: Seq<T>, w: nat) -> bool {
    let n = items.len();
    let c = chunk_count(n, w);
    &&& chunks.len() == c
    &&& forall|i: int|
        0 <= i < c ==> #[trigger] chunks[i]@ == items.subrange(
            chunk_start(n, c, i as nat) as int,
            chunk_start(n, c, (i + 1) as nat) as int,
        )
}

proof fn lemma_chunk_step(n: nat, c: nat, i: nat)
    requires
        c > 0,
    ensures
        chunk_start(n, c, i + 1) == chunk_start(n, c, i) + n / c + if i < n % c {
            1nat
        } else {
            0nat
        },
{
    lemma_mul_is_distributive_add_other_way((n / c) as int, i as int, 1);
}

proof fn lemma_chunk_end(n: nat, c: nat)
    requires
        c > 0,
    ensures
        chunk_start(n, c, c) == n,
        chunk_start(n, c, 0) == 0,
{
    lemma_fundamental_div_mod(n as int, c as int);
    lemma_mod_pos_bound(n as int, c as int);
    lemma_mul_is_commutative(c as int, (n / c) as int);
}

proof fn lemma_chunk_monotone(n: nat, c: nat, i: nat, j: nat)
    requires
        c > 0,
        i <= j,
    ensures
        chunk_start(n, c, i) <= chunk_start(n, c, j),
    decreases j - i,
{
    if i < j {
        lemma_chunk_monotone(n, c, i, (j - 1) as nat);
        lemma_chunk_step(n, c, (j - 1) as nat);
    }
}

proof fn lemma_chunk_size_bound(n: nat, c: nat, i: nat)
    requires
        c > 0,
    ensures
        chunk_start(n, c, i + 1) - chunk_start(n, c, i) <= ceil_div(n, c),
{
    lemma_chunk_step(n, c, i);
    lemma_fundamental_div_mod(n as int, c as int);
    lemma_mod_pos_bound(n as int, c as int);
    let q = (n / c) as int;
    let r = (n % c) as int;
    let m = (n + c - 1) as int;
    lemma_mul_is_commutative(c as int, q);
    if r == 0 {
        assert(m == q * c + (c - 1));
        lemma_fundamental_div_mod_converse(m, c as int, q, c - 1);
    } else {
        assert((q + 1) * c == q * c + c) by (nonlinear_arith);
        assert(m == (q + 1) * c + (r - 1));
        lemma_fundamental_div_mod_converse(m, c as int, q + 1, r - 1);
    }
}

/// The chunks joined in order.
pub open spec fn joined_chunks<T>(chunks: Seq<Vec<T>>) -> Seq<T>
    decreases chunks.len(),
{
    if chunks.len() == 0 {
        Seq::empty()
    } else {
        joined_chunks(chunks.drop_last()) + chunks.last()@
    }
}

/// Splits `items` into `min(w, items.len())` contiguous chunks whose sizes
/// differ by at most one, the larger ones first; every item lands in exactly
/// one chunk, in the order given.
pub fn partition<T>(items: Vec<T>, w: usize) -> (r: Vec<Vec<T>>)
    requires
        w >= 1,
    ensures
        is_partition(r@, items@, w as nat),
        joined_chunks(r@) == items@,
{
    let n = items.len();
    if n == 0 {
        let r: Vec<Vec<T>> = Vec::new();
        assert(joined_chunks(r@) =~= items@);
        return r;
    }
    let c: usize = if w < n {
        w
    } else {
        n
    };
    let q: usize = n / c;
    let m: usize = n % c;
    let ghost gn = n as nat;
    let ghost gc = c as nat;
    let mut rest = items;
    let mut out: Vec<Vec<T>> = Vec::new();
    let mut i: usize = 0;
    proof {
        lemma_chunk_end(gn, gc);
    }
    while i < c
        invariant
            gn == n as nat,
            gc == c as nat,
            c == chunk_count(gn, w as nat),
            0 < c <= n,
            n == items@.len(),
            q == gn / gc,
            m == gn % gc,
            i <= c,
            out@.len() == i,
            rest@ == items@.subrange(chunk_start(gn, gc, i as nat) as int, n as int),
            joined_chunks(out@) == items@.subrange(0, chunk_start(gn, gc, i as nat) as int),
            chunk_start(gn, gc, gc) == gn,
            forall|k: int|
                0 <= k < i ==> #[trigger] out@[k]@ == items@.subrange(
                    chunk_start(gn, gc, k as nat) as int,
                    chunk_start(gn, gc, (k + 1) as nat) as int,
                ),
        decreases c - i,
    {
        proof {
            lemma_chunk_step(gn, gc, i as nat);
            lemma_chunk_monotone(gn, gc, (i + 1) as nat, gc);
            lemma_chunk_end(gn, gc);
        }
        let size: usize = if i < m {
            q + 1
        } else {
            q
        };
        let ghost before = out@;
        let ghost lo = chunk_start(gn, gc, i as nat) as int;
        let ghost hi = chunk_start(gn, gc, (i + 1) as nat) as int;
        let tail = rest.split_off(size);
        out.push(rest);
        proof {
            assert(out@.drop_last() =~= before);
            assert(items@.subrange(0, lo) + items@.subrange(lo, hi) =~= items@.subrange(0, hi));
        }
        rest = tail;
        i = i + 1;
    }
    assert(items@.subrange(0, n as int) =~= items@);
    out
}

/// The number of items in chunk `i` of `c` chunks over `n` items.
pub open spec fn chunk_len(n: nat, c: nat, i: nat) -> int {
    chunk_start(n, c, i + 1) - chunk_start(n, c, i)
}

/// Whether item position `j` lies in chunk `i` of `c` chunks over `n` items.
pub open spec fn in_chunk(n: nat, c: nat, i: nat, j: nat) -> bool {
    chunk_start(n, c, i) <= j < chunk_start(n, c, i + 1)
}

/// For `n` items and `w >= 1` workers there are `min(w, n)` chunks, each
/// holding at most `ceil(n / min(w, n))` items, and every item position lies
/// in exactly one chunk.
pub proof fn lemma_partition_covers(n: nat, w: nat, j: nat)
    requires
        w >= 1,
        j < n,
    ensures
        chunk_count(n, w) == if w < n {
            w
        } else {
            n
        },
        forall|i: nat|
            i < chunk_count(n, w) ==> #[trigger] chunk_len(n, chunk_count(n, w), i) <= ceil_div(
                n,
                chunk_count(n, w),
            ),
        exists|i: nat| i < chunk_count(n, w) && #[trigger] in_chunk(n, chunk_count(n, w), i, j),
        forall|i1: nat, i2: nat|
            i1 < chunk_count(n, w) && i2 < chunk_count(n, w) && #[trigger] in_chunk(
                n,
                chunk_count(n, w),
                i1,
                j,
            ) && #[trigger] in_chunk(n, chunk_count(n, w), i2, j) ==> i1 == i2,
{
    let c = chunk_count(n, w);
    assert forall|i: nat| i < c implies #[trigger] chunk_len(n, c, i) <= ceil_div(n, c) by {
        lemma_chunk_size_bound(n, c, i);
    }
    lemma_chunk_end(n, c);
    let i = find_chunk(n, c, j, 0);
    assert(in_chunk(n, c, i, j));
    assert forall|i1: nat, i2: nat|
        i1 < c && i2 < c && #[trigger] in_chunk(n, c, i1, j) && #[trigger] in_chunk(
            n,
            c,
            i2,
            j,
        ) implies i1 == i2 by {
        if i1 < i2 {
            lemma_chunk_monotone(n, c, i1 + 1, i2);
        } else if i2 < i1 {
            lemma_chunk_monotone(n, c, i2 + 1, i1);
        }
    }
}

proof fn find_chunk(n: nat, c: nat, j: nat, i: nat) -> (r: nat)
    requires
        c > 0,
        i < c,
        chunk_start(n, c, i) <= j < n,
        chunk_start(n, c, c) == n,
    ensures
        r < c,
        chunk_start(n, c, r) <= j < chunk_start(n, c, r + 1),
    decreases c - i,
{
    if j < chunk_start(n, c, i + 1) {
        i
    } else if i + 1 < c {
        find_chunk(n, c, j, i + 1)
    } else {
        i
    }
}

} // verus!
