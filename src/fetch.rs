use vstd::prelude::*;
use crate::text::{decimal, decimal_string};

verus! {

/// The listing endpoint, for the seed GET and every page POST.
pub const LIST_URL: &'static str = "https://jut.su/anime/";

/// The page the paginated POSTs start from (the seed GET covers the first).
pub const FIRST_POST_PAGE: u64 = 2;

/// The body with which the server marks the end of the listing.
pub open spec fn is_sentinel(body: Seq<char>) -> bool {
    body == "empty"@
}

/// The form body of the POST for page `page`.
pub open spec fn page_request(page: nat) -> Seq<char> {
    "ajax_load=yes&start_from_page="@ + decimal(page) + "&show_search=&anime_of_user="@
}

/// One answer to a listing POST, on a fetch at `html` asking for `page`:
/// the new HTML and page and whether another page is wanted, or why it fails.
pub open spec fn page_step(html: Seq<char>, page: u64, status: u16, body: Seq<char>) -> Result<
    (Seq<char>, u64, bool),
    FetchError,
> {
    if status != 200 {
        Err(FetchError::Status(status))
    } else if is_sentinel(body) {
        Ok((html, if page > 0 { (page - 1) as u64 } else { 0u64 }, false))
    } else if page == u64::MAX {
        Err(FetchError::PageLimit)
    } else {
        Ok((html + body, (page + 1) as u64, true))
    }
}

/// Runs a fetch at `html` asking for `page` through successful answers with
/// the bodies `bodies`, in order, one `page_step` each: `Some` of the final
/// HTML and page and of how many answers were taken once the fetch wants no
/// more pages; `None` if it fails or the bodies run out first.
pub open spec fn run_pages(html: Seq<char>, page: u64, bodies: Seq<Seq<char>>) -> Option<
    (Seq<char>, u64, nat),
>
    decreases bodies.len(),
{
    if bodies.len() == 0 {
        None
    } else {
        match page_step(html, page, 200, bodies[0]) {
            Err(_) => None,
            Ok((h, p, more)) => if more {
                match run_pages(h, p, bodies.drop_first()) {
                    Some((fh, fp, n)) => Some((fh, fp, n + 1)),
                    None => None,
                }
            } else {
                Some((h, p, 1))
            },
        }
    }
}

/// All of `bodies` joined in order.
pub open spec fn joined(bodies: Seq<Seq<char>>) -> Seq<char>
    decreases bodies.len(),
{
    if bodies.len() == 0 {
        Seq::empty()
    } else {
        bodies[0] + joined(bodies.drop_first())
    }
}

/// Why a listing fetch failed.
#[derive(Debug, PartialEq, Eq, Structural)]
pub enum FetchError {
    /// A page answered with a status other than 200.
    Status(u16),
    /// The page counter cannot advance any further.
    PageLimit,
}

/// The state of one paginated listing fetch: the HTML gathered so far and the
/// next page to ask for; once finished, `page` is the last page consumed.
#[derive(Debug)]
pub struct Pager {
    pub html: String,
    pub page: u64,
    pub finished: bool,
}

impl Pager {
    /// Starts a fetch from the seed page's body, asking next for `first_page`.
    pub fn new(seed: String, first_page: u64) -> (r: Pager)
        ensures
            r.html@ == seed@,
            r.page == first_page,
            !r.finished,
    {
        Pager { html: seed, page: first_page, finished: false }
    }

    /// The form body of the next POST.
    pub fn request_body(&self) -> (r: String)
        ensures
            r@ == page_request(self.page as nat),
    {
        let head = String::from_str("ajax_load=yes&start_from_page=");
        let num = decimal_string(self.page);
        let with_num = head.concat(num.as_str());
        with_num.concat("&show_search=&anime_of_user=")
    }

    /// Takes in the answer to the POST for the current page. A status other
    /// than 200 fails the fetch; the sentinel body finishes it, leaving `page`
    /// at the last page consumed; any other body is appended and the fetch
    /// moves on to the next page. Returns whether another page is wanted.
    pub fn on_response(&mut self, status: u16, body: String) -> (r: Result<bool, FetchError>)
        requires
            !old(self).finished,
        ensures
            page_step(old(self).html@, old(self).page, status, body@) matches Ok((h, p, more)) ==> (
            r == Ok::<bool, FetchError>(more) && final(self).html@ == h && final(self).page == p
                && final(self).finished == !more),
            page_step(old(self).html@, old(self).page, status, body@) matches Err(e) ==> (r
                == Err::<bool, FetchError>(e) && *final(self) == *old(self)),
            status != 200 ==> {
                &&& r == Err::<bool, FetchError>(FetchError::Status(status))
                &&& *final(self) == *old(self)
            },
            status == 200 && is_sentinel(body@) ==> {
                &&& r == Ok::<bool, FetchError>(false)
                &&& final(self).finished
                &&& final(self).html@ == old(self).html@
                &&& final(self).page == if old(self).page > 0 {
                    (old(self).page - 1) as u64
                } else {
                    0u64
                }
            },
            status == 200 && !is_sentinel(body@) && old(self).page == u64::MAX ==> {
                &&& r == Err::<bool, FetchError>(FetchError::PageLimit)
                &&& *final(self) == *old(self)
            },
            status == 200 && !is_sentinel(body@) && old(self).page < u64::MAX ==> {
                &&& r == Ok::<bool, FetchError>(true)
                &&& !final(self).finished
                &&& final(self).html@ == old(self).html@ + body@
                &&& final(self).page == old(self).page + 1
            },
    {
        if status != 200 {
            return Err(FetchError::Status(status));
        }
        let sentinel = String::from_str("empty");
        if body == sentinel {
            self.finished = true;
            if self.page > 0 {
                self.page = self.page - 1;
            }
            return Ok(false);
        }
        if self.page == u64::MAX {
            return Err(FetchError::PageLimit);
        }
        self.html.append(body.as_str());
        self.page = self.page + 1;
        Ok(true)
    }
}

/// A listing fed successful pages that end with the sentinel takes exactly
/// one answer per page and stops at the sentinel, with the seed's HTML
/// followed by every page body before it, in order, and the last page
/// consumed recorded (no page cap, short of the page counter's range).
pub proof fn lemma_pagination_terminates(seed: Seq<char>, first: u64, bodies: Seq<Seq<char>>)
    requires
        forall|i: int| 0 <= i < bodies.len() ==> !is_sentinel(#[trigger] bodies[i]),
        first + bodies.len() < u64::MAX,
        first + bodies.len() >= 1,
    ensures
        run_pages(seed, first, bodies.push("empty"@)) == Some(
            (seed + joined(bodies), (first + bodies.len() - 1) as u64, bodies.len() + 1),
        ),
    decreases bodies.len(),
{
    reveal_strlit("empty");
    if bodies.len() == 0 {
        assert(bodies.push("empty"@)[0] == "empty"@);
        assert(seed + joined(bodies) =~= seed);
    } else {
        let rest = bodies.drop_first();
        assert(bodies.push("empty"@).drop_first() =~= rest.push("empty"@));
        assert(!is_sentinel(bodies[0]));
        assert(bodies.push("empty"@)[0] == bodies[0]);
        lemma_pagination_terminates(seed + bodies[0], (first + 1) as u64, rest);
        assert(seed + bodies[0] + joined(rest) =~= seed + joined(bodies));
    }
}

} // verus!
