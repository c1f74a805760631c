use vstd::prelude::*;
use vstd::string::StringExecFns;

use crate::record::RepoInfo;

verus! {

/// Records asked for per listing page.
pub const PAGE_SIZE: u32 = 100;

/// Below this many remaining requests, an unauthenticated run is warned.
pub const LOW_QUOTA: u32 = 10;

pub open spec fn digit_char(d: nat) -> char {
    if d == 0 { '0' }
    else if d == 1 { '1' }
    else if d == 2 { '2' }
    else if d == 3 { '3' }
    else if d == 4 { '4' }
    else if d == 5 { '5' }
    else if d == 6 { '6' }
    else if d == 7 { '7' }
    else if d == 8 { '8' }
    else { '9' }
}

/// The decimal digits of `n`, most significant first, without leading zeros.
pub open spec fn decimal_of(n: nat) -> Seq<char>
    decreases n,
{
    if n < 10 {
        seq![digit_char(n)]
    } else {
        decimal_of(n / 10).push(digit_char(n % 10))
    }
}

fn digit_str(d: u64) -> (r: &'static str)
    requires
        d < 10,
    ensures
        r@ == seq![digit_char(d as nat)],
{
    proof {
        reveal_strlit("0");
        reveal_strlit("1");
        reveal_strlit("2");
        reveal_strlit("3");
        reveal_strlit("4");
        reveal_strlit("5");
        reveal_strlit("6");
        reveal_strlit("7");
        reveal_strlit("8");
        reveal_strlit("9");
    }
    if d == 0 { "0" }
    else if d == 1 { "1" }
    else if d == 2 { "2" }
    else if d == 3 { "3" }
    else if d == 4 { "4" }
    else if d == 5 { "5" }
    else if d == 6 { "6" }
    else if d == 7 { "7" }
    else if d == 8 { "8" }
    else { "9" }
}

/// Writes `n` in decimal.
pub fn decimal(n: u64) -> (r: String)
    ensures
        r@ == decimal_of(n as nat),
    decreases n,
{
    if n < 10 {
        String::from_str(digit_str(n))
    } else {
        let mut s = decimal(n / 10);
        s.append(digit_str(n % 10));
        s
    }
}

pub open spec fn listing_url_of(username: Seq<char>, page: nat) -> Seq<char> {
    "https://api.github.com/users/"@ + username + "/repos?per_page="@ + decimal_of(PAGE_SIZE as nat)
        + "&page="@ + decimal_of(page)
}

/// The address of one page of the owner's repository listing.
pub fn listing_url(username: &str, page: u64) -> (r: String)
    ensures
        r@ == listing_url_of(username@, page as nat),
{
    let mut url = String::from_str("https://api.github.com/users/");
    url.append(username);
    url.append("/repos?per_page=");
    let size = decimal(PAGE_SIZE as u64);
    url.append(size.as_str());
    url.append("&page=");
    let digits = decimal(page);
    url.append(digits.as_str());
    url
}

/// The address of the quota endpoint.
pub fn rate_limit_url() -> (r: String)
    ensures
        r@ == "https://api.github.com/rate_limit"@,
{
    String::from_str("https://api.github.com/rate_limit")
}

/// The value of the authorization header for a personal access token.
pub fn bearer(token: &str) -> (r: String)
    ensures
        r@ == "Bearer "@ + token@,
{
    let mut v = String::from_str("Bearer ");
    v.append(token);
    v
}

/// The quota is checked once after listing, and only when no credential was
/// given.
pub fn needs_quota_check(has_token: bool) -> (r: bool)
    ensures
        r == !has_token,
{
    !has_token
}

/// Whether the remaining request quota calls for a warning.
pub fn quota_is_low(remaining: u32) -> (r: bool)
    ensures
        r == (remaining < LOW_QUOTA),
{
    remaining < LOW_QUOTA
}

/// The walk over the listing's pages: pages are asked for from 1 upward and
/// their records gathered in the order received, until a page comes back
/// empty.
pub struct Listing {
    repos: Vec<RepoInfo>,
    page: u64,
    finished: bool,
}

impl Listing {
    /// The records gathered so far.
    pub closed spec fn gathered(&self) -> Seq<RepoInfo> {
        self.repos@
    }

    /// The page to ask for next.
    pub closed spec fn page(&self) -> nat {
        self.page as nat
    }

    /// Whether an empty page has ended the walk.
    pub closed spec fn finished(&self) -> bool {
        self.finished
    }

    pub fn new() -> (r: Listing)
        ensures
            r.gathered() == Seq::<RepoInfo>::empty(),
            r.page() == 1,
            !r.finished(),
    {
        Listing { repos: Vec::new(), page: 1, finished: false }
    }

    /// The page to fetch next, or `None` once the walk is over.
    pub fn next_page(&self) -> (r: Option<u64>)
        ensures
            self.finished() ==> r is None,
            !self.finished() ==> r == Some(self.page() as u64),
    {
        if self.finished {
            None
        } else {
            Some(self.page)
        }
    }

    /// Takes in the records of the page last asked for. An empty page ends the
    /// walk; any other is appended and the next page number is taken.
    pub fn accept_page(&mut self, data: Vec<RepoInfo>)
        requires
            !old(self).finished(),
            old(self).page() < u64::MAX,
        ensures
            data@.len() == 0 ==> final(self).finished() && final(self).gathered() == old(self).gathered()
                && final(self).page() == old(self).page(),
            data@.len() > 0 ==> !final(self).finished() && final(self).gathered() == old(self).gathered() + data@
                && final(self).page() == old(self).page() + 1,
    {
        if data.len() == 0 {
            self.finished = true;
        } else {
            let mut data = data;
            self.repos.append(&mut data);
            self.page = self.page + 1;
        }
    }

    /// The records of every page, in the order received.
    pub fn into_repos(self) -> (r: Vec<RepoInfo>)
        ensures
            r@ == self.gathered(),
    {
        self.repos
    }
}

} // verus!
