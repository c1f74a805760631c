use vstd::prelude::*;
use vstd::string::StringExecFns;

use crate::record::RepoInfo;

verus! {

/// The branches tried, in order, after the declared default branch fails.
pub open spec fn fallback_branches() -> Seq<Seq<char>> {
    seq!["main"@, "master"@, "develop"@, "trunk"@]
}

/// The declared branch first, then each fallback that differs from it.
pub open spec fn branch_order(default_branch: Seq<char>) -> Seq<Seq<char>> {
    seq![default_branch] + fallback_branches().filter(other_than(default_branch))
}

pub open spec fn other_than(branch: Seq<char>) -> spec_fn(Seq<char>) -> bool {
    |b: Seq<char>| b != branch
}

pub open spec fn archive_url_of(html_url: Seq<char>, branch: Seq<char>) -> Seq<char> {
    html_url + "/archive/refs/heads/"@ + branch + ".zip"@
}

/// The address of the zip archive of one branch of a repository.
pub fn archive_url(html_url: &str, branch: &str) -> (r: String)
    ensures
        r@ == archive_url_of(html_url@, branch@),
{
    let mut url = String::from_str(html_url);
    url.append("/archive/refs/heads/");
    url.append(branch);
    url.append(".zip");
    url
}

/// The branches whose archives are tried for a repository, in order.
pub fn branch_candidates(default_branch: &str) -> (r: Vec<String>)
    ensures
        r@.map_values(|s: String| s@) == branch_order(default_branch@),
{
    let fallbacks: [&str; 4] = ["main", "master", "develop", "trunk"];
    let mut out: Vec<String> = Vec::new();
    out.push(String::from_str(default_branch));
    let ghost pred = other_than(default_branch@);
    let ghost all = fallback_branches();
    proof {
        reveal_strlit("main");
        reveal_strlit("master");
        reveal_strlit("develop");
        reveal_strlit("trunk");
        assert(all.take(0) =~= Seq::<Seq<char>>::empty());
        reveal(Seq::filter);
        assert(out@.map_values(|s: String| s@) =~= seq![default_branch@] + all.take(0).filter(pred));
    }
    let mut i: usize = 0;
    while i < 4
        invariant
            i <= 4,
            all == fallback_branches(),
            pred == other_than(default_branch@),
            forall|k: int| 0 <= k < 4 ==> (#[trigger] fallbacks[k])@ == all[k],
            out@.map_values(|s: String| s@) == seq![default_branch@] + all.take(i as int).filter(pred),
        decreases 4 - i,
    {
        let b = fallbacks[i];
        let same = String::from_str(b) == String::from_str(default_branch);
        let ghost before = out@;
        if !same {
            out.push(String::from_str(b));
        }
        proof {
            reveal(Seq::filter);
            assert(all.take(i as int + 1).drop_last() =~= all.take(i as int));
            assert(all.take(i as int + 1).last() == b@);
            if !same {
                assert(out@ =~= before.push(out@.last()));
                assert(out@.map_values(|s: String| s@) =~= before.map_values(|s: String| s@).push(b@));
            }
        }
        i = i + 1;
    }
    proof {
        assert(all.take(4) =~= all);
    }
    out
}

/// The declared branch is tried first and never again: every later
/// candidate differs from it.
pub proof fn lemma_default_branch_tried_once(default_branch: Seq<char>)
    ensures
        branch_order(default_branch)[0] == default_branch,
        forall|i: int|
            1 <= i < branch_order(default_branch).len() ==> #[trigger] branch_order(default_branch)[i]
                != default_branch,
{
    let pred = other_than(default_branch);
    let order = branch_order(default_branch);
    let rest = fallback_branches().filter(pred);
    assert forall|i: int| 1 <= i < order.len() implies #[trigger] order[i] != default_branch by {
        assert(order[i] == rest[i - 1]);
        fallback_branches().lemma_filter_pred(pred, i - 1);
    }
}

/// What the retriever asks its caller to do next for one repository.
#[derive(Debug)]
pub enum FetchStep {
    /// Download and unpack the archive at this address.
    Attempt(String),
    /// The repository is on disk, with this many bytes.
    Done(u64),
    /// Every branch failed; the message carries the last reason.
    Failed(String),
}

pub open spec fn failure_message(reason: Seq<char>) -> Seq<char> {
    "Failed to download: "@ + reason
}

/// The retrieval of one repository: an existing destination is taken as it
/// is; otherwise the branch archives are tried in order until one unpacks.
pub struct Retrieval {
    urls: Vec<String>,
    next: usize,
}

impl Retrieval {
    /// The archive addresses, in the order they are tried.
    pub closed spec fn urls(&self) -> Seq<Seq<char>> {
        self.urls@.map_values(|s: String| s@)
    }

    /// How many of them have been handed out.
    pub closed spec fn tried(&self) -> nat {
        self.next as nat
    }

    pub open spec fn urls_for(repo: RepoInfo) -> Seq<Seq<char>> {
        branch_order(repo.default_branch@).map_values(|b: Seq<char>| archive_url_of(repo.html_url@, b))
    }

    /// Starts the retrieval of `repo`. `existing_size` is the byte total of
    /// the destination directory when it already exists: then nothing is
    /// fetched and that total is the result. Otherwise the archive of the
    /// default branch is asked for first.
    pub fn start(repo: &RepoInfo, existing_size: Option<u64>) -> (r: (Retrieval, FetchStep))
        ensures
            r.0.urls() == Self::urls_for(*repo),
            existing_size matches Some(n) ==> r.1 == FetchStep::Done(n) && r.0.tried() == 0,
            existing_size is None ==> r.0.tried() == 1 && (r.1 matches FetchStep::Attempt(u) && u@ == r.0.urls()[0]),
    {
        let branches = branch_candidates(repo.default_branch.as_str());
        let mut urls: Vec<String> = Vec::new();
        let mut i: usize = 0;
        let ghost order = branch_order(repo.default_branch@);
        while i < branches.len()
            invariant
                i <= branches@.len(),
                branches@.map_values(|s: String| s@) == order,
                urls@.map_values(|s: String| s@) == order.take(i as int).map_values(
                    |b: Seq<char>| archive_url_of(repo.html_url@, b),
                ),
            decreases branches.len() - i,
        {
            let u = archive_url(repo.html_url.as_str(), branches[i].as_str());
            let ghost before = urls@;
            urls.push(u);
            proof {
                assert(branches@.map_values(|s: String| s@)[i as int] == branches@[i as int]@);
                assert(order[i as int] == branches@[i as int]@);
                assert(u@ == archive_url_of(repo.html_url@, order[i as int]));
                assert(urls@ =~= before.push(u));
                assert(urls@.map_values(|s: String| s@) =~= before.map_values(|s: String| s@).push(u@));
                assert(order.take(i as int + 1) =~= order.take(i as int).push(order[i as int]));
                assert(urls@.map_values(|s: String| s@) =~= order.take(i as int + 1).map_values(
                    |b: Seq<char>| archive_url_of(repo.html_url@, b),
                ));
            }
            i = i + 1;
        }
        proof {
            assert(order.take(i as int) =~= order);
            assert(order.len() >= 1);
        }
        match existing_size {
            Some(n) => (Retrieval { urls, next: 0 }, FetchStep::Done(n)),
            None => {
                let first = urls[0].clone();
                (Retrieval { urls, next: 1 }, FetchStep::Attempt(first))
            },
        }
    }

    /// Takes the result of the attempt last handed out: a success ends the
    /// retrieval with its byte total; a failure moves on to the next
    /// address, or, with none left, ends it with the failure's reason.
    pub fn on_result(&mut self, result: Result<u64, String>) -> (r: FetchStep)
        requires
            1 <= old(self).tried() <= old(self).urls().len(),
        ensures
            final(self).urls() == old(self).urls(),
            result matches Ok(n) ==> r == FetchStep::Done(n) && final(self).tried() == old(self).tried(),
            result matches Err(e) ==> if old(self).tried() < old(self).urls().len() {
                &&& final(self).tried() == old(self).tried() + 1
                &&& r matches FetchStep::Attempt(u) && u@ == old(self).urls()[old(self).tried() as int]
            } else {
                &&& final(self).tried() == old(self).tried()
                &&& r matches FetchStep::Failed(m) && m@ == failure_message(e@)
            },
            1 <= final(self).tried() <= final(self).urls().len(),
    {
        match result {
            Ok(n) => FetchStep::Done(n),
            Err(e) => {
                if self.next < self.urls.len() {
                    let u = self.urls[self.next].clone();
                    self.next = self.next + 1;
                    FetchStep::Attempt(u)
                } else {
                    let mut m = String::from_str("Failed to download: ");
                    m.append(e.as_str());
                    FetchStep::Failed(m)
                }
            },
        }
    }
}

/// Where an archive entry lands, relative to the destination directory: its
/// path with the first segment (the archive's top-level directory) removed.
/// An entry with nothing left after that is skipped.
pub fn strip_top_dir(components: &Vec<String>) -> (r: Option<Vec<String>>)
    ensures
        components@.len() > 1 ==> (r matches Some(rest) && rest@ == components@.skip(1)),
        components@.len() <= 1 ==> r is None,
{
    if components.len() <= 1 {
        return None;
    }
    let mut rest: Vec<String> = Vec::new();
    let mut i: usize = 1;
    while i < components.len()
        invariant
            1 <= i <= components@.len(),
            rest@ == components@.subrange(1, i as int),
        decreases components.len() - i,
    {
        rest.push(components[i].clone());
        i = i + 1;
        proof {
            assert(rest@ =~= components@.subrange(1, i as int));
        }
    }
    proof {
        assert(components@.skip(1) =~= components@.subrange(1, i as int));
    }
    Some(rest)
}

} // verus!
