use vstd::prelude::*;
use vstd::string::StringExecFns;

use crate::record::RepoInfo;

verus! {

/// What `str::to_lowercase` returns for the given characters.
pub uninterp spec fn lower_of(s: Seq<char>) -> Seq<char>;

/// Whether a regular expression with the given source matches somewhere in
/// the text.
pub uninterp spec fn regex_finds(pattern: Seq<char>, text: Seq<char>) -> bool;

/// Whether `regex::Regex::new` accepts the pattern (its syntax is valid and
/// the compiled form stays within the default size limit).
pub uninterp spec fn pattern_compiles(pattern: Seq<char>) -> bool;

/// Relies on `str::to_lowercase`: the result depends on the characters alone.
#[verifier::external_body]
fn lowercase(s: &str) -> (r: String)
    ensures
        r@ == lower_of(s@),
{
    s.to_lowercase()
}

/// Relies on `regex::Regex::new`: compiles a pattern or reports why it
/// cannot.
#[verifier::external_body]
fn regex_new(pattern: &str) -> (r: Result<regex::Regex, regex::Error>)
    ensures
        r is Ok <==> pattern_compiles(pattern@),
{
    regex::Regex::new(pattern)
}

#[verifier::external_type_specification]
#[verifier::external_body]
pub struct ExRegex(regex::Regex);

#[verifier::external_type_specification]
#[verifier::external_body]
pub struct ExRegexError(regex::Error);

/// A compiled name pattern together with the source it was compiled from.
/// Only `compile_pattern` builds one, so the two always agree.
pub struct NamePattern {
    source: String,
    compiled: regex::Regex,
}

/// A pattern that does not compile.
pub struct InvalidPattern {
    pub pattern: String,
    pub reason: regex::Error,
}

impl NamePattern {
    /// The source text of the pattern.
    pub closed spec fn source(&self) -> Seq<char> {
        self.source@
    }
}

/// Relies on `regex::Regex::is_match`: true iff the pattern matches somewhere
/// in the text (a search, not a full match).
#[verifier::external_body]
fn regex_is_match(p: &NamePattern, text: &str) -> (r: bool)
    ensures
        r == regex_finds(p.source(), text@),
{
    p.compiled.is_match(text)
}

/// Compiles a name pattern. Fails iff the regular-expression engine rejects it.
pub fn compile_pattern(pattern: &str) -> (r: Result<NamePattern, InvalidPattern>)
    ensures
        r is Ok <==> pattern_compiles(pattern@),
        r matches Ok(p) ==> p.source() == pattern@,
        r matches Err(e) ==> e.pattern@ == pattern@,
{
    let source = String::from_str(pattern);
    match regex_new(pattern) {
        Ok(compiled) => Ok(NamePattern { source, compiled }),
        Err(reason) => Err(InvalidPattern { pattern: source, reason }),
    }
}

/// The text of an optional filter.
pub open spec fn opt_view(o: Option<&String>) -> Option<Seq<char>> {
    match o {
        Some(s) => Some(s@),
        None => None,
    }
}

/// The record satisfies every one of the five predicates of the criteria.
pub open spec fn keeps(
    repo: RepoInfo,
    language: Option<Seq<char>>,
    min_stars: u32,
    max_size: Option<u32>,
    only_original: bool,
    pattern: Option<Seq<char>>,
) -> bool {
    &&& !(only_original && repo.is_fork)
    &&& repo.stars >= min_stars
    &&& (max_size matches Some(mb) ==> repo.size as int <= mb as int * 1024)
    &&& (language matches Some(l) ==> (repo.language matches Some(rl) && lower_of(rl@) == lower_of(l)))
    &&& (pattern matches Some(p) ==> regex_finds(p, repo.name@))
}

/// The source text of an optional compiled pattern.
pub open spec fn pattern_view(p: &Option<NamePattern>) -> Option<Seq<char>> {
    match p {
        Some(np) => Some(np.source()),
        None => None,
    }
}

/// Decides whether one record passes the criteria.
pub fn repo_passes(
    repo: &RepoInfo,
    language_filter: Option<&String>,
    min_stars: u32,
    max_size: Option<&u32>,
    only_original: bool,
    regex_filter: &Option<NamePattern>,
) -> (b: bool)
    ensures
        b == keeps(
            *repo,
            opt_view(language_filter),
            min_stars,
            size_view(max_size),
            only_original,
            pattern_view(regex_filter),
        ),
{
    if only_original && repo.is_fork {
        return false;
    }
    if repo.stars < min_stars {
        return false;
    }
    if let Some(max_size_mb) = max_size {
        if repo.size as u64 > *max_size_mb as u64 * 1024 {
            return false;
        }
    }
    if let Some(lang_filter) = language_filter {
        match &repo.language {
            Some(lang) => {
                let a = lowercase(lang.as_str());
                let b = lowercase(lang_filter.as_str());
                if a != b {
                    return false;
                }
            },
            None => {
                return false;
            },
        }
    }
    if let Some(re) = regex_filter {
        if !regex_is_match(re, repo.name.as_str()) {
            return false;
        }
    }
    true
}

/// The criteria as a predicate over records.
pub open spec fn criteria(
    language: Option<Seq<char>>,
    min_stars: u32,
    max_size: Option<u32>,
    only_original: bool,
    pattern: Option<Seq<char>>,
) -> spec_fn(RepoInfo) -> bool {
    |r: RepoInfo| keeps(r, language, min_stars, max_size, only_original, pattern)
}

pub open spec fn size_view(m: Option<&u32>) -> Option<u32> {
    match m {
        Some(v) => Some(*v),
        None => None,
    }
}

/// Keeps, in their order, exactly the records that pass the criteria.
pub fn filter_repos(
    repos: Vec<RepoInfo>,
    language_filter: Option<&String>,
    min_stars: u32,
    max_size: Option<&u32>,
    only_original: bool,
    regex_filter: &Option<NamePattern>,
) -> (r: Vec<RepoInfo>)
    ensures
        r@ == repos@.filter(
            criteria(
                opt_view(language_filter),
                min_stars,
                size_view(max_size),
                only_original,
                pattern_view(regex_filter),
            ),
        ),
{
    let ghost pred = criteria(
        opt_view(language_filter),
        min_stars,
        size_view(max_size),
        only_original,
        pattern_view(regex_filter),
    );
    let ghost all = repos@;
    let mut rest = repos;
    let n: usize = rest.len();
    let mut kept: Vec<RepoInfo> = Vec::new();
    let mut i: usize = 0;
    while rest.len() > 0
        invariant
            i + rest.len() == all.len(),
            all.len() == n,
            rest@ == all.skip(i as int),
            pred == criteria(
                opt_view(language_filter),
                min_stars,
                size_view(max_size),
                only_original,
                pattern_view(regex_filter),
            ),
            kept@ == all.take(i as int).filter(pred),
        decreases rest.len(),
    {
        let repo = rest.remove(0);
        let pass = repo_passes(&repo, language_filter, min_stars, max_size, only_original, regex_filter);
        proof {
            assert(repo == all[i as int]);
            assert(all.take(i as int + 1).drop_last() =~= all.take(i as int));
            reveal(Seq::filter);
            assert(pred(repo) == pass);
            assert(all.take(i as int + 1).last() == repo);
        }
        if pass {
            kept.push(repo);
        }
        i = i + 1;
        proof {
            assert(rest@ =~= all.skip(i as int));
        }
    }
    proof {
        assert(all.take(i as int) =~= all);
    }
    kept
}

/// `idx` gives, for each element of `sub`, its position in `s`, increasing.
pub open spec fn picks(idx: Seq<int>, sub: Seq<RepoInfo>, s: Seq<RepoInfo>) -> bool {
    &&& idx.len() == sub.len()
    &&& forall|k: int| 0 <= k < idx.len() ==> 0 <= #[trigger] idx[k] < s.len() && sub[k] == s[idx[k]]
    &&& forall|j: int, k: int| 0 <= j < k < idx.len() ==> idx[j] < idx[k]
}

/// `sub` is `s` with some elements left out and the rest in their order.
pub open spec fn is_subsequence(sub: Seq<RepoInfo>, s: Seq<RepoInfo>) -> bool {
    exists|idx: Seq<int>| picks(idx, sub, s)
}

proof fn lemma_filter_is_subsequence(s: Seq<RepoInfo>, pred: spec_fn(RepoInfo) -> bool)
    ensures
        is_subsequence(s.filter(pred), s),
    decreases s.len(),
{
    reveal(Seq::filter);
    if s.len() == 0 {
        let idx = Seq::<int>::empty();
        assert(picks(idx, s.filter(pred), s));
    } else {
        let prefix = s.drop_last();
        lemma_filter_is_subsequence(prefix, pred);
        let sub = prefix.filter(pred);
        let idx0 = choose|idx: Seq<int>| picks(idx, sub, prefix);
        if pred(s.last()) {
            let idx = idx0.push(s.len() - 1);
            let out = s.filter(pred);
            assert(out == sub.push(s.last()));
            assert forall|k: int| 0 <= k < idx.len() implies 0 <= #[trigger] idx[k] < s.len() && out[k] == s[idx[k]] by {
                if k < idx0.len() {
                    assert(idx[k] == idx0[k]);
                }
            }
            assert forall|j: int, k: int| 0 <= j < k < idx.len() implies idx[j] < idx[k] by {
                if k < idx0.len() {
                    assert(idx[j] == idx0[j] && idx[k] == idx0[k]);
                } else {
                    assert(idx[j] == idx0[j]);
                }
            }
            assert(picks(idx, out, s));
        } else {
            let out = s.filter(pred);
            assert(out == sub);
            assert forall|k: int| 0 <= k < idx0.len() implies 0 <= #[trigger] idx0[k] < s.len() && out[k] == s[idx0[k]] by {
                assert(prefix[idx0[k]] == s[idx0[k]]);
            }
            assert(picks(idx0, out, s));
        }
    }
}

/// Filtering returns a subsequence of the input records, in their order;
/// every record returned passes all five predicates, and every record left
/// out fails at least one of them.
pub proof fn lemma_filter_sound_and_complete(
    repos: Seq<RepoInfo>,
    language: Option<Seq<char>>,
    min_stars: u32,
    max_size: Option<u32>,
    only_original: bool,
    pattern: Option<Seq<char>>,
)
    ensures
        ({
            let out = repos.filter(criteria(language, min_stars, max_size, only_original, pattern));
            &&& is_subsequence(out, repos)
            &&& forall|k: int| 0 <= k < out.len() ==> keeps(#[trigger] out[k], language, min_stars, max_size, only_original, pattern)
            &&& forall|i: int| 0 <= i < repos.len() && !out.contains(#[trigger] repos[i]) ==> !keeps(repos[i], language, min_stars, max_size, only_original, pattern)
        }),
{
    let pred = criteria(language, min_stars, max_size, only_original, pattern);
    lemma_filter_is_subsequence(repos, pred);
    let out = repos.filter(pred);
    assert forall|k: int| 0 <= k < out.len() implies keeps(#[trigger] out[k], language, min_stars, max_size, only_original, pattern) by {
        repos.lemma_filter_pred(pred, k);
    }
    assert forall|i: int| 0 <= i < repos.len() && !out.contains(#[trigger] repos[i]) implies !keeps(repos[i], language, min_stars, max_size, only_original, pattern) by {
        if keeps(repos[i], language, min_stars, max_size, only_original, pattern) {
            repos.lemma_filter_contains(pred, i);
        }
    }
}

} // verus!
