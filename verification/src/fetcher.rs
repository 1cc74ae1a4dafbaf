use vstd::prelude::*;

use crate::outcome::{FetchError, FetcherResult, Response};
use crate::urls::{url_normalized, url_parse_ok, Url};

verus! {

/// The most hops the redirect-following fetcher takes in one call.
pub const MAX_HOPS: usize = 10;

/// The one status code the redirect-following fetcher follows; keeping to
/// permanent redirects alone is deliberate.
pub const PERMANENT_REDIRECT: u16 = 301;

/// The fetch capability: retrieve a URL, produce a response or a failure.
///
/// `may_return` is the fetcher's model: which outcomes a call on a given
/// URL can produce. Every implementation's `get` is bound to it; an
/// implementation that does not say more admits every outcome.
pub trait HttpFetcher<B> {
    open spec fn may_return(&self, url: Seq<char>, r: FetcherResult<B>) -> bool {
        true
    }

    fn get(&self, url: Url) -> (r: FetcherResult<B>)
        ensures
            self.may_return(url@, r),
    ;
}

/// Whether the redirect-following loop follows this outcome to a new
/// location: a permanent redirect whose `Location` value parses as an
/// absolute URL.
pub open spec fn follows<B>(o: FetcherResult<B>) -> bool {
    &&& o is Ok
    &&& o->Ok_0.status == PERMANENT_REDIRECT
    &&& o->Ok_0.location is Some
    &&& url_parse_ok(o->Ok_0.location->0@)
}

/// The result the redirect-following loop yields when it stops at outcome
/// `o` instead of following it: a failure or a non-redirect response is
/// passed through; a permanent redirect without a usable location becomes
/// a URI-format failure.
pub open spec fn settle<B>(o: FetcherResult<B>) -> FetcherResult<B> {
    match o {
        Err(e) => Err(e),
        Ok(resp) => {
            if resp.status != PERMANENT_REDIRECT {
                Ok(resp)
            } else {
                Err(FetchError::UriFormat)
            }
        },
    }
}

/// The URL the redirect-following loop hands to its inner fetcher on call
/// `i`, counting from zero: first the original URL, afterwards the parsed
/// `Location` of the outcome one call earlier.
pub open spec fn hop_url<B>(url: Seq<char>, tr: Seq<FetcherResult<B>>, i: int) -> Seq<char> {
    if i == 0 {
        url
    } else {
        url_normalized(tr[i - 1]->Ok_0.location->0@)
    }
}

/// One complete run of the redirect-following loop with hop limit `limit`:
/// `tr` lists the inner outcomes in order, one per inner call, and `r` is
/// the loop's result. Every outcome before the last is followed, and the
/// run either stops at the last outcome or spends the whole hop limit on
/// followed redirects and fails.
pub open spec fn follow_run<B>(tr: Seq<FetcherResult<B>>, limit: nat, r: FetcherResult<B>) -> bool {
    &&& tr.len() <= limit
    &&& forall|i: int| 0 <= i < tr.len() - 1 ==> follows(#[trigger] tr[i])
    &&& if tr.len() == limit && tr.len() > 0 && follows(tr.last()) {
        r == Err::<Response<B>, FetchError>(FetchError::UriFormat)
    } else {
        &&& tr.len() >= 1
        &&& !follows(tr.last())
        &&& r == settle(tr.last())
    }
}

/// A failed attempt that the retrying fetcher tries again.
pub open spec fn transient_failure<B>(o: FetcherResult<B>) -> bool {
    o is Err && o->Err_0.transient()
}

/// One complete run of the retry loop with attempt budget `budget`: `tr`
/// lists the inner outcomes in order, one per attempt, and `r` is the
/// loop's result — always the last attempt's outcome. Every attempt
/// before the last fails transiently, and the run stops short of the
/// budget only at an outcome that is no transient failure.
pub open spec fn retry_run<B>(tr: Seq<FetcherResult<B>>, budget: nat, r: FetcherResult<B>) -> bool {
    &&& 1 <= tr.len() <= budget
    &&& forall|i: int| 0 <= i < tr.len() - 1 ==> transient_failure(#[trigger] tr[i])
    &&& r == tr.last()
    &&& tr.len() < budget ==> !transient_failure(tr.last())
}

/// The leaf fetcher: one real HTTP GET per call, no retries, no redirect
/// handling. It fixes the request — the URL and the headers `headers`
/// lists — while the network exchange itself belongs to the transport
/// that drives it, outside this crate.
pub struct BasicFetcher;

impl BasicFetcher {
    pub fn new() -> BasicFetcher {
        BasicFetcher
    }

    /// The fixed header set of every request: accept anything, keep the
    /// connection alive, and identify as a mainstream browser.
    pub fn headers(&self) -> (h: Vec<(&'static str, &'static str)>)
        ensures
            h@.len() == 3,
            h@[0].0@ == "Accept"@ && h@[0].1@ == "*/*"@,
            h@[1].0@ == "Connection"@ && h@[1].1@ == "keep-alive"@,
            h@[2].0@ == "User-Agent"@,
            h@[2].1@
                == "Mozilla/5.0 (X11; CrOS x86_64 6158.70.0) AppleWebKit/537.36 (KHTML, like Gecko) Chrome/38.0.2125.110 Safari/537.36"@,
    {
        let mut h: Vec<(&'static str, &'static str)> = Vec::new();
        h.push(("Accept", "*/*"));
        h.push(("Connection", "keep-alive"));
        h.push((
            "User-Agent",
            "Mozilla/5.0 (X11; CrOS x86_64 6158.70.0) AppleWebKit/537.36 (KHTML, like Gecko) Chrome/38.0.2125.110 Safari/537.36",
        ));
        h
    }
}

/// Wraps a fetcher and makes permanent redirects transparent for it, up
/// to `MAX_HOPS` hops per call.
pub struct FollowingFetcher<'a, F> {
    /// The fetcher whose responses are inspected for redirects.
    pub fetcher: &'a F,
}

impl<'a, F> FollowingFetcher<'a, F> {
    pub fn new(fetcher: &'a F) -> (f: FollowingFetcher<'a, F>)
        ensures
            f.fetcher == fetcher,
    {
        FollowingFetcher { fetcher }
    }
}

impl<'a, B, F: HttpFetcher<B>> HttpFetcher<B> for FollowingFetcher<'a, F> {
    /// The wrapper can return `r` exactly when some sequence of inner
    /// outcomes, each produced on the URL the hop before it pointed to,
    /// forms a redirect run that ends in `r`.
    open spec fn may_return(&self, url: Seq<char>, r: FetcherResult<B>) -> bool {
        exists|tr: Seq<FetcherResult<B>>| {
            &&& #[trigger] follow_run(tr, MAX_HOPS as nat, r)
            &&& forall|i: int| 0 <= i < tr.len() ==> self.fetcher.may_return(
                hop_url(url, tr, i),
                #[trigger] tr[i],
            )
        }
    }

    #[verifier::loop_isolation(false)]
    fn get(&self, url: Url) -> (r: FetcherResult<B>)
        ensures
            r is Ok ==> r->Ok_0.status != PERMANENT_REDIRECT,
    {
        let ghost url0: Seq<char> = url@;
        let mut cur: Url = url;
        let ghost mut tr: Seq<FetcherResult<B>> = Seq::empty();
        let mut hops: usize = 0;
        while hops < MAX_HOPS
            invariant
                hops <= MAX_HOPS,
                tr.len() == hops,
                forall|i: int| 0 <= i < tr.len() ==> follows(#[trigger] tr[i]),
                forall|i: int| 0 <= i < tr.len() ==> self.fetcher.may_return(
                    hop_url(url0, tr, i),
                    #[trigger] tr[i],
                ),
                cur@ == hop_url(url0, tr, tr.len() as int),
            decreases MAX_HOPS - hops,
        {
            let ghost cur_view: Seq<char> = cur@;
            let res = self.fetcher.get(cur);
            let ghost last: FetcherResult<B> = res;
            match res {
                Err(e) => {
                    let out: FetcherResult<B> = Err(e);
                    proof {
                        lemma_follow_settles(self, url0, tr, last, cur_view, out);
                    }
                    return out;
                },
                Ok(resp) => {
                    if resp.status != PERMANENT_REDIRECT {
                        let out: FetcherResult<B> = Ok(resp);
                        proof {
                            lemma_follow_settles(self, url0, tr, last, cur_view, out);
                        }
                        return out;
                    }
                    match &resp.location {
                        None => {
                            proof {
                                lemma_follow_settles(
                                    self,
                                    url0,
                                    tr,
                                    last,
                                    cur_view,
                                    Err(FetchError::UriFormat),
                                );
                            }
                            return Err(FetchError::UriFormat);
                        },
                        Some(loc) => {
                            match Url::parse(loc.as_str()) {
                                None => {
                                    proof {
                                        lemma_follow_settles(
                                            self,
                                            url0,
                                            tr,
                                            last,
                                            cur_view,
                                            Err(FetchError::UriFormat),
                                        );
                                    }
                                    return Err(FetchError::UriFormat);
                                },
                                Some(next) => {
                                    proof {
                                        tr = tr.push(last);
                                    }
                                    cur = next;
                                },
                            }
                        },
                    }
                },
            }
            hops = hops + 1;
        }
        proof {
            lemma_follow_exhausted(self, url0, tr);
        }
        Err(FetchError::UriFormat)
    }
}

/// The loop stopped at `last` after the followed hops in `tr`: together
/// they witness a redirect run ending in `r == settle(last)`.
proof fn lemma_follow_settles<'a, B, F: HttpFetcher<B>>(
    f: &FollowingFetcher<'a, F>,
    url0: Seq<char>,
    tr: Seq<FetcherResult<B>>,
    last: FetcherResult<B>,
    cur_view: Seq<char>,
    r: FetcherResult<B>,
)
    requires
        tr.len() < MAX_HOPS,
        forall|i: int| 0 <= i < tr.len() ==> follows(#[trigger] tr[i]),
        forall|i: int| 0 <= i < tr.len() ==> f.fetcher.may_return(
            hop_url(url0, tr, i),
            #[trigger] tr[i],
        ),
        cur_view == hop_url(url0, tr, tr.len() as int),
        f.fetcher.may_return(cur_view, last),
        !follows(last),
        r == settle(last),
    ensures
        f.may_return(url0, r),
{
    let trf = tr.push(last);
    assert(trf.last() == last);
    assert(follow_run(trf, MAX_HOPS as nat, r));
    assert forall|i: int| 0 <= i < trf.len() implies f.fetcher.may_return(
        hop_url(url0, trf, i),
        #[trigger] trf[i],
    ) by {
        if i < tr.len() {
            assert(trf[i] == tr[i]);
            assert(hop_url(url0, trf, i) == hop_url(url0, tr, i));
        } else {
            assert(trf[i] == last);
            assert(hop_url(url0, trf, i) == hop_url(url0, tr, i));
        }
    }
}

/// Every one of `MAX_HOPS` inner calls came back as a followed redirect:
/// the hop budget is spent and the run ends in a URI-format failure.
proof fn lemma_follow_exhausted<'a, B, F: HttpFetcher<B>>(
    f: &FollowingFetcher<'a, F>,
    url0: Seq<char>,
    tr: Seq<FetcherResult<B>>,
)
    requires
        tr.len() == MAX_HOPS,
        forall|i: int| 0 <= i < tr.len() ==> follows(#[trigger] tr[i]),
        forall|i: int| 0 <= i < tr.len() ==> f.fetcher.may_return(
            hop_url(url0, tr, i),
            #[trigger] tr[i],
        ),
    ensures
        f.may_return(url0, Err::<Response<B>, FetchError>(FetchError::UriFormat)),
{
    assert(follow_run(tr, MAX_HOPS as nat, Err::<Response<B>, FetchError>(FetchError::UriFormat)));
}

/// Wraps a fetcher and masks transient failures for it: one call is tried
/// up to `retries` times and the last outcome is returned. A response —
/// whatever its status — and a URI-format failure end the attempts at
/// once. A budget of zero behaves like a budget of one; `new` does not
/// accept one.
pub struct RetryingFetcher<'a, F> {
    /// How many attempts one `get` may spend, counting the first.
    pub retries: usize,
    /// The fetcher whose transient failures are retried.
    pub fetcher: &'a F,
}

impl<'a, F> RetryingFetcher<'a, F> {
    /// The attempt budget the loop enforces: at least one.
    pub open spec fn budget(&self) -> nat {
        if self.retries >= 1 {
            self.retries as nat
        } else {
            1
        }
    }

    pub fn new(fetcher: &'a F, retries: usize) -> (f: RetryingFetcher<'a, F>)
        requires
            1 <= retries,
        ensures
            f.fetcher == fetcher,
            f.retries == retries,
    {
        RetryingFetcher { retries, fetcher }
    }
}

impl<'a, B, F: HttpFetcher<B>> HttpFetcher<B> for RetryingFetcher<'a, F> {
    /// The wrapper can return `r` exactly when some sequence of inner
    /// outcomes on the unchanged URL forms a retry run that ends in `r`.
    open spec fn may_return(&self, url: Seq<char>, r: FetcherResult<B>) -> bool {
        exists|tr: Seq<FetcherResult<B>>| {
            &&& #[trigger] retry_run(tr, self.budget(), r)
            &&& forall|i: int| 0 <= i < tr.len() ==> self.fetcher.may_return(url, #[trigger] tr[i])
        }
    }

    #[verifier::loop_isolation(false)]
    fn get(&self, url: Url) -> (r: FetcherResult<B>) {
        let ghost url0: Seq<char> = url@;
        let ghost mut tr: Seq<FetcherResult<B>> = Seq::empty();
        let mut attempt: usize = 0;
        loop
            invariant
                attempt < self.budget(),
                tr.len() == attempt,
                forall|i: int| 0 <= i < tr.len() ==> transient_failure(#[trigger] tr[i]),
                forall|i: int| 0 <= i < tr.len() ==> self.fetcher.may_return(
                    url0,
                    #[trigger] tr[i],
                ),
            decreases self.budget() - attempt,
        {
            let u = url.clone();
            let res = self.fetcher.get(u);
            let ghost last: FetcherResult<B> = res;
            let ghost prev: Seq<FetcherResult<B>> = tr;
            proof {
                tr = tr.push(last);
                assert forall|i: int| 0 <= i < tr.len() implies self.fetcher.may_return(
                    url0,
                    #[trigger] tr[i],
                ) by {
                    if i < prev.len() {
                        assert(tr[i] == prev[i]);
                    } else {
                        assert(tr[i] == last);
                    }
                }
            }
            match res {
                Ok(resp) => {
                    let out: FetcherResult<B> = Ok(resp);
                    proof {
                        assert(retry_run(tr, self.budget(), out));
                    }
                    return out;
                },
                Err(err) => {
                    if !err.is_transient() {
                        let out: FetcherResult<B> = Err(err);
                        proof {
                            assert(retry_run(tr, self.budget(), out));
                        }
                        return out;
                    }
                    attempt = attempt + 1;
                    if attempt >= self.retries {
                        let out: FetcherResult<B> = Err(err);
                        proof {
                            assert(tr.len() == self.budget());
                            assert(retry_run(tr, self.budget(), out));
                        }
                        return out;
                    }
                },
            }
        }
    }
}

} // verus!
