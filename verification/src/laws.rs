use vstd::prelude::*;

use crate::fetcher::{
    follow_run, follows, hop_url, retry_run, settle, transient_failure, FollowingFetcher,
    HttpFetcher, RetryingFetcher, MAX_HOPS, PERMANENT_REDIRECT,
};
use crate::outcome::{FetchError, FetcherResult, Response};
use crate::urls::url_parse_ok;

verus! {

/// A response that is no permanent redirect is returned unchanged, after
/// exactly one inner call.
pub proof fn follow_returns_non_redirect_unchanged<B>(
    tr: Seq<FetcherResult<B>>,
    limit: nat,
    r: FetcherResult<B>,
)
    requires
        limit >= 1,
        follow_run(tr, limit, r),
        tr.len() >= 1,
        tr[0] is Ok,
        tr[0]->Ok_0.status != PERMANENT_REDIRECT,
    ensures
        tr.len() == 1,
        r == tr[0],
{
    assert(!follows(tr[0]));
    if tr.len() >= 2 {
        assert(follows(tr[0]));
    }
    assert(tr.last() == tr[0]);
}

/// And such a run exists: one call, the response passed through.
pub proof fn follow_accepts_non_redirect<B>(o: FetcherResult<B>, limit: nat)
    requires
        limit >= 1,
        o is Ok,
        o->Ok_0.status != PERMANENT_REDIRECT,
    ensures
        follow_run(seq![o], limit, o),
{
    assert(seq![o].last() == o);
    assert(!follows(o));
    assert(settle(o) == o);
}

/// One inner call per hop: when the first `k` outcomes are followed
/// redirects and outcome `k` is not, the loop consumes exactly the first
/// `k + 1` outcomes and settles on outcome `k`.
pub proof fn follow_consumes_one_call_per_hop<B>(
    outs: Seq<FetcherResult<B>>,
    limit: nat,
    k: int,
)
    requires
        0 <= k < outs.len(),
        k < limit,
        forall|i: int| 0 <= i < k ==> follows(#[trigger] outs[i]),
        !follows(outs[k]),
    ensures
        follow_run(outs.take(k + 1), limit, settle(outs[k])),
{
    let tr = outs.take(k + 1);
    assert(tr.len() == k + 1);
    assert(tr.last() == outs[k]);
    assert forall|i: int| 0 <= i < tr.len() - 1 implies follows(#[trigger] tr[i]) by {
        assert(tr[i] == outs[i]);
    }
}

/// Followed redirects all the way spend the whole hop budget: the run
/// makes exactly `limit` inner calls, and one more would be needed, so it
/// fails with a URI-format failure.
pub proof fn follow_hop_limit_exhausts<B>(outs: Seq<FetcherResult<B>>, limit: nat)
    requires
        limit >= 1,
        outs.len() == limit,
        forall|i: int| 0 <= i < outs.len() ==> follows(#[trigger] outs[i]),
    ensures
        follow_run(outs, limit, Err::<Response<B>, FetchError>(FetchError::UriFormat)),
{
    assert(follows(outs.last()));
}

/// Drawn from one supply of inner outcomes, the redirect loop has exactly
/// one possible run: the same calls consumed and the same result.
pub proof fn follow_run_unique<B>(
    outs: Seq<FetcherResult<B>>,
    limit: nat,
    n1: int,
    n2: int,
    r1: FetcherResult<B>,
    r2: FetcherResult<B>,
)
    requires
        0 <= n1 <= outs.len(),
        0 <= n2 <= outs.len(),
        follow_run(outs.take(n1), limit, r1),
        follow_run(outs.take(n2), limit, r2),
    ensures
        n1 == n2,
        r1 == r2,
{
    follow_no_shorter_run(outs, limit, n1, n2, r1, r2);
    follow_no_shorter_run(outs, limit, n2, n1, r2, r1);
    assert(outs.take(n1) =~= outs.take(n2));
}

proof fn follow_no_shorter_run<B>(
    outs: Seq<FetcherResult<B>>,
    limit: nat,
    n1: int,
    n2: int,
    r1: FetcherResult<B>,
    r2: FetcherResult<B>,
)
    requires
        0 <= n1 <= outs.len(),
        0 <= n2 <= outs.len(),
        follow_run(outs.take(n1), limit, r1),
        follow_run(outs.take(n2), limit, r2),
    ensures
        n1 >= n2,
{
    let t1 = outs.take(n1);
    let t2 = outs.take(n2);
    if n1 < n2 {
        if t1.len() == limit && t1.len() > 0 && follows(t1.last()) {
            assert(t2.len() > limit);
        } else {
            assert(!follows(t1.last()));
            assert(t1.last() == outs[n1 - 1]);
            assert(t2[n1 - 1] == outs[n1 - 1]);
            assert(follows(t2[n1 - 1]));
        }
    }
}

/// A permanent redirect without a usable location stops the loop at once:
/// it is the last inner call made, and the run fails with a URI-format
/// failure.
pub proof fn follow_stops_on_unusable_location<B>(
    tr: Seq<FetcherResult<B>>,
    limit: nat,
    r: FetcherResult<B>,
    k: int,
)
    requires
        follow_run(tr, limit, r),
        0 <= k < tr.len(),
        tr[k] is Ok,
        tr[k]->Ok_0.status == PERMANENT_REDIRECT,
        tr[k]->Ok_0.location is Some ==> !url_parse_ok(tr[k]->Ok_0.location->0@),
    ensures
        k == tr.len() - 1,
        r == Err::<Response<B>, FetchError>(FetchError::UriFormat),
{
    assert(!follows(tr[k]));
    assert(k == tr.len() - 1);
    assert(r == settle(tr.last()));
}

/// With budget `n`, `k` transient failures and then a settled outcome
/// (`k < n`) make exactly `k + 1` attempts, and that outcome is returned.
pub proof fn retry_stops_at_first_settled<B>(outs: Seq<FetcherResult<B>>, n: nat, k: int)
    requires
        0 <= k < outs.len(),
        k < n,
        forall|i: int| 0 <= i < k ==> transient_failure(#[trigger] outs[i]),
        !transient_failure(outs[k]),
    ensures
        retry_run(outs.take(k + 1), n, outs[k]),
{
    let tr = outs.take(k + 1);
    assert(tr.last() == outs[k]);
    assert forall|i: int| 0 <= i < tr.len() - 1 implies transient_failure(#[trigger] tr[i]) by {
        assert(tr[i] == outs[i]);
    }
}

/// When all `n` attempts fail transiently, the wrapper makes exactly `n`
/// attempts — never `n + 1` — and propagates the last failure.
pub proof fn retry_exhausts_budget<B>(outs: Seq<FetcherResult<B>>, n: nat)
    requires
        n >= 1,
        outs.len() == n,
        forall|i: int| 0 <= i < outs.len() ==> transient_failure(#[trigger] outs[i]),
    ensures
        retry_run(outs, n, outs.last()),
{
}

/// Drawn from one supply of inner outcomes, the retry loop has exactly
/// one possible run: the same attempts spent and the same result.
pub proof fn retry_run_unique<B>(
    outs: Seq<FetcherResult<B>>,
    n: nat,
    n1: int,
    n2: int,
    r1: FetcherResult<B>,
    r2: FetcherResult<B>,
)
    requires
        0 <= n1 <= outs.len(),
        0 <= n2 <= outs.len(),
        retry_run(outs.take(n1), n, r1),
        retry_run(outs.take(n2), n, r2),
    ensures
        n1 == n2,
        r1 == r2,
{
    retry_no_shorter_run(outs, n, n1, n2, r1, r2);
    retry_no_shorter_run(outs, n, n2, n1, r2, r1);
    assert(outs.take(n1) =~= outs.take(n2));
}

proof fn retry_no_shorter_run<B>(
    outs: Seq<FetcherResult<B>>,
    n: nat,
    n1: int,
    n2: int,
    r1: FetcherResult<B>,
    r2: FetcherResult<B>,
)
    requires
        0 <= n1 <= outs.len(),
        0 <= n2 <= outs.len(),
        retry_run(outs.take(n1), n, r1),
        retry_run(outs.take(n2), n, r2),
    ensures
        n1 >= n2,
{
    let t1 = outs.take(n1);
    let t2 = outs.take(n2);
    if n1 < n2 {
        assert(t1.len() < n);
        assert(!transient_failure(t1.last()));
        assert(t1.last() == outs[n1 - 1]);
        assert(t2[n1 - 1] == outs[n1 - 1]);
        assert(transient_failure(t2[n1 - 1]));
    }
}

/// An attempt that comes back with anything but a transient failure — in
/// particular with a response, whatever its status code — is never
/// retried: it is the last attempt, and its outcome is the result.
pub proof fn retry_never_retries_settled<B>(
    tr: Seq<FetcherResult<B>>,
    n: nat,
    r: FetcherResult<B>,
    i: int,
)
    requires
        retry_run(tr, n, r),
        0 <= i < tr.len(),
        !transient_failure(tr[i]),
    ensures
        i == tr.len() - 1,
        r == tr[i],
{
}

/// The response case of the law above, on its own: a response is never
/// retried, not even one whose status code reports an error.
pub proof fn retry_never_retries_response<B>(
    tr: Seq<FetcherResult<B>>,
    n: nat,
    r: FetcherResult<B>,
    i: int,
)
    requires
        retry_run(tr, n, r),
        0 <= i < tr.len(),
        tr[i] is Ok,
    ensures
        i == tr.len() - 1,
        r == tr[i],
{
    retry_never_retries_settled(tr, n, r, i);
}

/// Retry inside redirect — the reference composition, where every hop
/// gets a fresh attempt budget. When each hop's outcome settles a retry
/// run over base outcomes produced on that hop's URL, and the hop
/// outcomes form a redirect run ending in `r`, then the stacked fetcher
/// can return `r`: a transient failure costs attempts on its own hop
/// only, and a hop that succeeds after retrying continues the chain from
/// the new location.
pub proof fn retry_inside_redirect_composes<'a, 'b, B, F: HttpFetcher<B>>(
    ff: &FollowingFetcher<'a, RetryingFetcher<'b, F>>,
    url: Seq<char>,
    hops: Seq<FetcherResult<B>>,
    attempts: Seq<Seq<FetcherResult<B>>>,
    r: FetcherResult<B>,
)
    requires
        follow_run(hops, MAX_HOPS as nat, r),
        attempts.len() == hops.len(),
        forall|i: int| 0 <= i < hops.len() ==> retry_run(
            #[trigger] attempts[i],
            ff.fetcher.budget(),
            hops[i],
        ),
        forall|i: int, j: int|
            0 <= i < hops.len() && 0 <= j < attempts[i].len() ==> ff.fetcher.fetcher.may_return(
                hop_url(url, hops, i),
                #[trigger] attempts[i][j],
            ),
    ensures
        ff.may_return(url, r),
{
    assert forall|i: int| 0 <= i < hops.len() implies ff.fetcher.may_return(
        hop_url(url, hops, i),
        #[trigger] hops[i],
    ) by {
        assert(retry_run(attempts[i], ff.fetcher.budget(), hops[i]));
        assert forall|j: int| 0 <= j < attempts[i].len() implies ff.fetcher.fetcher.may_return(
            hop_url(url, hops, i),
            #[trigger] attempts[i][j],
        ) by {}
        assert(ff.fetcher.may_return(hop_url(url, hops, i), hops[i]));
    }
    assert(ff.may_return(url, r));
}

} // verus!
