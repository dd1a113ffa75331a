//! What a remote fetch does over whole sequences of outcomes.

use vstd::prelude::*;

use crate::fetch::{
    failure, run, start_view, step_view, EventView, FetchConfig, FetchErrorKind, FetchErrorView,
    FetchView, StageView, SERVICE_UNAVAILABLE, is_redirect_status,
};
use crate::redirect::{redirect_target, RedirectError, TargetView};

verus! {

/// `n` responses with status 503.
pub open spec fn unavailable(n: nat) -> Seq<EventView> {
    Seq::new(n, |i: int| EventView::Responded { status: SERVICE_UNAVAILABLE, location: None })
}

/// Redirect responses, each with its status and its Location.
pub open spec fn redirect_events(hops: Seq<(u16, TargetView)>) -> Seq<EventView> {
    hops.map_values(|h: (u16, TargetView)| EventView::Responded { status: h.0, location: Some(h.1) })
}

/// Every hop is a redirect status whose Location can be followed from where
/// the previous hops led.
pub open spec fn chain_follows(url: TargetView, hops: Seq<(u16, TargetView)>) -> bool
    decreases hops.len(),
{
    hops.len() == 0 || {
        &&& is_redirect_status(hops[0].0)
        &&& redirect_target(Some(hops[0].1), url) is Ok
        &&& chain_follows(redirect_target(Some(hops[0].1), url)->Ok_0, hops.drop_first())
    }
}

/// Where the hops lead from `url`.
pub open spec fn chain_end(url: TargetView, hops: Seq<(u16, TargetView)>) -> TargetView
    decreases hops.len(),
{
    if hops.len() == 0 {
        url
    } else {
        chain_end(redirect_target(Some(hops[0].1), url)->Ok_0, hops.drop_first())
    }
}

/// Outcomes are taken one after another.
pub proof fn lemma_run_append(s: FetchView, a: Seq<EventView>, b: Seq<EventView>)
    ensures
        run(s, a + b) == run(run(s, a), b),
    decreases a.len(),
{
    if a.len() == 0 {
        assert(a + b =~= b);
    } else {
        assert((a + b).drop_first() =~= a.drop_first() + b);
        lemma_run_append(step_view(s, a[0]), a.drop_first(), b);
    }
}

/// One outcome.
pub proof fn lemma_run_one(s: FetchView, e: EventView)
    ensures
        run(s, seq![e]) == step_view(s, e),
{
    assert(seq![e].drop_first() =~= Seq::<EventView>::empty());
    assert(run(step_view(s, e), Seq::<EventView>::empty()) == step_view(s, e));
}

/// A call that failed or finished stays as it is, whatever comes after: a
/// failure is never retried.
pub proof fn lemma_settled_stays(s: FetchView, events: Seq<EventView>)
    requires
        s.stage is Failed || s.stage is Done,
    ensures
        run(s, events) == s,
    decreases events.len(),
{
    if events.len() > 0 {
        lemma_settled_stays(s, events.drop_first());
    }
}

proof fn lemma_unavailable_run(s: FetchView, n: nat)
    requires
        s.stage is Send,
        s.retry_remain > 0,
        n <= s.retry_remain,
    ensures
        n < s.retry_remain ==> run(s, unavailable(n)) == (FetchView {
            retry_remain: (s.retry_remain - n) as nat,
            ..s
        }),
        n == s.retry_remain ==> run(s, unavailable(n)) == (FetchView {
            retry_remain: 0,
            stage: failure(s, FetchErrorKind::SubrequestHttpError, s.reason),
            ..s
        }),
    decreases n,
{
    if n > 0 {
        let t = step_view(s, unavailable(n)[0]);
        assert(unavailable(n).drop_first() =~= unavailable((n - 1) as nat));
        if s.retry_remain == 1 {
            lemma_settled_stays(t, unavailable((n - 1) as nat));
        } else {
            lemma_unavailable_run(t, (n - 1) as nat);
        }
    }
}

/// Against a subgraph that only answers 503, a call sends its request
/// `max_retry_num` times, to the same target, and then fails as unreachable
/// with an empty reason.
pub proof fn lemma_unavailable_exhausts_retries(service: Seq<char>, url: TargetView, config: FetchConfig)
    ensures
        forall|k: nat|
            k < config.max_retry_num ==> #[trigger] run(start_view(service, url, config), unavailable(k)).stage
                is Send && run(start_view(service, url, config), unavailable(k)).url == url,
        run(start_view(service, url, config), unavailable(config.max_retry_num as nat)).stage
            == StageView::Failed(
            FetchErrorView {
                kind: FetchErrorKind::SubrequestHttpError,
                service,
                reason: Seq::empty(),
            },
        ),
{
    let s = start_view(service, url, config);
    assert forall|k: nat| k < config.max_retry_num implies #[trigger] run(s, unavailable(k)).stage
        is Send && run(s, unavailable(k)).url == url by {
        lemma_unavailable_run(s, k);
    }
    if config.max_retry_num > 0 {
        lemma_unavailable_run(s, config.max_retry_num as nat);
    } else {
        assert(unavailable(0) =~= Seq::empty());
    }
}

/// A response whose status is neither a redirect nor 503 ends the sending at
/// once: the body is read next, and no attempt is spent.
pub proof fn lemma_final_status_short_circuits(
    service: Seq<char>,
    url: TargetView,
    config: FetchConfig,
    status: u16,
    location: Option<TargetView>,
)
    requires
        config.max_retry_num > 0,
        !is_redirect_status(status),
        status != SERVICE_UNAVAILABLE,
    ensures
        ({
            let t = step_view(start_view(service, url, config), EventView::Responded { status, location });
            &&& t.stage is ReadBody
            &&& t.retry_remain == config.max_retry_num
            &&& t.url == url
        }),
{
}

proof fn lemma_follow(s: FetchView, hops: Seq<(u16, TargetView)>)
    requires
        s.stage is Send,
        hops.len() <= s.redirect_remain,
        chain_follows(s.url, hops),
    ensures
        run(s, redirect_events(hops)) == (FetchView {
            url: chain_end(s.url, hops),
            redirect_remain: (s.redirect_remain - hops.len()) as nat,
            ..s
        }),
    decreases hops.len(),
{
    if hops.len() == 0 {
        assert(redirect_events(hops) =~= Seq::empty());
    } else {
        assert(redirect_events(hops).drop_first() =~= redirect_events(hops.drop_first()));
        let t = step_view(s, redirect_events(hops)[0]);
        lemma_follow(t, hops.drop_first());
    }
}

/// A chain of at most `max_redirect_num` redirects that ends in a 200 whose
/// body parses is delivered, and the body was read at the chain's last
/// target.
pub proof fn lemma_redirect_chain_within_budget(
    service: Seq<char>,
    url: TargetView,
    config: FetchConfig,
    hops: Seq<(u16, TargetView)>,
)
    requires
        config.max_retry_num > 0,
        hops.len() <= config.max_redirect_num,
        chain_follows(url, hops),
    ensures
        ({
            let s = start_view(service, url, config);
            let answered = run(s, redirect_events(hops).push(EventView::Responded { status: 200, location: None }));
            &&& answered.stage is ReadBody
            &&& answered.url == chain_end(url, hops)
            &&& step_view(answered, EventView::BodyParsed).stage is Done
        }),
{
    let s = start_view(service, url, config);
    let ok = EventView::Responded { status: 200, location: None };
    lemma_follow(s, hops);
    lemma_run_append(s, redirect_events(hops), seq![ok]);
    assert(redirect_events(hops).push(ok) =~= redirect_events(hops) + seq![ok]);
    lemma_run_one(run(s, redirect_events(hops)), ok);
}

proof fn lemma_chain_prefix(url: TargetView, hops: Seq<(u16, TargetView)>, n: int)
    requires
        0 <= n <= hops.len(),
        chain_follows(url, hops),
    ensures
        chain_follows(url, hops.take(n)),
    decreases hops.len(),
{
    if n > 0 {
        assert(hops.take(n).drop_first() =~= hops.drop_first().take(n - 1));
        lemma_chain_prefix(redirect_target(Some(hops[0].1), url)->Ok_0, hops.drop_first(), n - 1);
    }
}

/// A chain of redirects longer than `max_redirect_num` fails as unreachable,
/// with the reason that the redirect budget ran out, once the budget's worth
/// of them was followed.
pub proof fn lemma_redirect_chain_over_budget(
    service: Seq<char>,
    url: TargetView,
    config: FetchConfig,
    hops: Seq<(u16, TargetView)>,
)
    requires
        config.max_retry_num > 0,
        hops.len() > config.max_redirect_num,
        chain_follows(url, hops.take(config.max_redirect_num as int)),
        is_redirect_status(hops[config.max_redirect_num as int].0),
    ensures
        run(start_view(service, url, config), redirect_events(hops)).stage == StageView::Failed(
            FetchErrorView {
                kind: FetchErrorKind::SubrequestHttpError,
                service,
                reason: RedirectError::Exhausted.text(),
            },
        ),
{
    let s = start_view(service, url, config);
    let m = config.max_redirect_num as int;
    let head = hops.take(m);
    let tail = hops.skip(m);
    assert(redirect_events(hops) =~= redirect_events(head) + redirect_events(tail));
    lemma_follow(s, head);
    lemma_run_append(s, redirect_events(head), redirect_events(tail));
    let mid = run(s, redirect_events(head));
    let failed = step_view(mid, redirect_events(tail)[0]);
    lemma_settled_stays(failed, redirect_events(tail).drop_first());
}

/// An absolute Location on another host than the current target's is never
/// followed, whatever redirect budget is left: the call fails as
/// unreachable, and stays failed.
pub proof fn lemma_cross_host_rejected(
    s: FetchView,
    status: u16,
    location: TargetView,
    later: Seq<EventView>,
)
    requires
        s.stage is Send,
        is_redirect_status(status),
        location.scheme is Some,
        s.url.host is Some,
        location.host != s.url.host,
    ensures
        ({
            let t = step_view(s, EventView::Responded { status, location: Some(location) });
            &&& t.stage matches StageView::Failed(e) && e.kind == FetchErrorKind::SubrequestHttpError
            &&& t.url == s.url
            &&& run(t, later) == t
        }),
{
    let t = step_view(s, EventView::Responded { status, location: Some(location) });
    lemma_settled_stays(t, later);
}

/// A 200 response whose body does not parse fails the call as malformed, not
/// as unreachable, and nothing after it is retried.
pub proof fn lemma_malformed_body_not_retried(
    s: FetchView,
    location: Option<TargetView>,
    reason: Seq<char>,
    later: Seq<EventView>,
)
    requires
        s.stage is Send,
    ensures
        run(
            s,
            seq![
                EventView::Responded { status: 200, location },
                EventView::BodyMalformed(reason),
            ] + later,
        ).stage == StageView::Failed(
            FetchErrorView {
                kind: FetchErrorKind::SubrequestMalformedResponse,
                service: s.service,
                reason,
            },
        ),
{
    let a = EventView::Responded { status: 200, location };
    let b = EventView::BodyMalformed(reason);
    let first = seq![a, b];
    assert(first =~= seq![a] + seq![b]);
    lemma_run_append(s, first, later);
    lemma_run_append(s, seq![a], seq![b]);
    lemma_run_one(s, a);
    lemma_run_one(step_view(s, a), b);
    lemma_settled_stays(run(s, first), later);
}

} // verus!
