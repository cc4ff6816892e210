//! A whole traversal: what driving a paginator against given responses
//! comes to.
//!
//! Driving is a loop: ask the paginator for the next object, and where it
//! asks for a page, perform the request and hand back the response. With
//! an HTTP client in the middle that loop belongs to the caller. Here it
//! runs against responses that are at hand, and what it comes to is
//! stated once and for all: which objects come out, which requests are
//! made, and where an error ends it.

use crate::error::{FetchError, FetchErrorView};
use crate::list::{data_view, List, ListView};
use crate::object::Object;
use crate::paginator::{
    anchor, holds, lemma_turned_one_way, lemma_with_param_holds, turned, ListPaginator,
    PaginatorView, Step,
};
use crate::params::{has_param, lemma_with_param_keeps_others};
use crate::request::{RequestBuilder, RequestView, StripeMethod};
use vstd::prelude::*;

verus! {

/// What driving a traversal gave.
#[derive(Debug)]
pub struct Run<T> {
    /// The objects that were handed out, in order.
    pub items: Vec<T>,
    /// The requests that were made, in order.
    pub requests: Vec<RequestBuilder>,
    /// The error that ended the traversal, if one did.
    pub error: Option<FetchError>,
}

/// The mathematical content of a [`Run`].
pub ghost struct RunView<V> {
    pub items: Seq<V>,
    pub requests: Seq<RequestView>,
    pub error: Option<FetchErrorView>,
}

/// The contents of a list of requests.
pub open spec fn requests_view(requests: Seq<RequestBuilder>) -> Seq<RequestView> {
    requests.map_values(|r: RequestBuilder| r@)
}

/// The content of an optional error.
pub open spec fn error_view(error: Option<FetchError>) -> Option<FetchErrorView> {
    match error {
        Some(e) => Some(e@),
        None => None,
    }
}

impl<T: View> View for Run<T> {
    type V = RunView<T::V>;

    open spec fn view(&self) -> RunView<T::V> {
        RunView {
            items: data_view(self.items@),
            requests: requests_view(self.requests@),
            error: error_view(self.error),
        }
    }
}

/// What a fetch gave: a page, or an error.
pub type Outcome<V> = Result<ListView<V>, FetchErrorView>;

/// The content of what a fetch gave.
pub open spec fn outcome_view<T: View>(outcome: Result<List<T>, FetchError>) -> Outcome<T::V> {
    match outcome {
        Ok(page) => Ok(page@),
        Err(e) => Err(e@),
    }
}

/// The contents of what a list of fetches gave.
pub open spec fn outcomes_view<T: View>(outcomes: Seq<Result<List<T>, FetchError>>) -> Seq<
    Outcome<T::V>,
> {
    outcomes.map_values(|o: Result<List<T>, FetchError>| outcome_view(o))
}

/// Pages as the outcomes of fetches that all went well.
pub open spec fn fetched<V>(pages: Seq<ListView<V>>) -> Seq<Outcome<V>> {
    pages.map_values(|page: ListView<V>| Ok::<ListView<V>, FetchErrorView>(page))
}

/// What driving a traversal comes to when `wanted` objects are asked
/// for, one after the other, and the fetches give `outcomes`, in order.
///
/// Objects that the traversal holds are handed out without a request.
/// When more are wanted, a page follows and an outcome is left, the
/// request is made: a page is taken in and the traversal goes on, an
/// error ends it. The traversal also ends where no page follows, and
/// where the outcomes run out.
pub open spec fn driven<T: Object>(
    p: PaginatorView<T::V>,
    outcomes: Seq<Outcome<T::V>>,
    wanted: nat,
) -> RunView<T::V>
    decreases outcomes.len(),
{
    if wanted <= p.buffer.len() {
        RunView { items: p.buffer.take(wanted as int), requests: Seq::empty(), error: None }
    } else if p.has_more && outcomes.len() > 0 {
        match outcomes.first() {
            Ok(page) => {
                let rest = driven::<T>(
                    turned::<T>(p.drained(), page),
                    outcomes.drop_first(),
                    (wanted - p.buffer.len()) as nat,
                );
                RunView {
                    items: p.buffer + rest.items,
                    requests: seq![p.request()] + rest.requests,
                    error: rest.error,
                }
            },
            Err(e) => RunView { items: p.buffer, requests: seq![p.request()], error: Some(e) },
        }
    } else {
        RunView { items: p.buffer, requests: Seq::empty(), error: None }
    }
}

/// The objects of all the pages, in order.
pub open spec fn all_data<V>(pages: Seq<ListView<V>>) -> Seq<V>
    decreases pages.len(),
{
    if pages.len() == 0 {
        Seq::empty()
    } else {
        pages.first().data + all_data(pages.drop_first())
    }
}

/// Pages that each hold an object and each say that more follow.
pub open spec fn unfinished<V>(pages: Seq<ListView<V>>) -> bool {
    forall|i: int|
        0 <= i < pages.len() ==> (#[trigger] pages[i]).data.len() > 0 && pages[i].has_more
}

/// Pages as a server sends them for one list: each holds an object,
/// each but the last says that more follow, and the last says that none
/// do.
pub open spec fn complete<V>(pages: Seq<ListView<V>>) -> bool {
    &&& pages.len() > 0
    &&& unfinished(pages.drop_last())
    &&& pages.last().data.len() > 0
    &&& !pages.last().has_more
}

impl<T: Object> ListPaginator<T> {
    /// Drives the traversal until `wanted` objects are out or it ends,
    /// against outcomes that are at hand in place of fetches: each
    /// request is answered by the next of the outcomes.
    pub fn drive(self, outcomes: Vec<Result<List<T>, FetchError>>, wanted: usize) -> (r: Run<T>)
        ensures
            r@ == driven::<T>(self@, outcomes_view(outcomes@), wanted as nat),
    {
        let ghost total = driven::<T>(self@, outcomes_view(outcomes@), wanted as nat);
        let mut outcomes = outcomes;
        let mut items: Vec<T> = Vec::new();
        let mut requests: Vec<RequestBuilder> = Vec::new();
        let mut error: Option<FetchError> = None;
        let mut traversal = self;
        proof {
            let rest = driven::<T>(traversal@, outcomes_view(outcomes@), wanted as nat);
            assert(data_view(items@) + rest.items =~= total.items);
            assert(requests_view(requests@) + rest.requests =~= total.requests);
        }
        loop
            invariant_except_break
                items.len() <= wanted,
                error is None,
                ({
                    let rest = driven::<T>(
                        traversal@,
                        outcomes_view(outcomes@),
                        (wanted - items.len()) as nat,
                    );
                    &&& total.items == data_view(items@) + rest.items
                    &&& total.requests == requests_view(requests@) + rest.requests
                    &&& total.error == rest.error
                }),
            ensures
                total.items == data_view(items@),
                total.requests == requests_view(requests@),
                total.error == error_view(error),
            decreases outcomes.len(), traversal@.buffer.len(),
        {
            let ghost before = traversal@;
            let ghost left = outcomes_view(outcomes@);
            let ghost short = (wanted - items.len()) as nat;
            let ghost rest = driven::<T>(before, left, short);
            if items.len() == wanted {
                proof {
                    assert(rest.items =~= Seq::<T::V>::empty());
                    assert(data_view(items@) + rest.items =~= data_view(items@));
                    assert(requests_view(requests@) + rest.requests =~= requests_view(requests@));
                }
                break ;
            }
            match traversal.next() {
                Step::Item(item, after) => {
                    proof {
                        lemma_driven_first::<T>(before, left, short);
                        let next = driven::<T>(after@, left, (short - 1) as nat);
                        assert(data_view(items@.push(item)) =~= data_view(items@).push(item@));
                        assert(data_view(items@).push(item@) + next.items =~= data_view(items@)
                            + rest.items);
                    }
                    items.push(item);
                    traversal = after;
                },
                Step::Fetch(pending) => {
                    proof {
                        assert(before.buffer =~= Seq::<T::V>::empty());
                        assert(before.drained() == before);
                    }
                    if outcomes.len() == 0 {
                        proof {
                            assert(data_view(items@) + rest.items =~= data_view(items@));
                            assert(requests_view(requests@) + rest.requests =~= requests_view(
                                requests@,
                            ));
                        }
                        break ;
                    }
                    let request = pending.request();
                    let outcome = outcomes.remove(0);
                    proof {
                        assert(outcomes_view(outcomes@) =~= left.drop_first());
                        assert(left.first() == outcome_view(outcome));
                        assert(requests_view(requests@.push(request)) =~= requests_view(
                            requests@,
                        ).push(request@));
                    }
                    requests.push(request);
                    match pending.receive(outcome) {
                        Ok(next) => {
                            proof {
                                let more = driven::<T>(next@, left.drop_first(), short);
                                assert(requests_view(requests@) + more.requests =~= requests_view(
                                    requests@,
                                ).drop_last() + rest.requests);
                                assert(data_view(items@) + more.items =~= data_view(items@)
                                    + rest.items);
                            }
                            traversal = next;
                        },
                        Err(e) => {
                            proof {
                                assert(data_view(items@) + rest.items =~= data_view(items@));
                                assert(requests_view(requests@).drop_last() + rest.requests
                                    =~= requests_view(requests@));
                            }
                            error = Some(e);
                            break ;
                        },
                    }
                },
                Step::End => {
                    proof {
                        assert(before.buffer =~= Seq::<T::V>::empty());
                        assert(data_view(items@) + rest.items =~= data_view(items@));
                        assert(requests_view(requests@) + rest.requests =~= requests_view(
                            requests@,
                        ));
                    }
                    break ;
                },
            }
        }
        Run { items, requests, error }
    }
}

/// The first object that a traversal holds is the first that it hands
/// out; the rest follows as from the traversal after it.
pub proof fn lemma_driven_first<T: Object>(
    p: PaginatorView<T::V>,
    outcomes: Seq<Outcome<T::V>>,
    wanted: nat,
)
    requires
        p.buffer.len() > 0,
        wanted > 0,
    ensures
        ({
            let after = PaginatorView { buffer: p.buffer.drop_first(), ..p };
            let rest = driven::<T>(after, outcomes, (wanted - 1) as nat);
            &&& driven::<T>(p, outcomes, wanted).items == seq![p.buffer.first()] + rest.items
            &&& driven::<T>(p, outcomes, wanted).requests == rest.requests
            &&& driven::<T>(p, outcomes, wanted).error == rest.error
        }),
{
    let after = PaginatorView { buffer: p.buffer.drop_first(), ..p };
    let rest = driven::<T>(after, outcomes, (wanted - 1) as nat);
    assert(after.drained() == p.drained());
    assert(after.request() == p.request());
    assert(p.buffer =~= seq![p.buffer.first()] + after.buffer);
    if wanted <= p.buffer.len() {
        assert(p.buffer.take(wanted as int) =~= seq![p.buffer.first()] + after.buffer.take(
            wanted - 1,
        ));
    } else {
        assert(driven::<T>(p, outcomes, wanted).items =~= seq![p.buffer.first()] + rest.items);
    }
}

/// No request is made in vain. Objects that the traversal holds are
/// handed out without any request; and where the first page holds as
/// many objects as are wanted, the one request for it is the only one,
/// whatever may follow.
pub proof fn lemma_no_request_in_vain<T: Object>(
    p: PaginatorView<T::V>,
    outcomes: Seq<Outcome<T::V>>,
    wanted: nat,
)
    ensures
        wanted <= p.buffer.len() ==> driven::<T>(p, outcomes, wanted) == (RunView {
            items: p.buffer.take(wanted as int),
            requests: Seq::empty(),
            error: None,
        }),
        p.buffer.len() == 0 && p.has_more && outcomes.len() > 0 && outcomes.first() is Ok && 0
            < wanted <= outcomes.first()->Ok_0.data.len() ==> driven::<T>(p, outcomes, wanted) == (
        RunView {
            items: outcomes.first()->Ok_0.data.take(wanted as int),
            requests: seq![p.request()],
            error: None,
        }),
{
    if p.buffer.len() == 0 && p.has_more && outcomes.len() > 0 && outcomes.first() is Ok && 0
        < wanted <= outcomes.first()->Ok_0.data.len() {
        let page = outcomes.first()->Ok_0;
        let q = turned::<T>(p.drained(), page);
        let rest = driven::<T>(q, outcomes.drop_first(), wanted);
        assert(q.buffer == page.data);
        assert(rest.requests == Seq::<RequestView>::empty());
        let run = driven::<T>(p, outcomes, wanted);
        assert(run.items =~= page.data.take(wanted as int));
        assert(run.requests =~= seq![p.request()]);
    }
}

/// An error ends the traversal where it happens: the objects of the
/// pages before it are handed out, then the error, and no request is
/// made after the one that failed.
pub proof fn lemma_failure_surfaces<T: Object>(
    p: PaginatorView<T::V>,
    pages: Seq<ListView<T::V>>,
    e: FetchErrorView,
    later: Seq<Outcome<T::V>>,
    wanted: nat,
)
    requires
        p.has_more,
        unfinished(pages),
        wanted > p.buffer.len() + all_data(pages).len(),
    ensures
        ({
            let run = driven::<T>(p, fetched(pages) + seq![Err(e)] + later, wanted);
            &&& run.items == p.buffer + all_data(pages)
            &&& run.requests.len() == pages.len() + 1
            &&& run.error == Some(e)
        }),
    decreases pages.len(),
{
    let outcomes = fetched(pages) + seq![Err(e)] + later;
    if pages.len() == 0 {
        assert(outcomes.first() == Err::<ListView<T::V>, FetchErrorView>(e));
        assert(p.buffer + all_data(pages) =~= p.buffer);
    } else {
        let q = turned::<T>(p.drained(), pages.first());
        let rest = pages.drop_first();
        assert(pages.first() == pages[0]);
        assert(outcomes.first() == Ok::<ListView<T::V>, FetchErrorView>(pages.first()));
        assert(outcomes.drop_first() =~= fetched(rest) + seq![Err(e)] + later);
        assert forall|i: int| 0 <= i < rest.len() implies (#[trigger] rest[i]).data.len() > 0
            && rest[i].has_more by {
            assert(rest[i] == pages[i + 1]);
        }
        lemma_failure_surfaces::<T>(q, rest, e, later, (wanted - p.buffer.len()) as nat);
        assert(p.buffer + (q.buffer + all_data(rest)) =~= p.buffer + all_data(pages));
    }
}

/// A traversal is exhaustive: driven over the pages of a list for at
/// least as many objects as there are, it hands out the objects of all
/// the pages, in order, makes one request for each page, and ends
/// without an error.
pub proof fn lemma_traversal_exhaustive<T: Object>(
    p: PaginatorView<T::V>,
    pages: Seq<ListView<T::V>>,
    wanted: nat,
)
    requires
        p.has_more,
        complete(pages),
        wanted >= p.buffer.len() + all_data(pages).len(),
    ensures
        ({
            let run = driven::<T>(p, fetched(pages), wanted);
            &&& run.items == p.buffer + all_data(pages)
            &&& run.requests.len() == pages.len()
            &&& run.error is None
        }),
    decreases pages.len(),
{
    let outcomes = fetched(pages);
    let q = turned::<T>(p.drained(), pages.first());
    let rest = pages.drop_first();
    let short = (wanted - p.buffer.len()) as nat;
    assert(pages.first() == pages[0]);
    assert(outcomes.first() == Ok::<ListView<T::V>, FetchErrorView>(pages.first()));
    assert(outcomes.drop_first() =~= fetched(rest));
    if rest.len() == 0 {
        assert(pages.last() == pages[0]);
        assert(all_data(rest) =~= Seq::<T::V>::empty());
        assert(q.buffer.take(q.buffer.len() as int) =~= q.buffer);
        assert(driven::<T>(q, fetched(rest), short).items =~= q.buffer);
        assert(driven::<T>(q, fetched(rest), short).requests =~= Seq::<RequestView>::empty());
    } else {
        assert(pages.drop_last()[0] == pages[0]);
        assert(rest.last() == pages.last());
        assert(rest.drop_last() =~= pages.drop_last().drop_first());
        assert forall|i: int| 0 <= i < rest.drop_last().len() implies (
        #[trigger] rest.drop_last()[i]).data.len() > 0 && rest.drop_last()[i].has_more by {
            assert(rest.drop_last()[i] == pages.drop_last()[i + 1]);
        }
        lemma_traversal_exhaustive::<T>(q, rest, short);
    }
    assert(p.buffer + (q.buffer + all_data(rest)) =~= p.buffer + all_data(pages));
}

/// Each request after the first asks from the anchor of the page before:
/// its parameters hold the cursor with that object's identifier.
pub proof fn lemma_cursor_follows<T: Object>(
    p: PaginatorView<T::V>,
    pages: Seq<ListView<T::V>>,
    wanted: nat,
    i: int,
)
    requires
        p.has_more,
        complete(pages),
        wanted >= p.buffer.len() + all_data(pages).len(),
        0 <= i < pages.len() - 1,
    ensures
        ({
            let run = driven::<T>(p, fetched(pages), wanted);
            &&& run.requests.len() == pages.len()
            &&& run.requests[i + 1].query is Some
            &&& holds(
                run.requests[i + 1].query->0,
                p.direction.cursor_key(),
                T::id_of(anchor(pages[i].data, p.direction)),
            )
        }),
    decreases pages.len(),
{
    lemma_traversal_exhaustive::<T>(p, pages, wanted);
    let outcomes = fetched(pages);
    let q = turned::<T>(p.drained(), pages.first());
    let rest = pages.drop_first();
    let short = (wanted - p.buffer.len()) as nat;
    assert(pages.first() == pages[0]);
    assert(pages.drop_last()[0] == pages[0]);
    assert(outcomes.first() == Ok::<ListView<T::V>, FetchErrorView>(pages.first()));
    assert(outcomes.drop_first() =~= fetched(rest));
    assert(rest.last() == pages.last());
    assert(rest.drop_last() =~= pages.drop_last().drop_first());
    assert forall|j: int| 0 <= j < rest.drop_last().len() implies (
    #[trigger] rest.drop_last()[j]).data.len() > 0 && rest.drop_last()[j].has_more by {
        assert(rest.drop_last()[j] == pages.drop_last()[j + 1]);
    }
    lemma_traversal_exhaustive::<T>(q, rest, short);
    if i == 0 {
        lemma_with_param_holds(
            p.params,
            p.direction.cursor_key(),
            T::id_of(anchor(pages[0].data, p.direction)),
        );
        assert(driven::<T>(q, fetched(rest), short).requests[0] == q.request());
    } else {
        lemma_cursor_follows::<T>(q, rest, short, i - 1);
        assert(rest[i - 1] == pages[i]);
    }
}

/// The direction of a traversal is fixed: whatever the fetches give and
/// however far it is driven, no request holds the cursor of the other
/// direction. A traversal that was started with `ending_before` never
/// asks with `starting_after`.
pub proof fn lemma_direction_fixed<T: Object>(
    p: PaginatorView<T::V>,
    outcomes: Seq<Outcome<T::V>>,
    wanted: nat,
    i: int,
)
    requires
        p.one_way(),
        0 <= i < driven::<T>(p, outcomes, wanted).requests.len(),
    ensures
        ({
            let request = driven::<T>(p, outcomes, wanted).requests[i];
            &&& request.method == StripeMethod::Get
            &&& request.path == p.url
            &&& request.body is None
            &&& request.query is Some
            &&& !has_param(request.query->0, p.direction.foreign_key())
        }),
    decreases outcomes.len(),
{
    if wanted > p.buffer.len() && p.has_more && outcomes.len() > 0 && i > 0 {
        let page = outcomes.first()->Ok_0;
        lemma_turned_one_way::<T>(p.drained(), page);
        lemma_direction_fixed::<T>(
            turned::<T>(p.drained(), page),
            outcomes.drop_first(),
            (wanted - p.buffer.len()) as nat,
            i - 1,
        );
    }
}

/// What the caller asked for is passed on unchanged: in every request,
/// each parameter that the traversal started with is where it was and
/// as it was, but for the cursor.
pub proof fn lemma_filters_pass_through<T: Object>(
    p: PaginatorView<T::V>,
    outcomes: Seq<Outcome<T::V>>,
    wanted: nat,
    i: int,
    j: int,
)
    requires
        0 <= i < driven::<T>(p, outcomes, wanted).requests.len(),
        0 <= j < p.params.len(),
        p.params[j].0 != p.direction.cursor_key(),
    ensures
        ({
            let request = driven::<T>(p, outcomes, wanted).requests[i];
            &&& request.query is Some
            &&& j < request.query->0.len()
            &&& request.query->0[j] == p.params[j]
        }),
    decreases outcomes.len(),
{
    if wanted > p.buffer.len() && p.has_more && outcomes.len() > 0 && i > 0 {
        let page = outcomes.first()->Ok_0;
        if page.data.len() > 0 {
            lemma_with_param_keeps_others(
                p.params,
                p.direction.cursor_key(),
                T::id_of(anchor(page.data, p.direction)),
                j,
            );
        }
        lemma_filters_pass_through::<T>(
            turned::<T>(p.drained(), page),
            outcomes.drop_first(),
            (wanted - p.buffer.len()) as nat,
            i - 1,
            j,
        );
    }
}

} // verus!
