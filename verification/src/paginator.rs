//! A list endpoint as one sequence of objects.
//!
//! The paginator decides; it does not fetch. Asked for the next object it
//! hands out one that it holds, or the request for the next page, or the
//! end. Whoever drives it performs the request and hands back what came.
//! A page is asked for only when an object of it is wanted, so at most one
//! request is outstanding and none is made in vain.

use crate::decode::Decode;
use crate::error::{FetchError, FetchErrorView, TransportError, TransportErrorView};
use crate::json::accepted;
use crate::list::{data_view, decode_page_text, decoded_page_text, List, ListView};
use crate::object::Object;
use crate::params::{
    contains_param, copy_params, has_param, lemma_with_param_keys, pairs, set_param, with_param,
    Pairs, Param,
};
use crate::request::{RequestBuilder, RequestView, StripeMethod};
use vstd::prelude::*;

verus! {

/// The direction of a traversal.
#[derive(Copy, Clone, Debug, PartialEq, Eq, Structural)]
pub enum Direction {
    /// Each page starts after the last object of the page before.
    Forward,
    /// Each page ends before the first object of the page before.
    Backward,
}

impl Direction {
    /// The parameter that carries the cursor.
    pub open spec fn cursor_key(self) -> Seq<char> {
        match self {
            Direction::Forward => "starting_after"@,
            Direction::Backward => "ending_before"@,
        }
    }

    /// The parameter that carries the cursor of the other direction.
    pub open spec fn foreign_key(self) -> Seq<char> {
        match self {
            Direction::Forward => "ending_before"@,
            Direction::Backward => "starting_after"@,
        }
    }
}

/// The mathematical content of a [`ListPaginator`].
pub ghost struct PaginatorView<V> {
    /// The path of the list endpoint.
    pub url: Seq<char>,
    /// The query of the next request.
    pub params: Pairs,
    pub direction: Direction,
    /// The objects of the current page that are still to be handed out.
    pub buffer: Seq<V>,
    /// Whether a page follows the current one.
    pub has_more: bool,
}

impl<V> PaginatorView<V> {
    /// The parameters hold no cursor of the other direction.
    pub open spec fn one_way(self) -> bool {
        !has_param(self.params, self.direction.foreign_key())
    }

    /// The request for the next page.
    pub open spec fn request(self) -> RequestView {
        RequestView {
            method: StripeMethod::Get,
            path: self.url,
            query: Some(self.params),
            body: None,
        }
    }

    /// The traversal after every object it holds was handed out.
    pub open spec fn drained(self) -> Self {
        PaginatorView { buffer: Seq::empty(), ..self }
    }
}

/// The traversal of `url` with the caller's parameters, before the first
/// page: backward if the parameters hold `ending_before`, else forward,
/// and none at all where they hold both cursors.
pub open spec fn started<V>(url: Seq<char>, params: Pairs) -> Option<PaginatorView<V>> {
    if has_param(params, "starting_after"@) && has_param(params, "ending_before"@) {
        None
    } else {
        Some(
            PaginatorView {
                url,
                params,
                direction: if has_param(params, "ending_before"@) {
                    Direction::Backward
                } else {
                    Direction::Forward
                },
                buffer: Seq::empty(),
                has_more: true,
            },
        )
    }
}

/// The object of a page that the next page is asked from: the last one
/// going forward, the first one going backward.
pub open spec fn anchor<V>(data: Seq<V>, direction: Direction) -> V
    recommends
        data.len() > 0,
{
    match direction {
        Direction::Forward => data.last(),
        Direction::Backward => data.first(),
    }
}

/// The traversal after a page came in: it holds the page's objects, and
/// its cursor is the identifier of the page's anchor. A page without
/// objects ends the traversal, whatever it says of more.
pub open spec fn turned<T: Object>(p: PaginatorView<T::V>, page: ListView<T::V>) -> PaginatorView<
    T::V,
> {
    if page.data.len() == 0 {
        PaginatorView { buffer: page.data, has_more: false, ..p }
    } else {
        PaginatorView {
            buffer: page.data,
            has_more: page.has_more,
            params: with_param(
                p.params,
                p.direction.cursor_key(),
                T::id_of(anchor(page.data, p.direction)),
            ),
            ..p
        }
    }
}

/// What a response makes of a traversal: the traversal turned to the new
/// page, or the error with which it ends.
pub open spec fn received<T: Object>(
    p: PaginatorView<T::V>,
    outcome: Result<ListView<T::V>, FetchErrorView>,
) -> Result<PaginatorView<T::V>, FetchErrorView> {
    match outcome {
        Ok(page) => Ok(turned::<T>(p, page)),
        Err(e) => Err(e),
    }
}

/// The content of the HTTP client's answer.
pub open spec fn response_view(response: Result<String, TransportError>) -> Result<
    Seq<char>,
    TransportErrorView,
> {
    match response {
        Ok(text) => Ok(text@),
        Err(e) => Err(e@),
    }
}

/// What the HTTP client's answer amounts to: its error, or the page
/// that the text of the response decodes to, or the error of decoding.
pub open spec fn page_outcome<T: Decode>(
    response: Result<Seq<char>, TransportErrorView>,
) -> Result<ListView<T::V>, FetchErrorView> {
    match response {
        Err(e) => Err(FetchErrorView::Transport(e)),
        Ok(text) => match decoded_page_text::<T>(accepted(text)) {
            Ok(page) => Ok(page),
            Err(e) => Err(FetchErrorView::Decode(e)),
        },
    }
}

/// Whether the parameters hold `key`, and hold it with `value` only.
pub open spec fn holds(params: Pairs, key: Seq<char>, value: Seq<char>) -> bool {
    &&& has_param(params, key)
    &&& forall|i: int|
        0 <= i < params.len() && (#[trigger] params[i]).0 == key ==> params[i].1 == value
}

/// One traversal of a list endpoint. It cannot be restarted: a fresh
/// traversal takes a new paginator.
#[derive(Debug)]
pub struct ListPaginator<T> {
    page: List<T>,
    params: Vec<Param>,
    direction: Direction,
}

impl<T: View> View for ListPaginator<T> {
    type V = PaginatorView<T::V>;

    closed spec fn view(&self) -> PaginatorView<T::V> {
        PaginatorView {
            url: self.page.url@,
            params: pairs(self.params@),
            direction: self.direction,
            buffer: data_view(self.page.data@),
            has_more: self.page.has_more,
        }
    }
}

/// A traversal that waits for a page.
#[derive(Debug)]
pub struct PendingPage<T> {
    paginator: ListPaginator<T>,
}

impl<T: View> View for PendingPage<T> {
    type V = PaginatorView<T::V>;

    closed spec fn view(&self) -> PaginatorView<T::V> {
        self.paginator@
    }
}

/// What a traversal does next.
#[derive(Debug)]
pub enum Step<T> {
    /// The next object, and the traversal after it.
    Item(T, ListPaginator<T>),
    /// A page has to be fetched first.
    Fetch(PendingPage<T>),
    /// There is nothing more.
    End,
}

impl<T> ListPaginator<T> {
    #[verifier::type_invariant]
    spec fn well_formed(self) -> bool {
        !has_param(pairs(self.params@), self.direction.foreign_key())
    }
}

impl<T: Object> ListPaginator<T> {
    /// Starts a traversal of the list at `url` with the caller's
    /// parameters. Parameters with both cursors are refused.
    pub fn new_list(url: String, params: Vec<Param>) -> (r: Option<Self>)
        ensures
            match r {
                Some(p) => started::<T::V>(url@, pairs(params@)) == Some(p@) && p@.one_way(),
                None => started::<T::V>(url@, pairs(params@)) is None,
            },
    {
        let after = contains_param(&params, "starting_after");
        let before = contains_param(&params, "ending_before");
        if after && before {
            None
        } else {
            let direction = if before {
                Direction::Backward
            } else {
                Direction::Forward
            };
            let page = List { data: Vec::new(), has_more: true, url };
            let p = ListPaginator { page, params, direction };
            assert(p@.buffer =~= Seq::empty());
            Some(p)
        }
    }

    /// Hands out the next object that the traversal holds. Where it holds
    /// none, the next page is to be fetched if there is one, and the
    /// traversal is at its end if there is not.
    pub fn next(self) -> (r: Step<T>)
        ensures
            self@.one_way(),
            match r {
                Step::Item(item, rest) => {
                    &&& self@.buffer.len() > 0
                    &&& item@ == self@.buffer.first()
                    &&& rest@ == (PaginatorView { buffer: self@.buffer.drop_first(), ..self@ })
                },
                Step::Fetch(pending) => {
                    &&& self@.buffer.len() == 0
                    &&& self@.has_more
                    &&& pending@ == self@
                },
                Step::End => self@.buffer.len() == 0 && !self@.has_more,
            },
    {
        proof {
            use_type_invariant(&self);
        }
        if self.page.data.len() > 0 {
            let ListPaginator { page, params, direction } = self;
            let List { data, has_more, url } = page;
            let mut data = data;
            let ghost before = data@;
            let item = data.remove(0);
            let rest = ListPaginator { page: List { data, has_more, url }, params, direction };
            assert(rest@.buffer =~= data_view(before).drop_first());
            Step::Item(item, rest)
        } else if self.page.has_more {
            Step::Fetch(PendingPage { paginator: self })
        } else {
            Step::End
        }
    }
}

impl<T: Object> PendingPage<T> {
    /// The request to perform.
    pub fn request(&self) -> (r: RequestBuilder)
        ensures
            r@ == self@.request(),
            self@.one_way(),
    {
        proof {
            use_type_invariant(&self.paginator);
        }
        let query = copy_params(&self.paginator.params);
        RequestBuilder::new(StripeMethod::Get, self.paginator.page.url.clone()).query(query)
    }

    /// Takes what the fetch gave. A page is taken in and its anchor
    /// becomes the cursor; an error ends the traversal.
    pub fn receive(self, outcome: Result<List<T>, FetchError>) -> (r: Result<
        ListPaginator<T>,
        FetchError,
    >)
        ensures
            match r {
                Ok(p) => outcome is Ok && p@ == turned::<T>(self@, outcome->Ok_0@) && p@.one_way(),
                Err(e) => outcome is Err && e@ == outcome->Err_0@,
            },
    {
        proof {
            use_type_invariant(&self.paginator);
        }
        match outcome {
            Err(e) => Err(e),
            Ok(page) => {
                let PendingPage { paginator } = self;
                let ListPaginator { page: held, params, direction } = paginator;
                let mut params = params;
                let ghost before = pairs(params@);
                let List { data, has_more, url: _ } = page;
                let n = data.len();
                if n == 0 {
                    Ok(
                        ListPaginator {
                            page: List { data, has_more: false, url: held.url },
                            params,
                            direction,
                        },
                    )
                } else {
                    match direction {
                        Direction::Forward => {
                            assert(data_view(data@).last() == data[n - 1]@);
                            set_param(&mut params, "starting_after", data[n - 1].cursor());
                        },
                        Direction::Backward => {
                            assert(data_view(data@).first() == data[0]@);
                            set_param(&mut params, "ending_before", data[0].cursor());
                        },
                    }
                    proof {
                        lemma_cursor_keys_differ();
                        lemma_with_param_keys(
                            before,
                            direction.cursor_key(),
                            T::id_of(anchor(data_view(data@), direction)),
                            direction.foreign_key(),
                        );
                    }
                    Ok(
                        ListPaginator {
                            page: List { data, has_more, url: held.url },
                            params,
                            direction,
                        },
                    )
                }
            },
        }
    }
}

impl<T: Object + Decode> PendingPage<T> {
    /// Takes the HTTP client's answer: decodes the text of a response
    /// into a page and takes that, or ends the traversal with the error.
    pub fn receive_response(self, response: Result<String, TransportError>) -> (r: Result<
        ListPaginator<T>,
        FetchError,
    >)
        ensures
            match r {
                Ok(p) => received::<T>(self@, page_outcome::<T>(response_view(response))) == Ok::<
                    PaginatorView<T::V>,
                    FetchErrorView,
                >(p@) && p@.one_way(),
                Err(e) => received::<T>(self@, page_outcome::<T>(response_view(response))) == Err::<
                    PaginatorView<T::V>,
                    FetchErrorView,
                >(e@),
            },
    {
        let outcome = match response {
            Err(e) => Err(FetchError::Transport(e)),
            Ok(text) => match decode_page_text::<T>(text.as_str()) {
                Ok(page) => Ok(page),
                Err(e) => Err(FetchError::Decode(e)),
            },
        };
        self.receive(outcome)
    }
}

/// The two cursor parameters have different names.
pub proof fn lemma_cursor_keys_differ()
    ensures
        "starting_after"@ != "ending_before"@,
{
    reveal_strlit("starting_after");
    reveal_strlit("ending_before");
    assert("starting_after"@.len() == 14);
    assert("ending_before"@.len() == 13);
}

/// After a key is set, the parameters hold it with the new value only.
pub proof fn lemma_with_param_holds(
    params: Pairs,
    key: Seq<char>,
    value: Seq<char>,
)
    ensures
        holds(with_param(params, key, value), key, value),
{
    lemma_with_param_keys(params, key, value, key);
    let after = with_param(params, key, value);
    assert forall|i: int| 0 <= i < after.len() && (#[trigger] after[i]).0 == key implies after[i].1
        == value by {
        if has_param(params, key) {
        } else if i < params.len() {
            assert(params[i].0 == key);
        }
    }
}

/// A page that comes in leaves the direction as it is, and brings no
/// cursor of the other direction into the parameters.
pub proof fn lemma_turned_one_way<T: Object>(p: PaginatorView<T::V>, page: ListView<T::V>)
    requires
        p.one_way(),
    ensures
        turned::<T>(p, page).one_way(),
        turned::<T>(p, page).direction == p.direction,
        turned::<T>(p, page).url == p.url,
{
    lemma_cursor_keys_differ();
    if page.data.len() > 0 {
        lemma_with_param_keys(
            p.params,
            p.direction.cursor_key(),
            T::id_of(anchor(page.data, p.direction)),
            p.direction.foreign_key(),
        );
    }
}

} // verus!
