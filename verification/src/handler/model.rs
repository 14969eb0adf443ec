//! The store seen as a map from keys to payloads, and the laws that the
//! handlers' steps keep on a store that answers every read truthfully and
//! carries out every write and removal.

use vstd::prelude::*;

use crate::handler::url_add::{
    second_key_input, spec_add_on_lookup, spec_add_on_write, spec_new_payload, AddStepView,
};
use crate::key::{spec_short_key, spec_short_url};
use crate::handler::url_delete::{spec_delete_on_exists, spec_delete_on_remove, DeleteStepView};
use crate::handler::url_redirect::{spec_get, spec_redirect_reply};
use crate::handler::{ErrorView, LookupView, PayloadView, ReplyBodyView, ReplyView};

verus! {

/// What reading `key` from `store` gives.
pub open spec fn read(store: Map<Seq<char>, PayloadView>, key: Seq<char>) -> LookupView {
    if store.contains_key(key) {
        LookupView::Found(store[key])
    } else {
        LookupView::Missing
    }
}

/// How many entries `key` names in `store`.
pub open spec fn exists_count(store: Map<Seq<char>, PayloadView>, key: Seq<char>) -> Result<i8, Seq<char>> {
    if store.contains_key(key) {
        Ok(1i8)
    } else {
        Ok(0i8)
    }
}

/// Every entry of the store is held under its own key.
pub open spec fn well_formed(store: Map<Seq<char>, PayloadView>) -> bool {
    forall|k: Seq<char>| #[trigger] store.contains_key(k) ==> store[k].key == k
}

/// The store after an add step whose write succeeded.
pub open spec fn apply_add_step(store: Map<Seq<char>, PayloadView>, step: AddStepView) -> Map<Seq<char>, PayloadView> {
    match step {
        AddStepView::Write(p) => store.insert(p.key, p),
        AddStepView::Done(_) => store,
    }
}

/// The result of an add step whose write succeeded.
pub open spec fn add_step_outcome(step: AddStepView) -> Result<PayloadView, ErrorView> {
    match step {
        AddStepView::Write(p) => spec_add_on_write(p, Ok(())),
        AddStepView::Done(r) => r,
    }
}

/// Adding `long_url` to `store`: the store afterwards and the result.
pub open spec fn add_to(store: Map<Seq<char>, PayloadView>, long_url: Seq<char>) -> (Map<Seq<char>, PayloadView>, Result<PayloadView, ErrorView>) {
    let payload = spec_new_payload(long_url);
    let step = spec_add_on_lookup(payload, read(store, payload.key));
    (apply_add_step(store, step), add_step_outcome(step))
}

/// Deleting `key` from `store`: the store afterwards and the result.
pub open spec fn delete_from(store: Map<Seq<char>, PayloadView>, key: Seq<char>) -> (Map<Seq<char>, PayloadView>, Result<(), ErrorView>) {
    match spec_delete_on_exists(key, exists_count(store, key)) {
        DeleteStepView::Remove => (store.remove(key), spec_delete_on_remove(Ok(()))),
        DeleteStepView::Done(r) => (store, r),
    }
}

/// The reply to a redirect request for `key` on `store`.
pub open spec fn redirect_in(store: Map<Seq<char>, PayloadView>, key: Seq<char>, request_id: Seq<char>) -> ReplyView {
    spec_redirect_reply(request_id, spec_get(key, read(store, key)))
}

/// Adding a long URL succeeds, returns a payload for that URL, and a redirect
/// of the returned key then leads to that URL.
pub proof fn lemma_add_then_redirect(
    store: Map<Seq<char>, PayloadView>,
    long_url: Seq<char>,
    request_id: Seq<char>,
)
    ensures
        add_to(store, long_url).1 is Ok,
        add_to(store, long_url).1->Ok_0.long_url == long_url,
        redirect_in(add_to(store, long_url).0, add_to(store, long_url).1->Ok_0.key, request_id)
            == (ReplyView { status: 302, location: Some(long_url), body: ReplyBodyView::Empty }),
{
}

/// Adding a long URL stores it under its own key, or, where another URL
/// holds that key, under the key of the URL followed by `a`; the short URL it
/// returns is always the one of its own key.
pub proof fn lemma_add_keys(store: Map<Seq<char>, PayloadView>, long_url: Seq<char>)
    ensures
        add_to(store, long_url).1->Ok_0.key == spec_short_key(long_url)
            || add_to(store, long_url).1->Ok_0.key == spec_short_key(second_key_input(long_url)),
        add_to(store, long_url).1->Ok_0.short_url == spec_short_url(spec_short_key(long_url)),
{
}

/// Adding the same long URL a second time returns the same payload and leaves
/// the store as the first add left it.
pub proof fn lemma_add_twice(store: Map<Seq<char>, PayloadView>, long_url: Seq<char>)
    ensures
        add_to(add_to(store, long_url).0, long_url) == add_to(store, long_url),
{
    let s1 = add_to(store, long_url).0;
    let p0 = spec_new_payload(long_url);
    match spec_add_on_lookup(p0, read(store, p0.key)) {
        AddStepView::Write(p) => {
            assert(s1.insert(p.key, p) =~= s1);
        },
        AddStepView::Done(_) => {},
    }
}

/// Adding a long URL changes the store at most under the key it returns.
pub proof fn lemma_add_keeps_other_keys(store: Map<Seq<char>, PayloadView>, long_url: Seq<char>)
    ensures
        add_to(store, long_url).0.remove(add_to(store, long_url).1->Ok_0.key) =~= store.remove(
            add_to(store, long_url).1->Ok_0.key,
        ),
{
}

/// Adding a long URL keeps every entry under its own key.
pub proof fn lemma_add_keeps_well_formed(store: Map<Seq<char>, PayloadView>, long_url: Seq<char>)
    requires
        well_formed(store),
    ensures
        well_formed(add_to(store, long_url).0),
{
}

/// Deleting a key that names an entry succeeds and removes exactly that
/// entry; deleting one that names none reports it not found and changes
/// nothing. Either way a redirect of the key is then answered with 404.
pub proof fn lemma_delete_then_redirect(
    store: Map<Seq<char>, PayloadView>,
    key: Seq<char>,
    request_id: Seq<char>,
)
    ensures
        delete_from(store, key).0 =~= store.remove(key),
        store.contains_key(key) ==> delete_from(store, key).1 == Ok::<(), ErrorView>(()),
        !store.contains_key(key) ==> delete_from(store, key).1 == Err::<(), ErrorView>(
            ErrorView::NotFound(key),
        ),
        redirect_in(delete_from(store, key).0, key, request_id).status == 404,
{
}

/// Deleting a key twice: the second delete reports it not found.
pub proof fn lemma_delete_twice(store: Map<Seq<char>, PayloadView>, key: Seq<char>)
    ensures
        delete_from(delete_from(store, key).0, key).1 == Err::<(), ErrorView>(
            ErrorView::NotFound(key),
        ),
{
}

} // verus!
