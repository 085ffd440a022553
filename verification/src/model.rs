//! The protected store as the platform keeps it, and what the requests of
//! this crate mean over it.
//!
//! The platform holds items. Each has a service and an account, lives in one
//! access group of either the local or the cloud-synchronized store, keeps a
//! secret, and may ask for the user in person before it is released. A
//! request addresses items by exact, case-sensitive comparison of the
//! attributes it names. A request to store, fetch or delete that addresses
//! several items is served on one of them, which the platform picks by an
//! order of its own; nothing here depends on that order. Over this model the
//! module states what follows from the way credentials build their requests
//! and read the answers.

use crate::error::ErrorView;
use crate::platform::ERR_SEC_ITEM_NOT_FOUND;
use crate::platform::FoundItemView;
use crate::protected::AccessPolicy;
use crate::protected::AnswerView;
use crate::protected::built;
use crate::protected::configured;
use crate::protected::CredView;
use crate::protected::ItemOptionsView;
use crate::protected::LookupView;
use crate::protected::policy_of;
use crate::protected::SearchQueryView;
use crate::protected::status_error;
use crate::protected::StoreView;
use crate::protected::wrapper_of;
use crate::protected::wrappers_of;
use vstd::prelude::*;

verus! {

/// An item as the platform holds it.
pub struct StoredItem {
    pub service: Seq<char>,
    pub account: Seq<char>,
    pub access_group: Seq<char>,
    /// The item lives in the cloud-synchronized store.
    pub cloud_synchronized: bool,
    /// The item asks for the user in person before it is released.
    pub interactive: bool,
    /// The bytes that the item keeps.
    pub secret: Seq<u8>,
}

impl StoredItem {
    /// Service, account and access group have names, as with every item made
    /// through a credential.
    pub open spec fn named(self) -> bool {
        self.service.len() > 0 && self.account.len() > 0 && self.access_group.len() > 0
    }

    /// The same item with another secret.
    pub open spec fn keeping(self, secret: Seq<u8>) -> StoredItem {
        StoredItem {
            service: self.service,
            account: self.account,
            access_group: self.access_group,
            cloud_synchronized: self.cloud_synchronized,
            interactive: self.interactive,
            secret,
        }
    }

    /// What the platform reports of the item to a search.
    pub open spec fn reported(self) -> FoundItemView {
        FoundItemView {
            service: Some(self.service),
            account: Some(self.account),
            access_group: Some(self.access_group),
        }
    }
}

/// What the platform reports of each item, in the same order.
pub open spec fn reports(items: Seq<StoredItem>) -> Seq<FoundItemView> {
    items.map_values(|item: StoredItem| item.reported())
}

impl SearchQueryView {
    /// The query asks for the item: the item is in the store that the query
    /// names, agrees exactly with each attribute that the query gives, and
    /// does not ask for the user where the query leaves such items out.
    pub open spec fn admits(self, item: StoredItem) -> bool {
        &&& item.cloud_synchronized == self.cloud_synchronize
        &&& (self.service matches Some(service) ==> item.service == service)
        &&& (self.account matches Some(account) ==> item.account == account)
        &&& (self.access_group matches Some(group) ==> item.access_group == group)
        &&& (self.skip_authenticated_items ==> !item.interactive)
    }

    /// The items that the query asks for, in the order in which they are
    /// held.
    pub open spec fn selects(self, items: Seq<StoredItem>) -> Seq<StoredItem> {
        items.filter(|item: StoredItem| self.admits(item))
    }
}

impl ItemOptionsView {
    /// The options address the item: the item is in the store that they
    /// name and has their service and account, and their access group where
    /// they name one.
    pub open spec fn addresses(self, item: StoredItem) -> bool {
        &&& item.cloud_synchronized == self.cloud_synchronize
        &&& item.service == self.service
        &&& item.account == self.account
        &&& (self.access_group matches Some(group) ==> item.access_group == group)
    }

    /// The items that the options address.
    pub open spec fn addressed(self, items: Seq<StoredItem>) -> Seq<StoredItem> {
        items.filter(|item: StoredItem| self.addresses(item))
    }

    /// The platform may serve a request with these options on the item at
    /// `at`: it is one of the items that the options address.
    pub open spec fn served_on(self, items: Seq<StoredItem>, at: int) -> bool {
        0 <= at < items.len() && self.addresses(items[at])
    }

    /// `answer` is what the platform may answer to a request to fetch: the
    /// secret of an item that the options address, or the status "not
    /// found" where they address none.
    pub open spec fn fetches(self, items: Seq<StoredItem>, answer: Result<Seq<u8>, i32>) -> bool {
        if self.addressed(items).len() == 0 {
            answer == Err::<Seq<u8>, i32>(ERR_SEC_ITEM_NOT_FOUND)
        } else {
            exists|at: int| #[trigger]
                self.served_on(items, at) && answer == Ok::<Seq<u8>, i32>(items[at].secret)
        }
    }

    /// `after` is what the platform may hold after a request to store
    /// `secret`: the item it served the request on keeps the secret, or,
    /// where the options addressed no item, there is a new item that they
    /// address and that keeps the secret.
    pub open spec fn stores(
        self,
        secret: Seq<u8>,
        items: Seq<StoredItem>,
        after: Seq<StoredItem>,
    ) -> bool {
        if self.addressed(items).len() == 0 {
            exists|made: StoredItem| #[trigger]
                self.addresses(made) && made.secret == secret && after == items.push(made)
        } else {
            exists|at: int| #[trigger]
                self.served_on(items, at) && after == items.update(
                    at,
                    items[at].keeping(secret),
                )
        }
    }
}

impl StoreView {
    /// The item belongs to the store: it is in the store's half of the
    /// protected store, and in the store's access group where it has one.
    pub open spec fn holds(self, item: StoredItem) -> bool {
        &&& item.cloud_synchronized == self.cloud_synchronize
        &&& (self.access_group matches Some(group) ==> item.access_group == group)
    }
}

/// What the platform answers to a search over the items it holds: the
/// report of each item that the query asks for, or the status "not found"
/// where it asks for none of them.
pub open spec fn found_by(query: SearchQueryView, items: Seq<StoredItem>) -> Result<
    Seq<FoundItemView>,
    i32,
> {
    if query.selects(items).len() == 0 {
        Err(ERR_SEC_ITEM_NOT_FOUND)
    } else {
        Ok(reports(query.selects(items)))
    }
}

/// What the platform answers to a lookup over the items it holds.
pub open spec fn answer_to(lookup: LookupView, items: Seq<StoredItem>) -> AnswerView {
    match lookup {
        LookupView::Direct(options) => if options.addressed(items).len() == 0 {
            AnswerView::Failed(ERR_SEC_ITEM_NOT_FOUND)
        } else {
            AnswerView::Present
        },
        LookupView::Search(query) => match found_by(query, items) {
            Ok(found) => AnswerView::Found(found),
            Err(code) => AnswerView::Failed(code),
        },
    }
}

/// What the platform answers to a request to fetch or delete what the
/// options address: success where it holds such an item, and the status
/// "not found" where it holds none.
pub open spec fn status_of(options: ItemOptionsView, items: Seq<StoredItem>) -> Result<(), i32> {
    if options.addressed(items).len() == 0 {
        Err(ERR_SEC_ITEM_NOT_FOUND)
    } else {
        Ok(())
    }
}

/// The items that the platform holds after it deleted the item at `at`, on
/// which it served a request to delete: all the others.
pub open spec fn after_delete(items: Seq<StoredItem>, at: int) -> Seq<StoredItem> {
    items.remove(at)
}

impl CredView {
    /// What the credential resolves to over the items that the platform
    /// holds: the reading of the platform's answer to its lookup.
    pub open spec fn resolved(self, items: Seq<StoredItem>) -> Result<Option<CredView>, ErrorView> {
        self.resolution(answer_to(self.lookup(), items))
    }
}

/// Two predicates that agree on every element keep the same elements.
pub proof fn lemma_filter_agrees<A>(s: Seq<A>, p: spec_fn(A) -> bool, q: spec_fn(A) -> bool)
    requires
        forall|i: int| 0 <= i < s.len() ==> p(#[trigger] s[i]) == q(s[i]),
    ensures
        s.filter(p) == s.filter(q),
    decreases s.len(),
{
    reveal(Seq::filter);
    if s.len() > 0 {
        let front = s.drop_last();
        assert forall|i: int| 0 <= i < front.len() implies p(#[trigger] front[i]) == q(
            front[i],
        ) by {
            assert(front[i] == s[i]);
        }
        lemma_filter_agrees(front, p, q);
        assert(p(s.last()) == q(s.last()));
    }
}

/// A predicate that holds of every element keeps them all.
pub proof fn lemma_filter_keeps_all<A>(s: Seq<A>, p: spec_fn(A) -> bool)
    requires
        forall|i: int| 0 <= i < s.len() ==> p(#[trigger] s[i]),
    ensures
        s.filter(p) == s,
    decreases s.len(),
{
    reveal(Seq::filter);
    if s.len() > 0 {
        let front = s.drop_last();
        assert forall|i: int| 0 <= i < front.len() implies p(#[trigger] front[i]) by {
            assert(front[i] == s[i]);
        }
        lemma_filter_keeps_all(front, p);
        assert(p(s.last()));
        assert(front.push(s.last()) =~= s);
    } else {
        assert(s.filter(p) =~= s);
    }
}

/// A predicate that holds of no element keeps none.
pub proof fn lemma_filter_drops_all<A>(s: Seq<A>, p: spec_fn(A) -> bool)
    requires
        forall|i: int| 0 <= i < s.len() ==> !p(#[trigger] s[i]),
    ensures
        s.filter(p).len() == 0,
    decreases s.len(),
{
    reveal(Seq::filter);
    if s.len() > 0 {
        let front = s.drop_last();
        assert forall|i: int| 0 <= i < front.len() implies !p(#[trigger] front[i]) by {
            assert(front[i] == s[i]);
        }
        lemma_filter_drops_all(front, p);
        assert(!p(s.last()));
    }
}

/// Two elements at different places that a predicate holds of are both
/// kept.
pub proof fn lemma_filter_keeps_both<A>(s: Seq<A>, p: spec_fn(A) -> bool, i: int, j: int)
    requires
        0 <= i < s.len(),
        0 <= j < s.len(),
        i != j,
        p(s[i]),
        p(s[j]),
    ensures
        s.filter(p).len() >= 2,
    decreases s.len(),
{
    reveal(Seq::filter);
    let front = s.drop_last();
    let last = s.len() - 1;
    if i == last || j == last {
        let other = if i == last {
            j
        } else {
            i
        };
        assert(front[other] == s[other]);
        front.lemma_filter_contains(p, other);
    } else {
        assert(front[i] == s[i]);
        assert(front[j] == s[j]);
        lemma_filter_keeps_both(front, p, i, j);
    }
}

/// Taking out an element that a predicate holds of takes it out of what the
/// predicate keeps, and nothing else.
pub proof fn lemma_filter_remove<A>(s: Seq<A>, p: spec_fn(A) -> bool, at: int) -> (kept: int)
    requires
        0 <= at < s.len(),
        p(s[at]),
    ensures
        0 <= kept < s.filter(p).len(),
        s.filter(p)[kept] == s[at],
        s.remove(at).filter(p) == s.filter(p).remove(kept),
    decreases s.len(),
{
    reveal(Seq::filter);
    let front = s.drop_last();
    let last = s.len() - 1;
    if at == last {
        assert(s.remove(at) =~= front);
        let kept = front.filter(p).len() as int;
        assert(front.filter(p).push(s.last()).remove(kept) =~= front.filter(p));
        kept
    } else {
        assert(front[at] == s[at]);
        let kept = lemma_filter_remove(front, p, at);
        assert(s.remove(at).drop_last() =~= front.remove(at));
        assert(s.remove(at).last() == s.last());
        if p(s.last()) {
            assert(front.filter(p).push(s.last()).remove(kept) =~= front.filter(p).remove(
                kept,
            ).push(s.last()));
        }
        kept
    }
}

/// Each element is kept either by a predicate or by its negation.
pub proof fn lemma_filter_splits<A>(s: Seq<A>, p: spec_fn(A) -> bool)
    ensures
        s.filter(p).len() + s.filter(|x: A| !p(x)).len() == s.len(),
    decreases s.len(),
{
    reveal(Seq::filter);
    if s.len() > 0 {
        lemma_filter_splits(s.drop_last(), p);
    }
}

/// Of items that are all usable, each gets its wrapper.
pub proof fn lemma_wrappers_of_usable_items(found: Seq<FoundItemView>, cloud_synchronize: bool)
    requires
        forall|i: int| 0 <= i < found.len() ==> (#[trigger] found[i]).usable(),
    ensures
        wrappers_of(found, cloud_synchronize).len() == found.len(),
        forall|i: int|
            0 <= i < found.len() ==> #[trigger] wrappers_of(found, cloud_synchronize)[i]
                == wrapper_of(found[i], cloud_synchronize),
    decreases found.len(),
{
    if found.len() > 0 {
        let front = found.drop_last();
        assert forall|i: int| 0 <= i < front.len() implies (#[trigger] front[i]).usable() by {
            assert(front[i] == found[i]);
        }
        lemma_wrappers_of_usable_items(front, cloud_synchronize);
        assert(found.last().usable());
        assert forall|i: int| 0 <= i < found.len() implies #[trigger] wrappers_of(
            found,
            cloud_synchronize,
        )[i] == wrapper_of(found[i], cloud_synchronize) by {
            if i < front.len() {
                assert(front[i] == found[i]);
                assert(wrappers_of(front, cloud_synchronize)[i] == wrapper_of(
                    front[i],
                    cloud_synchronize,
                ));
            }
        }
    }
}

/// A search with an empty spec returns a credential for each item of the
/// store that does not ask for the user in person, and none for the others.
/// With `show-authentication-ui` set to `true` it returns a credential for
/// every item of the store.
pub proof fn lemma_search_shows_interactive_items_on_request(
    store: StoreView,
    items: Seq<StoredItem>,
)
    requires
        forall|i: int|
            0 <= i < items.len() ==> store.holds(#[trigger] items[i]) && items[i].named(),
    ensures
        ({
            let quiet = store.search_query(Seq::empty());
            let shown = store.search_query(seq![("show-authentication-ui"@, "true"@)]);
            let silent_items = items.filter(|item: StoredItem| !item.interactive);
            let interactive_items = items.filter(|item: StoredItem| item.interactive);
            &&& quiet is Ok
            &&& shown is Ok
            &&& quiet->Ok_0.selects(items) == silent_items
            &&& shown->Ok_0.selects(items) == items
            &&& quiet->Ok_0.results(found_by(quiet->Ok_0, items)) matches Ok(without)
            &&& shown->Ok_0.results(found_by(shown->Ok_0, items)) matches Ok(with)
            &&& without.len() == silent_items.len()
            &&& with.len() == silent_items.len() + interactive_items.len()
        }),
{
    let none = Seq::<(Seq<char>, Seq<char>)>::empty();
    let asked = seq![("show-authentication-ui"@, "true"@)];
    reveal_with_fuel(crate::attributes::value_of, 3);
    reveal_strlit("show-authentication-ui");
    reveal_strlit("service");
    reveal_strlit("user");
    reveal_strlit("access-group");
    reveal_strlit("true");
    assert("show-authentication-ui"@.len() == 22);
    assert("service"@.len() == 7);
    assert("user"@.len() == 4);
    assert("access-group"@.len() == 12);
    assert(asked[0].0 == "show-authentication-ui"@);
    assert(crate::attributes::value_of(asked, "show-authentication-ui"@) == Some("true"@));
    assert(crate::attributes::value_of(asked, "service"@) is None);
    assert(crate::attributes::value_of(asked, "user"@) is None);
    assert(crate::attributes::value_of(asked, "access-group"@) is None);
    let quiet = store.search_query(none)->Ok_0;
    let shown = store.search_query(asked)->Ok_0;
    let silent = |item: StoredItem| !item.interactive;
    assert forall|i: int| 0 <= i < items.len() implies (|item: StoredItem| quiet.admits(item))(
        #[trigger] items[i],
    ) == silent(items[i]) by {
        assert(store.holds(items[i]));
    }
    lemma_filter_agrees(items, |item: StoredItem| quiet.admits(item), silent);
    assert forall|i: int| 0 <= i < items.len() implies (|item: StoredItem| shown.admits(item))(
        #[trigger] items[i],
    ) by {
        assert(store.holds(items[i]));
    }
    lemma_filter_keeps_all(items, |item: StoredItem| shown.admits(item));
    lemma_filter_splits(items, silent);
    lemma_filter_agrees(
        items,
        |x: StoredItem| !silent(x),
        |item: StoredItem| item.interactive,
    );
    lemma_reports_are_usable(quiet.selects(items), items, |item: StoredItem| quiet.admits(item));
    lemma_wrappers_of_usable_items(reports(quiet.selects(items)), store.cloud_synchronize);
    lemma_reports_are_usable(shown.selects(items), items, |item: StoredItem| shown.admits(item));
    lemma_wrappers_of_usable_items(reports(shown.selects(items)), store.cloud_synchronize);
}

/// A specifier that names no access group, in a store where two access
/// groups each hold an item that it may stand for, resolves to `Ambiguous`,
/// with exactly two candidates, one pinned to each of the two groups. This
/// holds of every such specifier, so of any two that are built alike.
pub proof fn lemma_items_in_two_groups_are_ambiguous(
    cred: CredView,
    items: Seq<StoredItem>,
    first: StoredItem,
    second: StoredItem,
)
    requires
        cred.wf(),
        cred.access_group is None,
        forall|i: int| 0 <= i < items.len() ==> (#[trigger] items[i]).named(),
        cred.search().selects(items) == seq![first, second],
        first.access_group != second.access_group,
    ensures
        cred.resolved(items) matches Err(ErrorView::Ambiguous(candidates)) && candidates.len() == 2
            && candidates[0].access_group == Some(first.access_group)
            && candidates[1].access_group == Some(second.access_group)
            && candidates[0].access_group != candidates[1].access_group,
{
    let matching = seq![first, second];
    let admitted = |item: StoredItem| cred.search().admits(item);
    assert(matching[0] == first && matching[1] == second);
    items.lemma_filter_pred(admitted, 0);
    items.lemma_filter_pred(admitted, 1);
    assert(cred.search().admits(first));
    assert(cred.search().admits(second));
    lemma_reports_are_usable(matching, items, admitted);
    items.lemma_filter_contains_rev(admitted, first);
    items.lemma_filter_contains_rev(admitted, second);
    let found = reports(matching);
    assert(found[0] == first.reported());
    assert(found[1] == second.reported());
    assert forall|i: int| 0 <= i < found.len() implies (#[trigger] found[i]).usable() by {
        if i == 0 {
        } else {
            assert(i == 1);
        }
    }
    lemma_wrappers_of_usable_items(found, cred.cloud_synchronize);
    let candidates = wrappers_of(found, cred.cloud_synchronize);
    assert(candidates[0] == wrapper_of(found[0], cred.cloud_synchronize));
    assert(candidates[1] == wrapper_of(found[1], cred.cloud_synchronize));
}

/// A specifier that names its access group addresses the items of that
/// group alone. It resolves to itself where the group holds its item and to
/// `NoEntry` where it does not, never to `Ambiguous`, and an item in another
/// group changes neither what it addresses nor what it resolves to.
pub proof fn lemma_named_group_is_unambiguous(
    cred: CredView,
    items: Seq<StoredItem>,
    stranger: StoredItem,
)
    requires
        cred.access_group matches Some(group) && stranger.access_group != group,
    ensures
        forall|item: StoredItem| #[trigger]
            cred.item_options().addresses(item) ==> Some(item.access_group) == cred.access_group
                && item.service == cred.service && item.account == cred.account,
        cred.resolved(items) == if cred.item_options().addressed(items).len() > 0 {
            Ok::<Option<CredView>, ErrorView>(None)
        } else {
            Err::<Option<CredView>, ErrorView>(ErrorView::NoEntry)
        },
        cred.item_options().addressed(items.push(stranger)) == cred.item_options().addressed(
            items,
        ),
        cred.resolved(items.push(stranger)) == cred.resolved(items),
{
    items.lemma_filter_push(stranger, |item: StoredItem| cred.item_options().addresses(item));
}

/// A specifier that names no access group resolves to `NoEntry` where the
/// platform holds no item that it may stand for, and to a wrapper pinned to
/// the item's group where it holds exactly one.
pub proof fn lemma_single_match_resolves(cred: CredView, items: Seq<StoredItem>)
    requires
        cred.wf(),
        cred.access_group is None,
        forall|i: int| 0 <= i < items.len() ==> (#[trigger] items[i]).named(),
        cred.search().selects(items).len() <= 1,
    ensures
        cred.search().selects(items).len() == 0 ==> cred.resolved(items) == Err::<
            Option<CredView>,
            ErrorView,
        >(ErrorView::NoEntry),
        cred.search().selects(items).len() == 1 ==> (cred.resolved(items) matches Ok(
            Some(wrapper),
        ) && wrapper.service == cred.service && wrapper.account == cred.account
            && wrapper.access_group == Some(cred.search().selects(items)[0].access_group)
            && wrapper.cloud_synchronize == cred.cloud_synchronize),
{
    let matching = cred.search().selects(items);
    let admitted = |item: StoredItem| cred.search().admits(item);
    if matching.len() == 1 {
        items.lemma_filter_pred(admitted, 0);
        assert(cred.search().admits(matching[0]));
        lemma_reports_are_usable(matching, items, admitted);
        assert(matching.contains(matching[0]));
        items.lemma_filter_contains_rev(admitted, matching[0]);
        lemma_wrappers_of_usable_items(reports(matching), cred.cloud_synchronize);
        assert(reports(matching)[0] == matching[0].reported());
    }
}

/// After a credential that addresses one item was deleted, the platform
/// holds nothing that it addresses: a request to fetch its secret is
/// answered "not found", which reads as `NoEntry`, and the credential
/// resolves to `NoEntry`.
///
/// A credential that names no access group may address an item in each of
/// several groups. A delete takes one of them, and the next fetch finds
/// another; such credentials are left out here.
pub proof fn lemma_deleted_credential_is_gone(cred: CredView, items: Seq<StoredItem>, at: int)
    requires
        cred.item_options().served_on(items, at),
        cred.item_options().addressed(items).len() <= 1,
    ensures
        ({
            let left = after_delete(items, at);
            &&& cred.item_options().addressed(left).len() == 0
            &&& status_of(cred.item_options(), left) == Err::<(), i32>(ERR_SEC_ITEM_NOT_FOUND)
            &&& forall|answer: Result<Seq<u8>, i32>| #[trigger]
                cred.item_options().fetches(left, answer) ==> answer == Err::<Seq<u8>, i32>(
                    ERR_SEC_ITEM_NOT_FOUND,
                )
            &&& status_error(ERR_SEC_ITEM_NOT_FOUND) == ErrorView::NoEntry
            &&& cred.resolved(left) == Err::<Option<CredView>, ErrorView>(ErrorView::NoEntry)
        }),
{
    let options = cred.item_options();
    let left = after_delete(items, at);
    let addressed = |item: StoredItem| options.addresses(item);
    assert forall|i: int| 0 <= i < left.len() implies !addressed(#[trigger] left[i]) by {
        let from = if i < at {
            i
        } else {
            i + 1
        };
        assert(left[i] == items[from]);
        if addressed(items[from]) {
            lemma_filter_keeps_both(items, addressed, at, from);
        }
    }
    lemma_filter_drops_all(left, addressed);
    if cred.access_group is None {
        let admitted = |item: StoredItem| cred.search().admits(item);
        assert forall|i: int| 0 <= i < left.len() implies !admitted(#[trigger] left[i]) by {
            assert(!addressed(left[i]));
        }
        lemma_filter_drops_all(left, admitted);
    }
}

/// Where two access groups each hold an item of one service and account, a
/// delete through the specifier that names the second group takes the item
/// of that group and no other. Afterwards that specifier finds nothing, and
/// the specifier that names no group is no longer ambiguous: it reads the
/// secret of the first item and resolves to a wrapper pinned to the first
/// group.
pub proof fn lemma_delete_through_a_named_group(
    plain: CredView,
    pinned: CredView,
    items: Seq<StoredItem>,
    first: StoredItem,
    second: StoredItem,
    at: int,
)
    requires
        plain.wf(),
        plain.access_group is None,
        pinned.service == plain.service,
        pinned.account == plain.account,
        pinned.cloud_synchronize == plain.cloud_synchronize,
        pinned.access_group == Some(second.access_group),
        forall|i: int| 0 <= i < items.len() ==> (#[trigger] items[i]).named(),
        plain.item_options().addressed(items) == seq![first, second],
        plain.search().selects(items) == seq![first, second],
        first.access_group != second.access_group,
        pinned.item_options().served_on(items, at),
    ensures
        items[at] == second,
        ({
            let left = after_delete(items, at);
            &&& pinned.resolved(left) == Err::<Option<CredView>, ErrorView>(ErrorView::NoEntry)
            &&& forall|answer: Result<Seq<u8>, i32>| #[trigger]
                pinned.item_options().fetches(left, answer) ==> answer == Err::<Seq<u8>, i32>(
                    ERR_SEC_ITEM_NOT_FOUND,
                )
            &&& plain.item_options().addressed(left) == seq![first]
            &&& forall|answer: Result<Seq<u8>, i32>| #[trigger]
                plain.item_options().fetches(left, answer) ==> answer == Ok::<Seq<u8>, i32>(
                    first.secret,
                )
            &&& plain.resolved(left) matches Ok(Some(wrapper))
            &&& wrapper.access_group == Some(first.access_group)
            &&& wrapper.service == plain.service
            &&& wrapper.account == plain.account
        }),
{
    let both = seq![first, second];
    let left = after_delete(items, at);
    let of_plain = |item: StoredItem| plain.item_options().addresses(item);
    let of_pinned = |item: StoredItem| pinned.item_options().addresses(item);
    let admitted = |item: StoredItem| plain.search().admits(item);
    assert(both[0] == first && both[1] == second);
    // The item that is taken is the second one.
    assert(of_plain(items[at]));
    let kept = lemma_filter_remove(items, of_plain, at);
    assert(both[kept] == items[at]);
    assert(kept == 1);
    assert(both.remove(1) =~= seq![first]);
    assert(plain.item_options().addressed(left) == seq![first]);
    // It is among those that the search of the plain specifier finds.
    items.lemma_filter_pred(admitted, 1);
    assert(admitted(second));
    let found = lemma_filter_remove(items, admitted, at);
    assert(both[found] == items[at]);
    assert(found == 1);
    assert(plain.search().selects(left) == seq![first]);
    // Nothing is left for the pinned specifier.
    assert forall|i: int| 0 <= i < left.len() implies !of_pinned(#[trigger] left[i]) by {
        if of_pinned(left[i]) {
            assert(of_plain(left[i]));
            left.lemma_filter_contains(of_plain, i);
            assert(seq![first].contains(left[i]));
            assert(left[i] == first);
        }
    }
    lemma_filter_drops_all(left, of_pinned);
    // What the plain specifier fetches is the secret of the first item.
    assert forall|answer: Result<Seq<u8>, i32>| #[trigger]
        plain.item_options().fetches(left, answer) implies answer == Ok::<Seq<u8>, i32>(
        first.secret,
    ) by {
        assert(seq![first].len() == 1);
        let served = choose|served: int| #[trigger]
            plain.item_options().served_on(left, served) && answer == Ok::<Seq<u8>, i32>(
                left[served].secret,
            );
        left.lemma_filter_contains(of_plain, served);
        assert(seq![first].contains(left[served]));
        assert(left[served] == first);
    }
    assert forall|i: int| 0 <= i < left.len() implies (#[trigger] left[i]).named() by {
        let from = if i < at {
            i
        } else {
            i + 1
        };
        assert(left[i] == items[from]);
    }
    assert(seq![first][0] == first);
    lemma_single_match_resolves(plain, left);
}

/// After a secret was stored through a credential that addresses at most one
/// item, a fetch through the same credential is answered with that secret,
/// whatever its bytes, and the answer reads as that secret.
///
/// A credential that names no access group may address an item in each of
/// several groups; which of them a store and a fetch are served on is the
/// platform's to pick, so such credentials are left out here.
pub proof fn lemma_stored_secret_is_fetched(
    cred: CredView,
    secret: Seq<u8>,
    items: Seq<StoredItem>,
    after: Seq<StoredItem>,
)
    requires
        cred.item_options().addressed(items).len() <= 1,
        cred.item_options().stores(secret, items, after),
    ensures
        forall|answer: Result<Seq<u8>, i32>| #[trigger]
            cred.item_options().fetches(after, answer) ==> answer == Ok::<Seq<u8>, i32>(secret),
        cred.item_options().fetches(after, Ok::<Seq<u8>, i32>(secret)),
{
    let options = cred.item_options();
    let addressed = |item: StoredItem| options.addresses(item);
    // The one place in `after` at which an addressed item stands.
    let place: int = if options.addressed(items).len() == 0 {
        items.len() as int
    } else {
        choose|at: int| #[trigger]
            options.served_on(items, at) && after == items.update(at, items[at].keeping(secret))
    };
    assert(0 <= place < after.len());
    assert(addressed(after[place]) && after[place].secret == secret);
    assert forall|i: int| 0 <= i < after.len() && i != place implies !addressed(
        #[trigger] after[i],
    ) by {
        assert(after[i] == items[i]);
        if addressed(items[i]) {
            items.lemma_filter_contains(addressed, i);
            if options.addressed(items).len() != 0 {
                lemma_filter_keeps_both(items, addressed, place, i);
            }
        }
    }
    after.lemma_filter_contains(addressed, place);
    assert(options.addressed(after).len() > 0);
    assert(options.served_on(after, place));
}

/// A credential with an empty service or an empty account is never built:
/// neither directly nor by a store, whatever the store and the modifiers,
/// and the refusal is `Invalid`.
pub proof fn lemma_empty_names_are_refused(
    store: StoreView,
    service: Seq<char>,
    user: Seq<char>,
    access_group: Option<Seq<char>>,
    access_policy: AccessPolicy,
    cloud_synchronize: bool,
    modifiers: Seq<(Seq<char>, Seq<char>)>,
)
    requires
        service.len() == 0 || user.len() == 0,
    ensures
        built(service, user, access_group, access_policy, cloud_synchronize) matches Err(
            ErrorView::Invalid(_, _),
        ),
        store.build(service, user, modifiers) matches Err(ErrorView::Invalid(_, _)),
{
}

/// A credential that asks for the user in person is never built for the
/// cloud-synchronized store; the refusal is `Invalid`.
pub proof fn lemma_presence_is_refused_in_cloud(
    service: Seq<char>,
    user: Seq<char>,
    access_group: Option<Seq<char>>,
    access_policy: AccessPolicy,
)
    requires
        access_policy.interactive(),
    ensures
        built(service, user, access_group, access_policy, true) matches Err(
            ErrorView::Invalid(_, _),
        ),
{
}

/// A cloud-synchronized store builds no credential that asks for the user
/// in person, whether the policy is the store's own or comes from the
/// modifiers; the refusal is `Invalid`.
pub proof fn lemma_cloud_store_refuses_presence(
    store: StoreView,
    service: Seq<char>,
    user: Seq<char>,
    modifiers: Seq<(Seq<char>, Seq<char>)>,
)
    requires
        store.cloud_synchronize,
        policy_of(modifiers, store.access_policy) matches Ok(policy) && policy.interactive(),
    ensures
        store.build(service, user, modifiers) matches Err(ErrorView::Invalid(_, _)),
{
}

/// No store is configured with both cloud synchronization and a policy that
/// asks for the user in person. Where cloud synchronization is available the
/// refusal is `Invalid`.
pub proof fn lemma_configuration_refuses_presence_in_cloud(
    config: Seq<(Seq<char>, Seq<char>)>,
    sync_available: bool,
    id: Seq<char>,
)
    requires
        crate::attributes::value_of(config, "cloud-sync"@) == Some("true"@),
        policy_of(config, AccessPolicy::WhenUnlocked) matches Ok(policy) && policy.interactive(),
    ensures
        configured(config, sync_available, id) is Err,
        sync_available ==> configured(config, sync_available, id) matches Err(
            ErrorView::Invalid(_, _),
        ),
{
}

/// A wrapper for an item that reports its access group is pinned to that
/// group: it resolves by asking for the one item, and so is never
/// `Ambiguous`.
pub proof fn lemma_wrappers_are_pinned(item: FoundItemView, cloud_synchronize: bool)
    requires
        item.access_group matches Some(group) && group.len() > 0,
    ensures
        wrapper_of(item, cloud_synchronize).access_group == item.access_group,
        wrapper_of(item, cloud_synchronize).lookup() == LookupView::Direct(
            wrapper_of(item, cloud_synchronize).item_options(),
        ),
{
}

/// Two stores of the same settings behave alike: what they build and what
/// they search for does not depend on their identifiers.
pub proof fn lemma_stores_of_same_settings_behave_alike(
    one: StoreView,
    other: StoreView,
    service: Seq<char>,
    user: Seq<char>,
    entries: Seq<(Seq<char>, Seq<char>)>,
)
    requires
        one.access_group == other.access_group,
        one.access_policy == other.access_policy,
        one.cloud_synchronize == other.cloud_synchronize,
    ensures
        one.build(service, user, entries) == other.build(service, user, entries),
        one.search_query(entries) == other.search_query(entries),
{
}

/// What the platform reports of named items is usable.
proof fn lemma_reports_are_usable(
    kept: Seq<StoredItem>,
    items: Seq<StoredItem>,
    p: spec_fn(StoredItem) -> bool,
)
    requires
        kept == items.filter(p),
        forall|i: int| 0 <= i < items.len() ==> (#[trigger] items[i]).named(),
    ensures
        reports(kept).len() == kept.len(),
        forall|i: int| 0 <= i < kept.len() ==> (#[trigger] reports(kept)[i]).usable(),
{
    assert forall|i: int| 0 <= i < kept.len() implies (#[trigger] reports(kept)[i]).usable() by {
        items.lemma_filter_contains_rev(p, kept[i]);
        let j = choose|j: int| 0 <= j < items.len() && items[j] == kept[i];
        assert(items[j].named());
    }
}

} // verus!
