//! The protected-data store of iOS and macOS.
//!
//! A credential of this store is a generic password named by a service and
//! an account. It lives in one of two stores, the one local to the device or
//! the one synchronized through the cloud, and there in one access group.
//! Two items may share service and account and differ in their access group
//! alone, so a credential that names no group may match several items.
//! Resolving such a credential never picks one of them: it reports them all
//! as ambiguous.
//!
//! A store is configured by the keys `cloud-sync`, `access-group` and
//! `access-policy`. The modifiers of an entry may replace the store's group
//! and policy, not its choice between the local and the cloud-synchronized
//! store. A policy that asks for the user in person cannot be combined with
//! cloud synchronization, and is refused wherever the two meet.

use crate::attributes::distinct_keys;
use crate::attributes::given;
use crate::attributes::lemma_same_entries_same_values;
use crate::attributes::parse_attributes;
use crate::attributes::plain_keys;
use crate::attributes::value;
use crate::attributes::value_of;
use crate::error::checked_outcome;
use crate::error::describes;
use crate::error::Error;
use crate::error::ErrorView;
use crate::error::invalid;
use crate::instance::fresh_instance_id;
use crate::instance::is_instance_id;
use crate::persistence::CredentialPersistence;
use crate::platform::copy_text;
use crate::platform::ERR_SEC_ITEM_NOT_FOUND;
use crate::platform::ERR_SEC_MISSING_ENTITLEMENT;
use crate::platform::ERR_SEC_NOT_AVAILABLE;
use crate::platform::ERR_SEC_READ_ONLY;
use crate::platform::FoundItem;
use crate::platform::FoundItemView;
use crate::platform::owned;
use crate::platform::reported;
use crate::platform::text_of;
use crate::text::ascii_lower;
use crate::text::str_eq;
use crate::text::to_ascii_lowercase;
use std::sync::Arc;
use vstd::prelude::*;
use vstd::string::StringExecFns;

verus! {

/// When a stored secret may be released, from the widest window of exposure
/// to the narrowest. These three are the policies that this store knows;
/// the name of any other is refused.
#[derive(Debug, Clone, Copy, PartialEq, Eq, PartialOrd, Ord, Hash, Structural)]
pub enum AccessPolicy {
    /// After the device was unlocked once since its last restart.
    AfterFirstUnlock,
    /// While the device is unlocked. This is the default.
    WhenUnlocked,
    /// Only when the user proves to be present, by biometry or passcode,
    /// at each access.
    RequireUserPresence,
}

impl View for AccessPolicy {
    type V = AccessPolicy;

    open spec fn view(&self) -> AccessPolicy {
        *self
    }
}

impl DeepView for AccessPolicy {
    type V = AccessPolicy;

    open spec fn deep_view(&self) -> AccessPolicy {
        *self
    }
}

impl Default for AccessPolicy {
    fn default() -> (policy: AccessPolicy)
        ensures
            policy == AccessPolicy::WhenUnlocked,
    {
        AccessPolicy::WhenUnlocked
    }
}

/// The classes of protection under which the platform stores an item.
#[derive(Debug, Clone, Copy, PartialEq, Eq, Hash, Structural)]
pub enum ProtectionMode {
    /// Accessible once the device was unlocked after a restart.
    AccessibleAfterFirstUnlock,
    /// Accessible while the device is unlocked.
    AccessibleWhenUnlocked,
}

/// The protection that the platform is asked to give an item: a class of
/// storage protection, and on top of it whether each access has to be
/// confirmed by the user in person.
#[derive(Debug, Clone, Copy, PartialEq, Eq, Hash, Structural)]
pub struct Protection {
    pub mode: ProtectionMode,
    pub user_presence: bool,
}

/// The policy that a lower-case name stands for. Each policy is known by its
/// name with hyphens between the words and by the same name without them;
/// `default` names the default policy. These seven names are all there are.
pub open spec fn policy_named(name: Seq<char>) -> Option<AccessPolicy> {
    if name == "after-first-unlock"@ || name == "afterfirstunlock"@ {
        Some(AccessPolicy::AfterFirstUnlock)
    } else if name == "when-unlocked"@ || name == "whenunlocked"@ || name == "default"@ {
        Some(AccessPolicy::WhenUnlocked)
    } else if name == "require-user-presence"@ || name == "requireuserpresence"@ {
        Some(AccessPolicy::RequireUserPresence)
    } else {
        None
    }
}

/// The policy that a text names, whatever the case of its ASCII letters, or
/// the error that refuses the text.
pub open spec fn parsed_policy(s: Seq<char>) -> Result<AccessPolicy, ErrorView> {
    match policy_named(ascii_lower(s)) {
        Some(policy) => Ok(policy),
        None => Err(ErrorView::Invalid("access-policy"@, "unknown value: "@ + s)),
    }
}

impl AccessPolicy {
    /// The policy asks for the user in person at each access.
    pub open spec fn interactive(self) -> bool {
        self == AccessPolicy::RequireUserPresence
    }

    /// The protection that the platform is asked for under the policy. The
    /// first two policies name their own class of storage protection. The
    /// demand for the user's presence is no class of its own: it is laid
    /// over the class with the widest window of exposure.
    pub open spec fn protection_of(self) -> Protection {
        match self {
            AccessPolicy::AfterFirstUnlock => Protection {
                mode: ProtectionMode::AccessibleAfterFirstUnlock,
                user_presence: false,
            },
            AccessPolicy::WhenUnlocked => Protection {
                mode: ProtectionMode::AccessibleWhenUnlocked,
                user_presence: false,
            },
            AccessPolicy::RequireUserPresence => Protection {
                mode: ProtectionMode::AccessibleAfterFirstUnlock,
                user_presence: true,
            },
        }
    }

    /// Reads a policy from its name. The case of ASCII letters does not
    /// matter. A text that names no policy is refused as
    /// `Invalid("access-policy", "unknown value: <text>")`.
    pub fn from_str(s: &str) -> (r: Result<AccessPolicy, Error>)
        ensures
            describes(parsed_policy(s@), r),
    {
        let lower = to_ascii_lowercase(s);
        let name = lower.as_str();
        if str_eq(name, "after-first-unlock") || str_eq(name, "afterfirstunlock") {
            Ok(AccessPolicy::AfterFirstUnlock)
        } else if str_eq(name, "when-unlocked") || str_eq(name, "whenunlocked") || str_eq(
            name,
            "default",
        ) {
            Ok(AccessPolicy::WhenUnlocked)
        } else if str_eq(name, "require-user-presence") || str_eq(name, "requireuserpresence") {
            Ok(AccessPolicy::RequireUserPresence)
        } else {
            let mut reason = String::from_str("unknown value: ");
            reason.append(s);
            Err(Error::Invalid(String::from_str("access-policy"), reason))
        }
    }

    /// Whether the policy asks for the user in person at each access.
    pub fn is_interactive(&self) -> (r: bool)
        ensures
            r == self.interactive(),
    {
        *self == AccessPolicy::RequireUserPresence
    }

    /// The protection that the platform is asked for under the policy.
    pub fn protection(&self) -> (r: Protection)
        ensures
            r == self.protection_of(),
    {
        match self {
            AccessPolicy::AfterFirstUnlock => Protection {
                mode: ProtectionMode::AccessibleAfterFirstUnlock,
                user_presence: false,
            },
            AccessPolicy::WhenUnlocked => Protection {
                mode: ProtectionMode::AccessibleWhenUnlocked,
                user_presence: false,
            },
            AccessPolicy::RequireUserPresence => Protection {
                mode: ProtectionMode::AccessibleAfterFirstUnlock,
                user_presence: true,
            },
        }
    }
}

/// The representation of a generic password of the protected store.
#[derive(Debug, Clone, PartialEq, Eq)]
pub struct Cred {
    pub service: String,
    pub account: String,
    /// The access group holding the item; `None` leaves the choice of the
    /// group to the platform.
    pub access_group: Option<String>,
    pub access_policy: AccessPolicy,
    pub cloud_synchronize: bool,
}

/// The mathematical value of a [`Cred`].
pub struct CredView {
    pub service: Seq<char>,
    pub account: Seq<char>,
    pub access_group: Option<Seq<char>>,
    pub access_policy: AccessPolicy,
    pub cloud_synchronize: bool,
}

impl View for Cred {
    type V = CredView;

    open spec fn view(&self) -> CredView {
        CredView {
            service: self.service@,
            account: self.account@,
            access_group: crate::platform::text_of(self.access_group),
            access_policy: self.access_policy,
            cloud_synchronize: self.cloud_synchronize,
        }
    }
}

impl DeepView for Cred {
    type V = CredView;

    open spec fn deep_view(&self) -> CredView {
        self@
    }
}

impl CredView {
    /// Service and account are not empty, nor is the access group where one
    /// is named, and a credential of the cloud-synchronized store does not
    /// ask for the user in person.
    pub open spec fn wf(self) -> bool {
        &&& self.service.len() > 0
        &&& self.account.len() > 0
        &&& (self.access_group matches Some(group) ==> group.len() > 0)
        &&& !(self.cloud_synchronize && self.access_policy.interactive())
    }
}

/// The credential that the given parts make, or the error that refuses
/// them. An empty service, account or access group is refused, in this
/// order, and then a policy that asks for the user in person on a
/// credential of the cloud-synchronized store: nobody need be present while
/// the cloud synchronizes.
pub open spec fn built(
    service: Seq<char>,
    user: Seq<char>,
    access_group: Option<Seq<char>>,
    access_policy: AccessPolicy,
    cloud_synchronize: bool,
) -> Result<CredView, ErrorView> {
    if service.len() == 0 {
        Err(ErrorView::Invalid("service"@, "cannot be empty"@))
    } else if user.len() == 0 {
        Err(ErrorView::Invalid("user"@, "cannot be empty"@))
    } else if access_group matches Some(group) && group.len() == 0 {
        Err(ErrorView::Invalid("access-group"@, "cannot be empty"@))
    } else if cloud_synchronize && access_policy.interactive() {
        Err(
            ErrorView::Invalid(
                "require-user-presence"@,
                "not allowed in cloud-synchronized store"@,
            ),
        )
    } else {
        Ok(
            CredView {
                service,
                account: user,
                access_group,
                access_policy,
                cloud_synchronize,
            },
        )
    }
}

/// The characters of an optional borrowed string.
pub open spec fn slice_text(s: Option<&str>) -> Option<Seq<char>> {
    match s {
        Some(t) => Some(t@),
        None => None,
    }
}

impl Cred {
    /// Makes a credential for a generic password of the protected store.
    /// Nothing is put into the store by this.
    ///
    /// An empty service or account is refused, because the platform reads an
    /// empty attribute as a wildcard; so is an empty access group, and so is
    /// a policy that asks for the user in person together with cloud
    /// synchronization.
    pub fn build(
        service: &str,
        user: &str,
        access_group: Option<&str>,
        access_policy: AccessPolicy,
        cloud_synchronize: bool,
    ) -> (r: Result<Cred, Error>)
        ensures
            describes(
                built(service@, user@, slice_text(access_group), access_policy, cloud_synchronize),
                r,
            ),
            r matches Ok(cred) ==> cred@.wf(),
            service@.len() == 0 || user@.len() == 0 ==> r matches Err(Error::Invalid(_, _)),
            cloud_synchronize && access_policy.interactive() ==> r matches Err(
                Error::Invalid(_, _),
            ),
    {
        if service.is_empty() {
            return Err(invalid("service", "cannot be empty"));
        }
        if user.is_empty() {
            return Err(invalid("user", "cannot be empty"));
        }
        let group = match access_group {
            Some(group) => {
                if group.is_empty() {
                    return Err(invalid("access-group", "cannot be empty"));
                }
                Some(group.to_owned())
            },
            None => None,
        };
        if cloud_synchronize && access_policy.is_interactive() {
            return Err(
                invalid("require-user-presence", "not allowed in cloud-synchronized store"),
            );
        }
        Ok(
            Cred {
                service: service.to_owned(),
                account: user.to_owned(),
                access_group: group,
                access_policy,
                cloud_synchronize,
            },
        )
    }
}

/// How a request to store, fetch or delete addresses an item.
#[derive(Debug, Clone, PartialEq, Eq)]
pub struct ItemOptions {
    pub service: String,
    pub account: String,
    /// The access group to look in; `None` leaves the choice to the platform.
    pub access_group: Option<String>,
    /// The cloud-synchronized store, or the local one.
    pub cloud_synchronize: bool,
}

/// The mathematical value of an [`ItemOptions`].
pub struct ItemOptionsView {
    pub service: Seq<char>,
    pub account: Seq<char>,
    pub access_group: Option<Seq<char>>,
    pub cloud_synchronize: bool,
}

impl View for ItemOptions {
    type V = ItemOptionsView;

    open spec fn view(&self) -> ItemOptionsView {
        ItemOptionsView {
            service: self.service@,
            account: self.account@,
            access_group: text_of(self.access_group),
            cloud_synchronize: self.cloud_synchronize,
        }
    }
}

impl DeepView for ItemOptions {
    type V = ItemOptionsView;

    open spec fn deep_view(&self) -> ItemOptionsView {
        self@
    }
}

/// What has to be asked of the platform to resolve a credential.
#[derive(Debug, Clone, PartialEq, Eq)]
pub enum Lookup {
    /// Whether the one item that the options address is there.
    Direct(ItemOptions),
    /// Which items match the query.
    Search(SearchQuery),
}

/// The mathematical value of a [`Lookup`].
pub enum LookupView {
    Direct(ItemOptionsView),
    Search(SearchQueryView),
}

impl View for Lookup {
    type V = LookupView;

    open spec fn view(&self) -> LookupView {
        match self {
            Lookup::Direct(options) => LookupView::Direct(options@),
            Lookup::Search(query) => LookupView::Search(query@),
        }
    }
}

impl DeepView for Lookup {
    type V = LookupView;

    open spec fn deep_view(&self) -> LookupView {
        self@
    }
}

/// The platform's answer to a [`Lookup`].
#[derive(Debug, Clone, PartialEq, Eq)]
pub enum Answer {
    /// The addressed item is there.
    Present,
    /// These items match the query.
    Found(Vec<FoundItem>),
    /// The platform failed with this status code.
    Failed(i32),
}

/// The mathematical value of an [`Answer`].
pub enum AnswerView {
    Present,
    Found(Seq<FoundItemView>),
    Failed(i32),
}

impl View for Answer {
    type V = AnswerView;

    open spec fn view(&self) -> AnswerView {
        match self {
            Answer::Present => AnswerView::Present,
            Answer::Found(items) => AnswerView::Found(items.deep_view()),
            Answer::Failed(code) => AnswerView::Failed(*code),
        }
    }
}

impl DeepView for Answer {
    type V = AnswerView;

    open spec fn deep_view(&self) -> AnswerView {
        self@
    }
}

impl CredView {
    /// How the credential's item is addressed.
    pub open spec fn item_options(self) -> ItemOptionsView {
        ItemOptionsView {
            service: self.service,
            account: self.account,
            access_group: self.access_group,
            cloud_synchronize: self.cloud_synchronize,
        }
    }

    /// The protection to ask for when the credential's item is created.
    /// Under the default policy none is asked for: the platform's own
    /// default is that policy's class.
    pub open spec fn access_control(self) -> Option<Protection> {
        if self.access_policy == AccessPolicy::WhenUnlocked {
            None
        } else {
            Some(self.access_policy.protection_of())
        }
    }

    /// What to ask of the platform to resolve the credential. A credential
    /// that names its access group addresses one item, and whether that item
    /// is there is all there is to ask. One that names no group may match an
    /// item in each group, so the items that it may stand for are searched
    /// for.
    pub open spec fn lookup(self) -> LookupView {
        if self.access_group is Some {
            LookupView::Direct(self.item_options())
        } else {
            LookupView::Search(self.search())
        }
    }

    /// The search for the items that the credential may stand for: those of
    /// its service and account in any access group, within its own store,
    /// local or cloud-synchronized. Items that would ask the user to
    /// authenticate are left out, unless the credential's own policy asks
    /// for the user in person: whoever made it so is prepared to be asked.
    pub open spec fn search(self) -> SearchQueryView {
        SearchQueryView {
            service: Some(self.service),
            account: Some(self.account),
            access_group: None,
            cloud_synchronize: self.cloud_synchronize,
            skip_authenticated_items: !self.access_policy.interactive(),
        }
    }

    /// The credential resolved from the platform's answer to its lookup.
    ///
    /// An item that is there resolves the credential to itself, which `None`
    /// says. Of the usable items that a search found, none is `NoEntry`, one
    /// resolves to its wrapper, and several are `Ambiguous`, with a wrapper
    /// for each of them in the order in which they came. No choice is made
    /// among several. A failure of the platform is the error that stands for
    /// its status code.
    pub open spec fn resolution(self, answer: AnswerView) -> Result<Option<CredView>, ErrorView> {
        match answer {
            AnswerView::Present => Ok(None),
            AnswerView::Found(items) => {
                let candidates = wrappers_of(items, self.cloud_synchronize);
                if candidates.len() == 0 {
                    Err(ErrorView::NoEntry)
                } else if candidates.len() == 1 {
                    Ok(Some(candidates[0]))
                } else {
                    Err(ErrorView::Ambiguous(candidates))
                }
            },
            AnswerView::Failed(code) => Err(status_error(code)),
        }
    }
}

impl Cred {
    /// How the credential's item is addressed in a request to store, fetch
    /// or delete it.
    pub fn item_options(&self) -> (r: ItemOptions)
        ensures
            r@ == self@.item_options(),
    {
        ItemOptions {
            service: self.service.clone(),
            account: self.account.clone(),
            access_group: copy_text(&self.access_group),
            cloud_synchronize: self.cloud_synchronize,
        }
    }

    /// The protection to ask for when the credential's item is created.
    pub fn access_control(&self) -> (r: Option<Protection>)
        ensures
            r == self@.access_control(),
    {
        if self.access_policy == AccessPolicy::WhenUnlocked {
            None
        } else {
            Some(self.access_policy.protection())
        }
    }

    /// What to ask of the platform to resolve the credential.
    pub fn lookup(&self) -> (r: Lookup)
        ensures
            r@ == self@.lookup(),
    {
        if self.access_group.is_some() {
            Lookup::Direct(self.item_options())
        } else {
            Lookup::Search(
                SearchQuery {
                    service: Some(self.service.clone()),
                    account: Some(self.account.clone()),
                    access_group: None,
                    cloud_synchronize: self.cloud_synchronize,
                    skip_authenticated_items: !self.access_policy.is_interactive(),
                },
            )
        }
    }

    /// Resolves the credential from the platform's answer to its lookup:
    /// `None` where it resolves to itself, a wrapper where a search found
    /// the one item it matches.
    pub fn get_credential(&self, answer: Answer) -> (r: Result<Option<Cred>, Error>)
        ensures
            describes(self@.resolution(answer@), r),
            r matches Ok(Some(wrapper)) ==> wrapper@.wf(),
            r matches Err(Error::Ambiguous(candidates)) ==> forall|i: int|
                0 <= i < candidates.len() ==> (#[trigger] candidates[i])@.wf(),
    {
        match answer {
            Answer::Present => Ok(None),
            Answer::Found(items) => {
                let mut candidates = wrappers(&items, self.cloud_synchronize);
                if candidates.len() == 0 {
                    Err(Error::NoEntry)
                } else if candidates.len() == 1 {
                    let ghost all = candidates.deep_view();
                    let only = candidates.pop();
                    let only = match only {
                        Some(wrapper) => wrapper,
                        None => {
                            return Err(Error::NoEntry);
                        },
                    };
                    assert(only@ == all[0]);
                    Ok(Some(only))
                } else {
                    Err(Error::Ambiguous(candidates))
                }
            },
            Answer::Failed(code) => Err(decode_error(code)),
        }
    }

    /// The access group that the credential is pinned to, if it is pinned
    /// to one.
    pub fn pinned_group(&self) -> (r: Option<&str>)
        ensures
            slice_text(r) == self@.access_group,
    {
        match &self.access_group {
            Some(group) => Some(group.as_str()),
            None => None,
        }
    }

    /// The service and the account that the credential was made for.
    pub fn get_specifiers(&self) -> (r: Option<(String, String)>)
        ensures
            r matches Some(pair) && pair.0@ == self.service@ && pair.1@ == self.account@,
    {
        Some((self.service.clone(), self.account.clone()))
    }
}

/// Reads the platform's answer to a request to store, fetch or delete an
/// item: what it handed back, or the error that stands for the status code
/// it failed with.
pub fn outcome<T>(answer: Result<T, i32>) -> (r: Result<T, Error>)
    ensures
        match answer {
            Ok(value) => r == Ok::<T, Error>(value),
            Err(code) => r matches Err(error) && error@ == status_error(code),
        },
{
    match answer {
        Ok(value) => Ok(value),
        Err(code) => Err(decode_error(code)),
    }
}

/// A gateway to the protected store, local or cloud-synchronized.
#[derive(Debug)]
pub struct Store {
    id: String,
    access_group: Option<String>,
    access_policy: AccessPolicy,
    cloud_synchronize: bool,
}

/// The mathematical value of a [`Store`].
pub struct StoreView {
    pub id: Seq<char>,
    pub access_group: Option<Seq<char>>,
    pub access_policy: AccessPolicy,
    pub cloud_synchronize: bool,
}

impl View for Store {
    type V = StoreView;

    closed spec fn view(&self) -> StoreView {
        StoreView {
            id: self.id@,
            access_group: text_of(self.access_group),
            access_policy: self.access_policy,
            cloud_synchronize: self.cloud_synchronize,
        }
    }
}

impl DeepView for Store {
    type V = StoreView;

    open spec fn deep_view(&self) -> StoreView {
        self@
    }
}

/// What a search asks of the platform. Every search is for generic
/// passwords, without a limit on their number, and asks for the attributes
/// of each.
#[derive(Debug, Clone, PartialEq, Eq)]
pub struct SearchQuery {
    /// Only items of exactly this service.
    pub service: Option<String>,
    /// Only items of exactly this account.
    pub account: Option<String>,
    /// Only items of exactly this access group.
    pub access_group: Option<String>,
    /// Items of the cloud-synchronized store, or items of the local one.
    pub cloud_synchronize: bool,
    /// Leave out the items that would ask the user to authenticate.
    pub skip_authenticated_items: bool,
}

/// The mathematical value of a [`SearchQuery`].
pub struct SearchQueryView {
    pub service: Option<Seq<char>>,
    pub account: Option<Seq<char>>,
    pub access_group: Option<Seq<char>>,
    pub cloud_synchronize: bool,
    pub skip_authenticated_items: bool,
}

impl View for SearchQuery {
    type V = SearchQueryView;

    open spec fn view(&self) -> SearchQueryView {
        SearchQueryView {
            service: text_of(self.service),
            account: text_of(self.account),
            access_group: text_of(self.access_group),
            cloud_synchronize: self.cloud_synchronize,
            skip_authenticated_items: self.skip_authenticated_items,
        }
    }
}

impl DeepView for SearchQuery {
    type V = SearchQueryView;

    open spec fn deep_view(&self) -> SearchQueryView {
        self@
    }
}

/// The error that stands for a status code of the platform.
pub open spec fn status_error(code: i32) -> ErrorView {
    if code == ERR_SEC_NOT_AVAILABLE || code == ERR_SEC_READ_ONLY || code
        == ERR_SEC_MISSING_ENTITLEMENT {
        ErrorView::NoStorageAccess(code)
    } else if code == ERR_SEC_ITEM_NOT_FOUND {
        ErrorView::NoEntry
    } else {
        ErrorView::PlatformFailure(code)
    }
}

/// Maps a status code of the platform to an error of this crate. A store
/// that is unavailable or read-only and a missing entitlement are
/// `NoStorageAccess`, an item that was not found is `NoEntry`, and every
/// other code is a `PlatformFailure`; the code is kept wherever the error
/// has room for it.
pub fn decode_error(code: i32) -> (e: Error)
    ensures
        e@ == status_error(code),
{
    if code == ERR_SEC_NOT_AVAILABLE || code == ERR_SEC_READ_ONLY || code
        == ERR_SEC_MISSING_ENTITLEMENT {
        Error::NoStorageAccess(code)
    } else if code == ERR_SEC_ITEM_NOT_FOUND {
        Error::NoEntry
    } else {
        Error::PlatformFailure(code)
    }
}

/// The boolean that a flag's value names.
pub open spec fn flag_named(value: Seq<char>) -> Option<bool> {
    if value == "true"@ {
        Some(true)
    } else if value == "false"@ {
        Some(false)
    } else {
        None
    }
}

/// The keys that a search spec may hold.
pub open spec fn search_keys() -> Seq<Seq<char>> {
    seq!["service"@, "user"@, "access-group"@, "show-authentication-ui"@]
}

/// The group that a reported access group names: none where nothing or an
/// empty name was reported.
pub open spec fn named_group(reported: Option<Seq<char>>) -> Option<Seq<char>> {
    match reported {
        Some(group) => if group.len() > 0 {
            Some(group)
        } else {
            None
        },
        None => None,
    }
}

/// The wrapper that stands for a found item: it is pinned to the access
/// group that the platform reported. The platform does not tell the policy
/// an item was stored under, so the wrapper carries the default policy,
/// which need not be the policy of the stored item.
pub open spec fn wrapper_of(item: FoundItemView, cloud_synchronize: bool) -> CredView {
    CredView {
        service: item.service->0,
        account: item.account->0,
        access_group: named_group(item.access_group),
        access_policy: AccessPolicy::WhenUnlocked,
        cloud_synchronize,
    }
}

/// One wrapper for each usable item, in the order in which the items came.
pub open spec fn wrappers_of(found: Seq<FoundItemView>, cloud_synchronize: bool) -> Seq<CredView> {
    found.filter_map(
        |item: FoundItemView|
            if item.usable() {
                Some(wrapper_of(item, cloud_synchronize))
            } else {
                None
            },
    )
}

/// The keys that the configuration of a store may hold.
pub open spec fn configuration_keys() -> Seq<Seq<char>> {
    seq!["cloud-sync"@, "access-group"@, "access-policy"@]
}

/// The keys that the modifiers of an entry may hold.
pub open spec fn modifier_keys() -> Seq<Seq<char>> {
    seq!["access-group"@, "access-policy"@]
}

/// The policy that a map of entries asks for, or `fallback` where it asks
/// for none.
pub open spec fn policy_of(entries: Seq<(Seq<char>, Seq<char>)>, fallback: AccessPolicy) -> Result<
    AccessPolicy,
    ErrorView,
> {
    match value_of(entries, "access-policy"@) {
        Some(name) => parsed_policy(name),
        None => Ok(fallback),
    }
}

/// The store with the given identifier that a configuration describes, or
/// the error that refuses the configuration.
///
/// `cloud-sync` is `true` or `false`, and `false` where it is left out. A
/// configuration that asks for cloud synchronization in a build without the
/// `sync` feature is not supported. `access-group` names the group of the store's
/// credentials and may not be empty. `access-policy` names the policy of the
/// store's credentials; it is the default policy where it is left out, and
/// on a cloud-synchronized store it may not ask for the user in person.
pub open spec fn configured(
    config: Seq<(Seq<char>, Seq<char>)>,
    sync_available: bool,
    id: Seq<char>,
) -> Result<StoreView, ErrorView> {
    let cloud = match value_of(config, "cloud-sync"@) {
        Some(v) => flag_named(v),
        None => Some(false),
    };
    let group = value_of(config, "access-group"@);
    match cloud {
        None => Err(ErrorView::Invalid("cloud-sync"@, "must be true or false"@)),
        Some(cloud_synchronize) => if cloud_synchronize && !sync_available {
            Err(
                ErrorView::NotSupportedByStore(
                    "cloud-sync config requires a build with the \"sync\" feature"@,
                ),
            )
        } else if group matches Some(name) && name.len() == 0 {
            Err(ErrorView::Invalid("access-group"@, "cannot be empty"@))
        } else {
            match policy_of(config, AccessPolicy::WhenUnlocked) {
                Err(refusal) => Err(refusal),
                Ok(access_policy) => if cloud_synchronize && access_policy.interactive() {
                    Err(
                        ErrorView::Invalid(
                            "require-user-presence"@,
                            "not allowed in cloud-synchronized store"@,
                        ),
                    )
                } else {
                    Ok(
                        StoreView {
                            id,
                            access_group: group,
                            access_policy,
                            cloud_synchronize,
                        },
                    )
                },
            }
        },
    }
}

/// The identifier of the store that an outcome holds.
pub open spec fn id_of(r: Result<Arc<Store>, Error>) -> Seq<char> {
    match r {
        Ok(store) => store@.id,
        Err(_) => Seq::empty(),
    }
}

impl StoreView {
    /// The store's own settings hold together: its access group is not
    /// empty, and a cloud-synchronized store does not ask for the user in
    /// person.
    pub open spec fn wf(self) -> bool {
        &&& (self.access_group matches Some(group) ==> group.len() > 0)
        &&& !(self.cloud_synchronize && self.access_policy.interactive())
    }

    /// The credential that the store builds for a service and a user. The
    /// modifiers `access-policy` and `access-group` take the place of the
    /// store's own policy and group.
    pub open spec fn build(
        self,
        service: Seq<char>,
        user: Seq<char>,
        modifiers: Seq<(Seq<char>, Seq<char>)>,
    ) -> Result<CredView, ErrorView> {
        match policy_of(modifiers, self.access_policy) {
            Err(refusal) => Err(refusal),
            Ok(access_policy) => built(
                service,
                user,
                match value_of(modifiers, "access-group"@) {
                    Some(group) => Some(group),
                    None => self.access_group,
                },
                access_policy,
                self.cloud_synchronize,
            ),
        }
    }

    /// The query that a search spec stands for. Service, account and access
    /// group are matched exactly where the spec gives them. Without an
    /// access group in the spec the store's own group, if it has one, scopes
    /// the search. Items that ask for authentication are left out unless the
    /// spec sets `show-authentication-ui` to `true`.
    pub open spec fn search_query(self, spec: Seq<(Seq<char>, Seq<char>)>) -> Result<
        SearchQueryView,
        ErrorView,
    > {
        let show = match value_of(spec, "show-authentication-ui"@) {
            Some(v) => flag_named(v),
            None => Some(false),
        };
        match show {
            Some(show_ui) => Ok(
                SearchQueryView {
                    service: value_of(spec, "service"@),
                    account: value_of(spec, "user"@),
                    access_group: match value_of(spec, "access-group"@) {
                        Some(group) => Some(group),
                        None => self.access_group,
                    },
                    cloud_synchronize: self.cloud_synchronize,
                    skip_authenticated_items: !show_ui,
                },
            ),
            None => Err(
                ErrorView::Invalid("show-authentication-ui"@, "must be true or false"@),
            ),
        }
    }

}

impl SearchQueryView {
    /// What the search returns for the platform's answer: a wrapper for each
    /// usable item that was found, in the store that was searched, local or
    /// cloud-synchronized. That nothing was found is an empty result, never
    /// an error.
    pub open spec fn results(self, found: Result<Seq<FoundItemView>, i32>) -> Result<
        Seq<CredView>,
        ErrorView,
    > {
        match found {
            Ok(items) => Ok(wrappers_of(items, self.cloud_synchronize)),
            Err(code) => if code == ERR_SEC_ITEM_NOT_FOUND {
                Ok(Seq::empty())
            } else {
                Err(status_error(code))
            },
        }
    }
}

/// The flag that a text names, or `None` where it names none.
fn parse_flag(value: &str) -> (r: Option<bool>)
    ensures
        r == flag_named(value@),
{
    if str_eq(value, "true") {
        Some(true)
    } else if str_eq(value, "false") {
        Some(false)
    } else {
        None
    }
}

/// A copy of the access group that an item reports, if it names one.
fn group_of(item: &FoundItem) -> (r: Option<String>)
    ensures
        text_of(r) == named_group(item@.access_group),
{
    match &item.access_group {
        Some(group) => if group.as_str().is_empty() {
            None
        } else {
            Some(group.clone())
        },
        None => None,
    }
}

/// A wrapper for each usable item.
fn wrappers(found: &Vec<FoundItem>, cloud_synchronize: bool) -> (r: Vec<Cred>)
    ensures
        r.deep_view() == wrappers_of(found.deep_view(), cloud_synchronize),
        forall|i: int| 0 <= i < r.len() ==> (#[trigger] r[i])@.wf(),
{
    let ghost items = found.deep_view();
    let ghost pick = |item: FoundItemView|
        if item.usable() {
            Some(wrapper_of(item, cloud_synchronize))
        } else {
            None
        };
    let mut result: Vec<Cred> = Vec::new();
    let mut i: usize = 0;
    assert(result.deep_view() =~= items.take(0).filter_map(pick));
    while i < found.len()
        invariant
            i <= found.len(),
            items == found.deep_view(),
            pick == (|item: FoundItemView|
                if item.usable() {
                    Some(wrapper_of(item, cloud_synchronize))
                } else {
                    None
                }),
            result.deep_view() == items.take(i as int).filter_map(pick),
            forall|j: int| 0 <= j < result.len() ==> (#[trigger] result[j])@.wf(),
        decreases found.len() - i,
    {
        let item = &found[i];
        proof {
            items.lemma_filter_map_take_succ(pick, i as int);
            assert(items[i as int] == item@);
        }
        let ghost before = result.deep_view();
        match (&item.service, &item.account) {
            (Some(service), Some(account)) => {
                if !service.as_str().is_empty() && !account.as_str().is_empty() {
                    let wrapper = Cred {
                        service: service.clone(),
                        account: account.clone(),
                        access_group: group_of(item),
                        access_policy: AccessPolicy::WhenUnlocked,
                        cloud_synchronize,
                    };
                    assert(wrapper@ == wrapper_of(item@, cloud_synchronize));
                    assert(wrapper@.wf());
                    result.push(wrapper);
                    assert(result.deep_view() =~= before + seq![wrapper@]);
                }
            },
            _ => {},
        }
        i += 1;
    }
    assert(items.take(i as int) =~= items);
    result
}

/// The policy that parsed entries ask for, or `fallback` where they ask for
/// none.
fn choose_policy(entries: &Vec<(String, String)>, fallback: AccessPolicy) -> (r: Result<
    AccessPolicy,
    Error,
>)
    ensures
        describes(policy_of(entries.deep_view(), fallback), r),
{
    match value(entries, "access-policy") {
        Some(name) => AccessPolicy::from_str(name.as_str()),
        None => Ok(fallback),
    }
}

impl Store {
    /// Makes the default store: local to the device, with no access group
    /// of its own and the default policy.
    pub fn new() -> (r: Result<Arc<Store>, Error>)
        ensures
            r matches Ok(store) && store@.access_group is None && store@.access_policy
                == AccessPolicy::WhenUnlocked && !store@.cloud_synchronize && is_instance_id(
                store@.id,
            ) && store@.wf(),
    {
        Ok(Store::new_internal(None, AccessPolicy::WhenUnlocked, false))
    }

    /// Makes a store from a configuration.
    ///
    /// The configuration may hold the keys `cloud-sync`, `access-group` and
    /// `access-policy`; any other key is refused as
    /// `Invalid(key, "unknown key")`, before anything else is looked at.
    /// `sync_available` says whether the build at hand has the `sync`
    /// feature, by which the cloud-synchronized store is reached; a
    /// configuration that asks for cloud synchronization without it is
    /// `NotSupportedByStore`.
    pub fn new_with_configuration(config: &[(&str, &str)], sync_available: bool) -> (r: Result<
        Arc<Store>,
        Error,
    >)
        requires
            distinct_keys(config.deep_view()),
        ensures
            checked_outcome(
                configuration_keys(),
                config.deep_view(),
                configured(config.deep_view(), sync_available, id_of(r)),
                r,
            ),
            r matches Ok(store) ==> is_instance_id(store@.id) && store@.wf(),
    {
        let keys: [&str; 3] = ["cloud-sync", "access-group", "access-policy"];
        let listed: &[&str] = keys.as_slice();
        proof {
            reveal_strlit("cloud-sync");
            reveal_strlit("access-group");
            reveal_strlit("access-policy");
            assert(listed.deep_view() =~= configuration_keys());
            assert(plain_keys(configuration_keys()));
        }
        let parsed = match parse_attributes(listed, Some(config)) {
            Ok(parsed) => parsed,
            Err(refused) => {
                return Err(Error::Invalid(refused.0, refused.1));
            },
        };
        proof {
            lemma_same_entries_same_values(parsed.deep_view(), config.deep_view(), "cloud-sync"@);
            lemma_same_entries_same_values(parsed.deep_view(), config.deep_view(), "access-group"@);
            lemma_same_entries_same_values(
                parsed.deep_view(),
                config.deep_view(),
                "access-policy"@,
            );
        }
        let cloud_synchronize = match value(&parsed, "cloud-sync") {
            Some(v) => match parse_flag(v.as_str()) {
                Some(flag) => flag,
                None => {
                    return Err(invalid("cloud-sync", "must be true or false"));
                },
            },
            None => false,
        };
        if cloud_synchronize && !sync_available {
            return Err(
                Error::NotSupportedByStore(
                    String::from_str(
                        "cloud-sync config requires a build with the \"sync\" feature",
                    ),
                ),
            );
        }
        let access_group = match value(&parsed, "access-group") {
            Some(group) => {
                if group.as_str().is_empty() {
                    return Err(invalid("access-group", "cannot be empty"));
                }
                Some(group.clone())
            },
            None => None,
        };
        let access_policy = match choose_policy(&parsed, AccessPolicy::WhenUnlocked) {
            Ok(policy) => policy,
            Err(refusal) => {
                return Err(refusal);
            },
        };
        if cloud_synchronize && access_policy.is_interactive() {
            return Err(
                invalid("require-user-presence", "not allowed in cloud-synchronized store"),
            );
        }
        Ok(Store::new_internal(access_group, access_policy, cloud_synchronize))
    }

    /// Makes a store with the given settings and an identifier of its own,
    /// taken from the clock. The settings have to hold together: an access
    /// group has a name, and a cloud-synchronized store does not ask for the
    /// user in person.
    pub fn new_internal(
        access_group: Option<String>,
        access_policy: AccessPolicy,
        cloud_synchronize: bool,
    ) -> (store: Arc<Store>)
        requires
            access_group matches Some(group) ==> group@.len() > 0,
            !(cloud_synchronize && access_policy.interactive()),
        ensures
            store@.access_group == text_of(access_group),
            store@.access_policy == access_policy,
            store@.cloud_synchronize == cloud_synchronize,
            is_instance_id(store@.id),
            store@.wf(),
    {
        Arc::new(Store { id: fresh_instance_id(), access_group, access_policy, cloud_synchronize })
    }

    /// The name of the vendor of this store, the same for every instance.
    pub fn vendor(&self) -> (r: String)
        ensures
            r@ == "macOS/iOS Protected Store, https://crates.io/crates/apple-native-keyring-store"@,
    {
        String::from_str(
            "macOS/iOS Protected Store, https://crates.io/crates/apple-native-keyring-store",
        )
    }

    /// The identifier of this instance.
    pub fn id(&self) -> (r: String)
        ensures
            r@ == self@.id,
    {
        self.id.clone()
    }

    /// Credentials of this store are kept until they are deleted.
    pub fn persistence(&self) -> (r: CredentialPersistence)
        ensures
            r == CredentialPersistence::UntilDelete,
    {
        CredentialPersistence::UntilDelete
    }

    /// Makes a credential of this store for a service and a user. Nothing
    /// is put into the store by this.
    ///
    /// The modifiers may hold the keys `access-policy` and `access-group`,
    /// which take the place of the store's own policy and group for this
    /// credential; any other key is refused as `Invalid(key, "unknown key")`,
    /// before anything else is looked at.
    pub fn build(&self, service: &str, user: &str, modifiers: Option<&[(&str, &str)]>) -> (r:
        Result<Cred, Error>)
        requires
            distinct_keys(given(modifiers)),
        ensures
            checked_outcome(
                modifier_keys(),
                given(modifiers),
                self@.build(service@, user@, given(modifiers)),
                r,
            ),
            r matches Ok(cred) ==> cred@.wf(),
            service@.len() == 0 || user@.len() == 0 ==> r matches Err(Error::Invalid(_, _)),
            r matches Ok(cred) ==> !(self@.cloud_synchronize && cred@.access_policy.interactive()),
    {
        let keys: [&str; 2] = ["access-group", "access-policy"];
        let listed: &[&str] = keys.as_slice();
        proof {
            reveal_strlit("access-group");
            reveal_strlit("access-policy");
            assert(listed.deep_view() =~= modifier_keys());
            assert(plain_keys(modifier_keys()));
        }
        let parsed = match parse_attributes(listed, modifiers) {
            Ok(parsed) => parsed,
            Err(refused) => {
                return Err(Error::Invalid(refused.0, refused.1));
            },
        };
        proof {
            lemma_same_entries_same_values(parsed.deep_view(), given(modifiers), "access-group"@);
            lemma_same_entries_same_values(parsed.deep_view(), given(modifiers), "access-policy"@);
        }
        let access_policy = match choose_policy(&parsed, self.access_policy) {
            Ok(policy) => policy,
            Err(refusal) => {
                return Err(refusal);
            },
        };
        let access_group: Option<&str> = match value(&parsed, "access-group") {
            Some(group) => Some(group.as_str()),
            None => match &self.access_group {
                Some(group) => Some(group.as_str()),
                None => None,
            },
        };
        Cred::build(service, user, access_group, access_policy, self.cloud_synchronize)
    }

    /// The query to put to the platform for a search spec.
    ///
    /// The spec may hold the keys `service`, `user`, `access-group` and
    /// `show-authentication-ui`; any other key is refused as
    /// `Invalid(key, "unknown key")`, before anything else is looked at.
    pub fn search_query(&self, spec: &[(&str, &str)]) -> (r: Result<SearchQuery, Error>)
        requires
            distinct_keys(spec.deep_view()),
        ensures
            checked_outcome(
                search_keys(),
                spec.deep_view(),
                self@.search_query(spec.deep_view()),
                r,
            ),
    {
        let keys: [&str; 4] = ["service", "user", "access-group", "show-authentication-ui"];
        let listed: &[&str] = keys.as_slice();
        proof {
            reveal_strlit("service");
            reveal_strlit("user");
            reveal_strlit("access-group");
            reveal_strlit("show-authentication-ui");
            assert(listed.deep_view() =~= search_keys());
            assert(plain_keys(search_keys()));
        }
        let parsed = match parse_attributes(listed, Some(spec)) {
            Ok(parsed) => parsed,
            Err(refused) => {
                return Err(Error::Invalid(refused.0, refused.1));
            },
        };
        proof {
            lemma_same_entries_same_values(parsed.deep_view(), spec.deep_view(), "service"@);
            lemma_same_entries_same_values(parsed.deep_view(), spec.deep_view(), "user"@);
            lemma_same_entries_same_values(parsed.deep_view(), spec.deep_view(), "access-group"@);
            lemma_same_entries_same_values(
                parsed.deep_view(),
                spec.deep_view(),
                "show-authentication-ui"@,
            );
        }
        let show_ui = match value(&parsed, "show-authentication-ui") {
            Some(v) => match parse_flag(v.as_str()) {
                Some(flag) => flag,
                None => {
                    return Err(invalid("show-authentication-ui", "must be true or false"));
                },
            },
            None => false,
        };
        let access_group = match value(&parsed, "access-group") {
            Some(group) => Some(group.clone()),
            None => copy_text(&self.access_group),
        };
        Ok(
            SearchQuery {
                service: owned(value(&parsed, "service")),
                account: owned(value(&parsed, "user")),
                access_group,
                cloud_synchronize: self.cloud_synchronize,
                skip_authenticated_items: !show_ui,
            },
        )
    }
}

impl SearchQuery {
    /// The result of the search, from the platform's answer to the query.
    pub fn results(&self, found: Result<Vec<FoundItem>, i32>) -> (r: Result<Vec<Cred>, Error>)
        ensures
            describes(self@.results(reported(found)), r),
            r matches Ok(creds) ==> forall|i: int|
                0 <= i < creds.len() ==> (#[trigger] creds[i])@.wf(),
            !(r matches Err(Error::NoEntry)),
    {
        match found {
            Ok(items) => Ok(wrappers(&items, self.cloud_synchronize)),
            Err(code) => if code == ERR_SEC_ITEM_NOT_FOUND {
                let none: Vec<Cred> = Vec::new();
                assert(none.deep_view() =~= Seq::<CredView>::empty());
                Ok(none)
            } else {
                Err(decode_error(code))
            },
        }
    }
}

} // verus!
