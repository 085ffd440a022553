//! The legacy keychain store of macOS.
//!
//! The operating system keeps four keychains, called User (the login
//! keychain), System, Common and Dynamic. A store works on one of them. A
//! credential is a generic password of that keychain, named by a service and
//! an account; within one keychain the two name at most one item, so a
//! credential of this store is never ambiguous.
//!
//! The key `keychain` selects the keychain: in the configuration of a store,
//! in the modifiers of an entry, where it takes the place of the store's
//! keychain, and in a search spec, which may also give the `service` and
//! the `user` to match.

use crate::attributes::distinct_keys;
use crate::attributes::given;
use crate::attributes::lemma_same_entries_same_values;
use crate::attributes::parse_attributes;
use crate::attributes::plain_keys;
use crate::attributes::value;
use crate::attributes::value_of;
use crate::error::checked_outcome;
use crate::error::describes;
use crate::error::Error;
use crate::error::ErrorView;
use crate::error::invalid;
use crate::instance::fresh_instance_id;
use crate::instance::is_instance_id;
use crate::persistence::CredentialPersistence;
use crate::platform::ERR_SEC_INVALID_KEYCHAIN;
use crate::platform::ERR_SEC_ITEM_NOT_FOUND;
use crate::platform::ERR_SEC_NO_SUCH_KEYCHAIN;
use crate::platform::ERR_SEC_NOT_AVAILABLE;
use crate::platform::ERR_SEC_READ_ONLY;
use crate::platform::FoundItem;
use crate::platform::FoundItemView;
use crate::platform::owned;
use crate::platform::reported;
use crate::platform::text_of;
use crate::text::ascii_lower;
use crate::text::str_eq;
use crate::text::to_ascii_lowercase;
use std::sync::Arc;
use vstd::prelude::*;
use vstd::string::StringExecFns;

verus! {

/// The four keychains that the operating system defines.
#[derive(Debug, Clone, Copy, PartialEq, Eq, Hash, Structural)]
pub enum MacKeychainDomain {
    /// The keychain of the user who is logged in, also called the login
    /// keychain.
    User,
    /// The keychain of the system.
    System,
    /// The keychain that all users share.
    Common,
    /// The keychain of removable media.
    Dynamic,
}

impl View for MacKeychainDomain {
    type V = MacKeychainDomain;

    open spec fn view(&self) -> MacKeychainDomain {
        *self
    }
}

impl DeepView for MacKeychainDomain {
    type V = MacKeychainDomain;

    open spec fn deep_view(&self) -> MacKeychainDomain {
        *self
    }
}

/// The keychain that a lower-case name stands for.
pub open spec fn domain_named(name: Seq<char>) -> Option<MacKeychainDomain> {
    if name == "user"@ {
        Some(MacKeychainDomain::User)
    } else if name == "system"@ {
        Some(MacKeychainDomain::System)
    } else if name == "common"@ {
        Some(MacKeychainDomain::Common)
    } else if name == "dynamic"@ {
        Some(MacKeychainDomain::Dynamic)
    } else {
        None
    }
}

/// The keychain that a text names, whatever the case of its ASCII letters,
/// or the error that refuses the text.
pub open spec fn parsed_domain(s: Seq<char>) -> Result<MacKeychainDomain, ErrorView> {
    match domain_named(ascii_lower(s)) {
        Some(domain) => Ok(domain),
        None => Err(
            ErrorView::Invalid(
                "keychain"@,
                "'"@ + s + "' is not User, System, Common, or Dynamic"@,
            ),
        ),
    }
}

impl MacKeychainDomain {
    /// The name of the keychain.
    pub open spec fn name_text(self) -> Seq<char> {
        match self {
            MacKeychainDomain::User => "User"@,
            MacKeychainDomain::System => "System"@,
            MacKeychainDomain::Common => "Common"@,
            MacKeychainDomain::Dynamic => "Dynamic"@,
        }
    }

    /// Reads a keychain from its name. The case of ASCII letters does not
    /// matter. A text that names no keychain is refused as
    /// `Invalid("keychain", ..)`, with the text in the reason.
    pub fn from_str(s: &str) -> (r: Result<MacKeychainDomain, Error>)
        ensures
            describes(parsed_domain(s@), r),
    {
        let lower = to_ascii_lowercase(s);
        let name = lower.as_str();
        if str_eq(name, "user") {
            Ok(MacKeychainDomain::User)
        } else if str_eq(name, "system") {
            Ok(MacKeychainDomain::System)
        } else if str_eq(name, "common") {
            Ok(MacKeychainDomain::Common)
        } else if str_eq(name, "dynamic") {
            Ok(MacKeychainDomain::Dynamic)
        } else {
            let mut reason = String::from_str("'");
            reason.append(s);
            reason.append("' is not User, System, Common, or Dynamic");
            Err(Error::Invalid(String::from_str("keychain"), reason))
        }
    }

    /// Writes the name of the keychain.
    pub fn to_string(&self) -> (r: String)
        ensures
            r@ == self.name_text(),
    {
        match self {
            MacKeychainDomain::User => String::from_str("User"),
            MacKeychainDomain::System => String::from_str("System"),
            MacKeychainDomain::Common => String::from_str("Common"),
            MacKeychainDomain::Dynamic => String::from_str("Dynamic"),
        }
    }
}

/// The name that is written for a keychain reads back as that keychain.
pub proof fn lemma_written_names_read_back(domain: MacKeychainDomain)
    ensures
        parsed_domain(domain.name_text()) == Ok::<MacKeychainDomain, ErrorView>(domain),
{
    reveal_strlit("User");
    reveal_strlit("System");
    reveal_strlit("Common");
    reveal_strlit("Dynamic");
    reveal_strlit("user");
    reveal_strlit("system");
    reveal_strlit("common");
    reveal_strlit("dynamic");
    assert(ascii_lower("User"@) =~= "user"@);
    assert(ascii_lower("System"@) =~= "system"@);
    assert(ascii_lower("Common"@) =~= "common"@);
    assert(ascii_lower("Dynamic"@) =~= "dynamic"@);
    assert("user"@.len() == 4 && "system"@.len() == 6 && "common"@.len() == 6 && "dynamic"@.len()
        == 7);
    assert("system"@[0] == 's' && "common"@[0] == 'c');
}

/// The representation of a generic password of a keychain.
///
/// The stored item may have many more attributes than these; this crate
/// neither reads nor writes them.
#[derive(Debug, Clone, PartialEq, Eq)]
pub struct Cred {
    pub domain: MacKeychainDomain,
    pub service: String,
    pub account: String,
}

/// The mathematical value of a [`Cred`].
pub struct CredView {
    pub domain: MacKeychainDomain,
    pub service: Seq<char>,
    pub account: Seq<char>,
}

impl View for Cred {
    type V = CredView;

    open spec fn view(&self) -> CredView {
        CredView { domain: self.domain, service: self.service@, account: self.account@ }
    }
}

impl DeepView for Cred {
    type V = CredView;

    open spec fn deep_view(&self) -> CredView {
        self@
    }
}

impl CredView {
    /// Neither service nor account is empty.
    pub open spec fn wf(self) -> bool {
        self.service.len() > 0 && self.account.len() > 0
    }

    /// The one attribute that a credential of this store shows: the name of
    /// its keychain, under the key `keychain`.
    pub open spec fn attributes(self) -> Seq<(Seq<char>, Seq<char>)> {
        seq![("keychain"@, self.domain.name_text())]
    }
}

/// The credential that the given parts make, or the error that refuses
/// them. An empty service is refused, and then an empty account.
pub open spec fn built(keychain: MacKeychainDomain, service: Seq<char>, user: Seq<char>) -> Result<
    CredView,
    ErrorView,
> {
    if service.len() == 0 {
        Err(ErrorView::Invalid("service"@, "cannot be empty"@))
    } else if user.len() == 0 {
        Err(ErrorView::Invalid("user"@, "cannot be empty"@))
    } else {
        Ok(CredView { domain: keychain, service, account: user })
    }
}

/// The error that stands for a status code of the platform.
pub open spec fn status_error(code: i32) -> ErrorView {
    if code == ERR_SEC_NOT_AVAILABLE || code == ERR_SEC_READ_ONLY || code
        == ERR_SEC_NO_SUCH_KEYCHAIN || code == ERR_SEC_INVALID_KEYCHAIN {
        ErrorView::NoStorageAccess(code)
    } else if code == ERR_SEC_ITEM_NOT_FOUND {
        ErrorView::NoEntry
    } else {
        ErrorView::PlatformFailure(code)
    }
}

/// Maps a status code of the platform to an error of this crate. A keychain
/// that is unavailable, read-only, absent or invalid is `NoStorageAccess`,
/// an item that was not found is `NoEntry`, and every other code is a
/// `PlatformFailure`; the code is kept wherever the error has room for it.
pub fn decode_error(code: i32) -> (e: Error)
    ensures
        e@ == status_error(code),
{
    if code == ERR_SEC_NOT_AVAILABLE || code == ERR_SEC_READ_ONLY || code
        == ERR_SEC_NO_SUCH_KEYCHAIN || code == ERR_SEC_INVALID_KEYCHAIN {
        Error::NoStorageAccess(code)
    } else if code == ERR_SEC_ITEM_NOT_FOUND {
        Error::NoEntry
    } else {
        Error::PlatformFailure(code)
    }
}

/// Reads the platform's answer to a request to store, fetch or delete an
/// item: what it handed back, or the error that stands for the status code
/// it failed with.
pub fn outcome<T>(answer: Result<T, i32>) -> (r: Result<T, Error>)
    ensures
        match answer {
            Ok(value) => r == Ok::<T, Error>(value),
            Err(code) => r matches Err(error) && error@ == status_error(code),
        },
{
    match answer {
        Ok(value) => Ok(value),
        Err(code) => Err(decode_error(code)),
    }
}

impl Cred {
    /// Makes a credential for a generic password of a keychain. Nothing is
    /// put into the keychain by this.
    ///
    /// An empty service or account is refused, because the platform reads an
    /// empty attribute as a wildcard.
    pub fn build(keychain: MacKeychainDomain, service: &str, user: &str) -> (r: Result<Cred, Error>)
        ensures
            describes(built(keychain, service@, user@), r),
            r matches Ok(cred) ==> cred@.wf(),
            service@.len() == 0 || user@.len() == 0 ==> r matches Err(Error::Invalid(_, _)),
    {
        if service.is_empty() {
            return Err(invalid("service", "cannot be empty"));
        }
        if user.is_empty() {
            return Err(invalid("user", "cannot be empty"));
        }
        Ok(Cred { domain: keychain, service: service.to_owned(), account: user.to_owned() })
    }

    /// The attributes of the credential, given the platform's answer to the
    /// question whether its item is there. There is one attribute: the name
    /// of the keychain, under the key `keychain`. Without the item there is
    /// the error that stands for the answer's status code.
    pub fn get_attributes(&self, found: Result<(), i32>) -> (r: Result<
        Vec<(String, String)>,
        Error,
    >)
        ensures
            match found {
                Ok(_) => r matches Ok(attributes) && attributes.deep_view() == self@.attributes(),
                Err(code) => r matches Err(error) && error@ == status_error(code),
            },
    {
        match found {
            Ok(_) => {
                let mut attributes: Vec<(String, String)> = Vec::new();
                attributes.push((String::from_str("keychain"), self.domain.to_string()));
                assert(attributes.deep_view() =~= self@.attributes());
                Ok(attributes)
            },
            Err(code) => Err(decode_error(code)),
        }
    }

    /// Resolves the credential, given the platform's answer to the question
    /// whether its item is there. A credential of this store addresses one
    /// item, so with the item there it resolves to itself, which `None`
    /// says. Without the item there is the error that stands for the answer's
    /// status code.
    pub fn get_credential(&self, found: Result<(), i32>) -> (r: Result<Option<Cred>, Error>)
        ensures
            match found {
                Ok(_) => r matches Ok(None),
                Err(code) => r matches Err(error) && error@ == status_error(code),
            },
    {
        match found {
            Ok(_) => Ok(None),
            Err(code) => Err(decode_error(code)),
        }
    }

    /// The keychain that holds the credential's item.
    pub fn keychain(&self) -> (r: MacKeychainDomain)
        ensures
            r == self.domain,
    {
        self.domain
    }

    /// The service and the account that the credential was made for.
    pub fn get_specifiers(&self) -> (r: Option<(String, String)>)
        ensures
            r matches Some(pair) && pair.0@ == self.service@ && pair.1@ == self.account@,
    {
        Some((self.service.clone(), self.account.clone()))
    }
}

/// A gateway to one of the keychains.
#[derive(Debug)]
pub struct Store {
    id: String,
    keychain: MacKeychainDomain,
}

/// The mathematical value of a [`Store`].
pub struct StoreView {
    pub id: Seq<char>,
    pub keychain: MacKeychainDomain,
}

impl View for Store {
    type V = StoreView;

    closed spec fn view(&self) -> StoreView {
        StoreView { id: self.id@, keychain: self.keychain }
    }
}

impl DeepView for Store {
    type V = StoreView;

    open spec fn deep_view(&self) -> StoreView {
        self@
    }
}

/// What a search asks of the platform. Every search is for generic
/// passwords, without a limit on their number, and asks for the attributes
/// of each.
#[derive(Debug, Clone, PartialEq, Eq)]
pub struct SearchQuery {
    /// Only items of this keychain.
    pub domain: MacKeychainDomain,
    /// Only items of exactly this service.
    pub service: Option<String>,
    /// Only items of exactly this account.
    pub account: Option<String>,
}

/// The mathematical value of a [`SearchQuery`].
pub struct SearchQueryView {
    pub domain: MacKeychainDomain,
    pub service: Option<Seq<char>>,
    pub account: Option<Seq<char>>,
}

impl View for SearchQuery {
    type V = SearchQueryView;

    open spec fn view(&self) -> SearchQueryView {
        SearchQueryView {
            domain: self.domain,
            service: text_of(self.service),
            account: text_of(self.account),
        }
    }
}

impl DeepView for SearchQuery {
    type V = SearchQueryView;

    open spec fn deep_view(&self) -> SearchQueryView {
        self@
    }
}

/// The keys that a configuration and the modifiers of an entry may hold.
pub open spec fn keychain_keys() -> Seq<Seq<char>> {
    seq!["keychain"@]
}

/// The keys that a search spec may hold.
pub open spec fn search_keys() -> Seq<Seq<char>> {
    seq!["service"@, "user"@, "keychain"@]
}

/// The keychain that a map of entries asks for under the key `keychain`, or
/// `fallback` where it asks for none.
pub open spec fn domain_of(
    entries: Seq<(Seq<char>, Seq<char>)>,
    fallback: MacKeychainDomain,
) -> Result<MacKeychainDomain, ErrorView> {
    match value_of(entries, "keychain"@) {
        Some(name) => parsed_domain(name),
        None => Ok(fallback),
    }
}

/// The store with the given identifier that a configuration describes, or
/// the error that refuses the configuration. Without the key `keychain` the
/// store works on the User keychain.
pub open spec fn configured(config: Seq<(Seq<char>, Seq<char>)>, id: Seq<char>) -> Result<
    StoreView,
    ErrorView,
> {
    match domain_of(config, MacKeychainDomain::User) {
        Ok(keychain) => Ok(StoreView { id, keychain }),
        Err(refusal) => Err(refusal),
    }
}

/// The identifier of the store that an outcome holds.
pub open spec fn id_of(r: Result<Arc<Store>, Error>) -> Seq<char> {
    match r {
        Ok(store) => store@.id,
        Err(_) => Seq::empty(),
    }
}

/// The wrapper that stands for an item found in a keychain.
pub open spec fn wrapper_of(item: FoundItemView, domain: MacKeychainDomain) -> CredView {
    CredView { domain, service: item.service->0, account: item.account->0 }
}

/// One wrapper for each usable item, in the order in which the items came.
pub open spec fn wrappers_of(found: Seq<FoundItemView>, domain: MacKeychainDomain) -> Seq<
    CredView,
> {
    found.filter_map(
        |item: FoundItemView|
            if item.usable() {
                Some(wrapper_of(item, domain))
            } else {
                None
            },
    )
}

impl StoreView {
    /// The credential that the store builds for a service and a user. The
    /// modifier `keychain` takes the place of the store's own keychain.
    pub open spec fn build(
        self,
        service: Seq<char>,
        user: Seq<char>,
        modifiers: Seq<(Seq<char>, Seq<char>)>,
    ) -> Result<CredView, ErrorView> {
        match domain_of(modifiers, self.keychain) {
            Ok(keychain) => built(keychain, service, user),
            Err(refusal) => Err(refusal),
        }
    }

    /// The query that a search spec stands for: service and account are
    /// matched exactly where the spec gives them, within the keychain that
    /// the spec names under `keychain`, or within the store's own where it
    /// names none.
    pub open spec fn search_query(self, spec: Seq<(Seq<char>, Seq<char>)>) -> Result<
        SearchQueryView,
        ErrorView,
    > {
        match domain_of(spec, self.keychain) {
            Ok(domain) => Ok(
                SearchQueryView {
                    domain,
                    service: value_of(spec, "service"@),
                    account: value_of(spec, "user"@),
                },
            ),
            Err(refusal) => Err(refusal),
        }
    }
}

impl SearchQueryView {
    /// What the search returns for the platform's answer: a wrapper for each
    /// usable item that was found, in the keychain that was searched. That
    /// nothing was found is an empty result, never an error.
    pub open spec fn results(self, found: Result<Seq<FoundItemView>, i32>) -> Result<
        Seq<CredView>,
        ErrorView,
    > {
        match found {
            Ok(items) => Ok(wrappers_of(items, self.domain)),
            Err(code) => if code == ERR_SEC_ITEM_NOT_FOUND {
                Ok(Seq::empty())
            } else {
                Err(status_error(code))
            },
        }
    }
}

/// A credential with an empty service or an empty account is never built:
/// neither directly nor by a store, whatever the store and the modifiers,
/// and the refusal is `Invalid`.
pub proof fn lemma_empty_names_are_refused(
    store: StoreView,
    keychain: MacKeychainDomain,
    service: Seq<char>,
    user: Seq<char>,
    modifiers: Seq<(Seq<char>, Seq<char>)>,
)
    requires
        service.len() == 0 || user.len() == 0,
    ensures
        built(keychain, service, user) matches Err(ErrorView::Invalid(_, _)),
        store.build(service, user, modifiers) matches Err(ErrorView::Invalid(_, _)),
{
}

/// Two stores of the same keychain behave alike: what they build and what
/// they search for does not depend on their identifiers.
pub proof fn lemma_stores_of_same_keychain_behave_alike(
    one: StoreView,
    other: StoreView,
    service: Seq<char>,
    user: Seq<char>,
    entries: Seq<(Seq<char>, Seq<char>)>,
)
    requires
        one.keychain == other.keychain,
    ensures
        one.build(service, user, entries) == other.build(service, user, entries),
        one.search_query(entries) == other.search_query(entries),
{
}

/// The keychain that parsed entries ask for, or `fallback` where they ask
/// for none.
fn choose_domain(entries: &Vec<(String, String)>, fallback: MacKeychainDomain) -> (r: Result<
    MacKeychainDomain,
    Error,
>)
    ensures
        describes(domain_of(entries.deep_view(), fallback), r),
{
    match value(entries, "keychain") {
        Some(name) => MacKeychainDomain::from_str(name.as_str()),
        None => Ok(fallback),
    }
}

/// A wrapper for each usable item.
fn wrappers(found: &Vec<FoundItem>, domain: MacKeychainDomain) -> (r: Vec<Cred>)
    ensures
        r.deep_view() == wrappers_of(found.deep_view(), domain),
        forall|i: int| 0 <= i < r.len() ==> (#[trigger] r[i])@.wf(),
{
    let ghost items = found.deep_view();
    let ghost pick = |item: FoundItemView|
        if item.usable() {
            Some(wrapper_of(item, domain))
        } else {
            None
        };
    let mut result: Vec<Cred> = Vec::new();
    let mut i: usize = 0;
    assert(result.deep_view() =~= items.take(0).filter_map(pick));
    while i < found.len()
        invariant
            i <= found.len(),
            items == found.deep_view(),
            pick == (|item: FoundItemView|
                if item.usable() {
                    Some(wrapper_of(item, domain))
                } else {
                    None
                }),
            result.deep_view() == items.take(i as int).filter_map(pick),
            forall|j: int| 0 <= j < result.len() ==> (#[trigger] result[j])@.wf(),
        decreases found.len() - i,
    {
        let item = &found[i];
        proof {
            items.lemma_filter_map_take_succ(pick, i as int);
            assert(items[i as int] == item@);
        }
        let ghost before = result.deep_view();
        match (&item.service, &item.account) {
            (Some(service), Some(account)) => {
                if !service.as_str().is_empty() && !account.as_str().is_empty() {
                    let wrapper = Cred {
                        domain,
                        service: service.clone(),
                        account: account.clone(),
                    };
                    assert(wrapper@ == wrapper_of(item@, domain));
                    result.push(wrapper);
                    assert(result.deep_view() =~= before + seq![wrapper@]);
                }
            },
            _ => {},
        }
        i += 1;
    }
    assert(items.take(i as int) =~= items);
    result
}

impl Store {
    /// Makes the default store, which works on the User keychain.
    pub fn new() -> (r: Result<Arc<Store>, Error>)
        ensures
            r matches Ok(store) && store@.keychain == MacKeychainDomain::User && is_instance_id(
                store@.id,
            ),
    {
        Ok(Store::new_internal(MacKeychainDomain::User))
    }

    /// Makes a store from a configuration.
    ///
    /// The configuration may hold the key `keychain`, whose value names the
    /// keychain to work on; any other key is refused as
    /// `Invalid(key, "unknown key")`, before anything else is looked at.
    pub fn new_with_configuration(configuration: &[(&str, &str)]) -> (r: Result<Arc<Store>, Error>)
        requires
            distinct_keys(configuration.deep_view()),
        ensures
            checked_outcome(
                keychain_keys(),
                configuration.deep_view(),
                configured(configuration.deep_view(), id_of(r)),
                r,
            ),
            r matches Ok(store) ==> is_instance_id(store@.id),
    {
        let keys: [&str; 1] = ["keychain"];
        let listed: &[&str] = keys.as_slice();
        proof {
            reveal_strlit("keychain");
            assert(listed.deep_view() =~= keychain_keys());
            assert(plain_keys(keychain_keys()));
        }
        let parsed = match parse_attributes(listed, Some(configuration)) {
            Ok(parsed) => parsed,
            Err(refused) => {
                return Err(Error::Invalid(refused.0, refused.1));
            },
        };
        proof {
            lemma_same_entries_same_values(
                parsed.deep_view(),
                configuration.deep_view(),
                "keychain"@,
            );
        }
        match choose_domain(&parsed, MacKeychainDomain::User) {
            Ok(keychain) => Ok(Store::new_internal(keychain)),
            Err(refusal) => Err(refusal),
        }
    }

    /// Makes a store that works on the given keychain, with an identifier of
    /// its own, taken from the clock.
    pub fn new_internal(keychain: MacKeychainDomain) -> (store: Arc<Store>)
        ensures
            store@.keychain == keychain,
            is_instance_id(store@.id),
    {
        Arc::new(Store { id: fresh_instance_id(), keychain })
    }

    /// The name of the vendor of this store, the same for every instance.
    pub fn vendor(&self) -> (r: String)
        ensures
            r@ == "macOS Keychain Store, https://crates.io/crates/apple-native-keyring-store"@,
    {
        String::from_str(
            "macOS Keychain Store, https://crates.io/crates/apple-native-keyring-store",
        )
    }

    /// The identifier of this instance.
    pub fn id(&self) -> (r: String)
        ensures
            r@ == self@.id,
    {
        self.id.clone()
    }

    /// Credentials of this store are kept until they are deleted.
    pub fn persistence(&self) -> (r: CredentialPersistence)
        ensures
            r == CredentialPersistence::UntilDelete,
    {
        CredentialPersistence::UntilDelete
    }

    /// Makes a credential of this store for a service and a user. Nothing
    /// is put into the keychain by this.
    ///
    /// The modifiers may hold the key `keychain`, whose value names the
    /// keychain of this credential in place of the store's own; any other
    /// key is refused as `Invalid(key, "unknown key")`, before anything else
    /// is looked at.
    pub fn build(&self, service: &str, user: &str, modifiers: Option<&[(&str, &str)]>) -> (r:
        Result<Cred, Error>)
        requires
            distinct_keys(given(modifiers)),
        ensures
            checked_outcome(
                keychain_keys(),
                given(modifiers),
                self@.build(service@, user@, given(modifiers)),
                r,
            ),
            r matches Ok(cred) ==> cred@.wf(),
            service@.len() == 0 || user@.len() == 0 ==> r matches Err(Error::Invalid(_, _)),
    {
        let keys: [&str; 1] = ["keychain"];
        let listed: &[&str] = keys.as_slice();
        proof {
            reveal_strlit("keychain");
            assert(listed.deep_view() =~= keychain_keys());
            assert(plain_keys(keychain_keys()));
        }
        let parsed = match parse_attributes(listed, modifiers) {
            Ok(parsed) => parsed,
            Err(refused) => {
                return Err(Error::Invalid(refused.0, refused.1));
            },
        };
        proof {
            lemma_same_entries_same_values(parsed.deep_view(), given(modifiers), "keychain"@);
        }
        match choose_domain(&parsed, self.keychain) {
            Ok(keychain) => Cred::build(keychain, service, user),
            Err(refusal) => Err(refusal),
        }
    }

    /// The query to put to the platform for a search spec.
    ///
    /// The spec may hold the keys `service`, `user` and `keychain`; any other
    /// key is refused as `Invalid(key, "unknown key")`, before anything else
    /// is looked at.
    pub fn search_query(&self, spec: &[(&str, &str)]) -> (r: Result<SearchQuery, Error>)
        requires
            distinct_keys(spec.deep_view()),
        ensures
            checked_outcome(
                search_keys(),
                spec.deep_view(),
                self@.search_query(spec.deep_view()),
                r,
            ),
    {
        let keys: [&str; 3] = ["service", "user", "keychain"];
        let listed: &[&str] = keys.as_slice();
        proof {
            reveal_strlit("service");
            reveal_strlit("user");
            reveal_strlit("keychain");
            assert(listed.deep_view() =~= search_keys());
            assert(plain_keys(search_keys()));
        }
        let parsed = match parse_attributes(listed, Some(spec)) {
            Ok(parsed) => parsed,
            Err(refused) => {
                return Err(Error::Invalid(refused.0, refused.1));
            },
        };
        proof {
            lemma_same_entries_same_values(parsed.deep_view(), spec.deep_view(), "service"@);
            lemma_same_entries_same_values(parsed.deep_view(), spec.deep_view(), "user"@);
            lemma_same_entries_same_values(parsed.deep_view(), spec.deep_view(), "keychain"@);
        }
        match choose_domain(&parsed, self.keychain) {
            Ok(domain) => Ok(
                SearchQuery {
                    domain,
                    service: owned(value(&parsed, "service")),
                    account: owned(value(&parsed, "user")),
                },
            ),
            Err(refusal) => Err(refusal),
        }
    }
}

impl SearchQuery {
    /// The result of the search, from the platform's answer to the query.
    pub fn results(&self, found: Result<Vec<FoundItem>, i32>) -> (r: Result<Vec<Cred>, Error>)
        ensures
            describes(self@.results(reported(found)), r),
            r matches Ok(creds) ==> forall|i: int|
                0 <= i < creds.len() ==> (#[trigger] creds[i])@.wf(),
            !(r matches Err(Error::NoEntry)),
    {
        match found {
            Ok(items) => Ok(wrappers(&items, self.domain)),
            Err(code) => if code == ERR_SEC_ITEM_NOT_FOUND {
                let none: Vec<Cred> = Vec::new();
                assert(none.deep_view() =~= Seq::<CredView>::empty());
                Ok(none)
            } else {
                Err(decode_error(code))
            },
        }
    }
}

} // verus!
