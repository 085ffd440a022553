//! The plain values that cross between this crate and the platform's
//! secure-storage service: status codes and the attributes of found items.

use crate::attributes::value;
use crate::attributes::value_of;
use vstd::prelude::*;

verus! {

/// Status: no keychain is available.
pub const ERR_SEC_NOT_AVAILABLE: i32 = -25291;

/// Status: the keychain is read-only.
pub const ERR_SEC_READ_ONLY: i32 = -25292;

/// Status: the named keychain does not exist.
pub const ERR_SEC_NO_SUCH_KEYCHAIN: i32 = -25294;

/// Status: the keychain is not valid.
pub const ERR_SEC_INVALID_KEYCHAIN: i32 = -25295;

/// Status: no item matches.
pub const ERR_SEC_ITEM_NOT_FOUND: i32 = -25300;

/// Status: the application lacks an entitlement that the call needs.
pub const ERR_SEC_MISSING_ENTITLEMENT: i32 = -34018;

/// What the platform reports of one stored item: its service, account and
/// access-group attributes, each absent where the item's attribute
/// dictionary lacks it.
#[derive(Debug, Clone, PartialEq, Eq)]
pub struct FoundItem {
    pub service: Option<String>,
    pub account: Option<String>,
    pub access_group: Option<String>,
}

/// The mathematical value of a [`FoundItem`].
pub struct FoundItemView {
    pub service: Option<Seq<char>>,
    pub account: Option<Seq<char>>,
    pub access_group: Option<Seq<char>>,
}

impl View for FoundItem {
    type V = FoundItemView;

    open spec fn view(&self) -> FoundItemView {
        FoundItemView {
            service: text_of(self.service),
            account: text_of(self.account),
            access_group: text_of(self.access_group),
        }
    }
}

impl DeepView for FoundItem {
    type V = FoundItemView;

    open spec fn deep_view(&self) -> FoundItemView {
        self@
    }
}

/// The platform's answer to a request, in mathematical values: what it
/// found, or the status code it failed with.
pub open spec fn reported<T: DeepView>(answer: Result<T, i32>) -> Result<T::V, i32> {
    match answer {
        Ok(found) => Ok(found.deep_view()),
        Err(code) => Err(code),
    }
}

/// The characters of an optional string.
pub open spec fn text_of(s: Option<String>) -> Option<Seq<char>> {
    match s {
        Some(t) => Some(t@),
        None => None,
    }
}

impl FoundItemView {
    /// The item names a service and an account, neither of them empty, so a
    /// credential can stand for it.
    pub open spec fn usable(self) -> bool {
        &&& self.service matches Some(s)
        &&& s.len() > 0
        &&& self.account matches Some(a)
        &&& a.len() > 0
    }
}

/// What an attribute dictionary reports of its item. The platform files the
/// service under `svce`, the account under `acct` and the access group
/// under `agrp`.
pub open spec fn found_in(attributes: Seq<(Seq<char>, Seq<char>)>) -> FoundItemView {
    FoundItemView {
        service: value_of(attributes, "svce"@),
        account: value_of(attributes, "acct"@),
        access_group: value_of(attributes, "agrp"@),
    }
}

impl FoundItem {
    /// Reads what the platform reports of an item from the item's attribute
    /// dictionary, given as its entries. Other attributes are passed over.
    pub fn from_attributes(attributes: &Vec<(String, String)>) -> (item: FoundItem)
        ensures
            item@ == found_in(attributes.deep_view()),
    {
        FoundItem {
            service: owned(value(attributes, "svce")),
            account: owned(value(attributes, "acct")),
            access_group: owned(value(attributes, "agrp")),
        }
    }
}

/// A copy of an optional borrowed string.
pub(crate) fn owned(s: Option<&String>) -> (r: Option<String>)
    ensures
        text_of(r) == match s {
            Some(t) => Some(t@),
            None => None,
        },
{
    match s {
        Some(t) => Some(t.clone()),
        None => None,
    }
}

/// A copy of an optional string.
pub(crate) fn copy_text(s: &Option<String>) -> (r: Option<String>)
    ensures
        text_of(r) == text_of(*s),
{
    match s {
        Some(t) => Some(t.clone()),
        None => None,
    }
}

} // verus!
