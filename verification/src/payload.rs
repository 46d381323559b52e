//! Deriving the dashboard's list entries from a fetched JSON payload.
//! Which members are read, how a present but non-string member falls
//! back, and how a line is formatted are all verified; the probes into
//! the raw JSON carry named results, so the whole derivation is pinned
//! to the body text.

use vstd::prelude::*;
use vstd::string::*;

use crate::credentials::view_opt;
use crate::jsonval::has_items_of;
use crate::jsonval::item_member_of;
use crate::jsonval::items_len_of;
use crate::jsonval::json_parses;
use crate::jsonval::pretty_of;
use crate::jsonval::probe_item_member;
use crate::jsonval::probe_items_len;
use crate::jsonval::probe_pretty;

verus! {

/// The string members a list element may carry, as far as the display
/// line reads them. A member that was present but held no string is
/// already collapsed to its terminal placeholder, as the display rules
/// demand.
#[derive(Debug)]
pub struct ItemFields {
    pub id: Option<String>,
    pub name: Option<String>,
    pub email: Option<String>,
    pub event_name: Option<String>,
    pub status: Option<String>,
    pub subscription_status: Option<String>,
    pub invoice_status: Option<String>,
    pub wallet_status: Option<String>,
}

#[verifier::ext_equal]
pub struct ItemFieldsView {
    pub id: Option<Seq<char>>,
    pub name: Option<Seq<char>>,
    pub email: Option<Seq<char>>,
    pub event_name: Option<Seq<char>>,
    pub status: Option<Seq<char>>,
    pub subscription_status: Option<Seq<char>>,
    pub invoice_status: Option<Seq<char>>,
    pub wallet_status: Option<Seq<char>>,
}

impl View for ItemFields {
    type V = ItemFieldsView;

    open spec fn view(&self) -> ItemFieldsView {
        ItemFieldsView {
            id: view_opt(self.id),
            name: view_opt(self.name),
            email: view_opt(self.email),
            event_name: view_opt(self.event_name),
            status: view_opt(self.status),
            subscription_status: view_opt(self.subscription_status),
            invoice_status: view_opt(self.invoice_status),
            wallet_status: view_opt(self.wallet_status),
        }
    }
}

/// A probed member as the display rules see it: an absent member stays
/// absent, so the next member of a fallback chain is tried; a present
/// member ends the chain, with the placeholder standing in when it held
/// no string.
pub open spec fn member_or(m: Option<Option<Seq<char>>>, placeholder: Seq<char>) -> Option<
    Seq<char>,
> {
    match m {
        Some(v) => match v {
            Some(content) => Some(content),
            None => Some(placeholder),
        },
        None => None,
    }
}

/// The fields of element `i` of the `items` array of a payload text:
/// each member probed from the text, with the identifier's, the name
/// chain's and the status chain's placeholders standing in for present
/// non-string members.
pub open spec fn item_fields_of(s: Seq<char>, i: int) -> ItemFieldsView {
    ItemFieldsView {
        id: member_or(item_member_of(s, i, "id"@), "?"@),
        name: member_or(item_member_of(s, i, "name"@), "-"@),
        email: member_or(item_member_of(s, i, "email"@), "-"@),
        event_name: member_or(item_member_of(s, i, "event_name"@), "-"@),
        status: member_or(item_member_of(s, i, "status"@), Seq::empty()),
        subscription_status: member_or(item_member_of(s, i, "subscription_status"@), Seq::empty()),
        invoice_status: member_or(item_member_of(s, i, "invoice_status"@), Seq::empty()),
        wallet_status: member_or(item_member_of(s, i, "wallet_status"@), Seq::empty()),
    }
}

/// The identifier shown first on a line: the `id` member, or a question
/// mark when absent.
pub open spec fn display_id(f: ItemFieldsView) -> Seq<char> {
    match f.id {
        Some(s) => s,
        None => "?"@,
    }
}

/// The display name: the first present of `name`, `email`, `event_name`,
/// or a dash when none is.
pub open spec fn display_name(f: ItemFieldsView) -> Seq<char> {
    match f.name {
        Some(s) => s,
        None => match f.email {
            Some(s) => s,
            None => match f.event_name {
                Some(s) => s,
                None => "-"@,
            },
        },
    }
}

/// The status suffix source: the first present of the status-like
/// members, or empty when none is.
pub open spec fn display_status(f: ItemFieldsView) -> Seq<char> {
    match f.status {
        Some(s) => s,
        None => match f.subscription_status {
            Some(s) => s,
            None => match f.invoice_status {
                Some(s) => s,
                None => match f.wallet_status {
                    Some(s) => s,
                    None => Seq::empty(),
                },
            },
        },
    }
}

/// One display line: `id`, two spaces, the display name, and — when a
/// status is present — two spaces and the status in brackets.
pub open spec fn item_line_view(f: ItemFieldsView) -> Seq<char> {
    display_id(f) + "  "@ + display_name(f) + (if display_status(f).len() == 0 {
        Seq::<char>::empty()
    } else {
        "  ["@ + display_status(f) + "]"@
    })
}

impl ItemFields {
    /// An element with no members at all.
    pub fn absent() -> (r: ItemFields)
        ensures
            r@.id is None,
            r@.name is None,
            r@.email is None,
            r@.event_name is None,
            r@.status is None,
            r@.subscription_status is None,
            r@.invoice_status is None,
            r@.wallet_status is None,
    {
        ItemFields {
            id: None,
            name: None,
            email: None,
            event_name: None,
            status: None,
            subscription_status: None,
            invoice_status: None,
            wallet_status: None,
        }
    }
}

fn display_name_of(f: &ItemFields) -> (r: &str)
    ensures
        r@ == display_name(f@),
{
    match &f.name {
        Some(s) => s.as_str(),
        None => match &f.email {
            Some(s) => s.as_str(),
            None => match &f.event_name {
                Some(s) => s.as_str(),
                None => "-",
            },
        },
    }
}

fn display_status_of(f: &ItemFields) -> (r: &str)
    ensures
        r@ == display_status(f@),
{
    proof {
        reveal_strlit("");
        assert(""@ =~= Seq::<char>::empty());
    }
    match &f.status {
        Some(s) => s.as_str(),
        None => match &f.subscription_status {
            Some(s) => s.as_str(),
            None => match &f.invoice_status {
                Some(s) => s.as_str(),
                None => match &f.wallet_status {
                    Some(s) => s.as_str(),
                    None => "",
                },
            },
        },
    }
}

/// Builds the display line of one list element.
pub fn item_line(f: &ItemFields) -> (r: String)
    ensures
        r@ == item_line_view(f@),
{
    let mut s = match &f.id {
        Some(id) => id.clone(),
        None => String::from_str("?"),
    };
    s.append("  ");
    s.append(display_name_of(f));
    let st = display_status_of(f);
    if !st.is_empty() {
        s.append("  [");
        s.append(st);
        s.append("]");
    }
    proof {
        assert(s@ =~= item_line_view(f@));
    }
    s
}

/// A fetched payload after shape probing: a list of elements under an
/// `items` array, a payload without one, or text that is no JSON.
#[derive(Debug)]
pub enum ParsedPayload {
    ItemList { fields: Vec<ItemFields>, pretty: String },
    Object { pretty: String },
    NotJson,
}

fn probe_member_or(body: &str, i: usize, key: &str, placeholder: &str) -> (r: Option<String>)
    ensures
        view_opt(r) == member_or(item_member_of(body@, i as int, key@), placeholder@),
{
    match probe_item_member(body, i, key) {
        Some(m) => match m {
            Some(content) => Some(content),
            None => Some(String::from_str(placeholder)),
        },
        None => None,
    }
}

fn extract_item_fields(body: &str, i: usize) -> (r: ItemFields)
    ensures
        r@ == item_fields_of(body@, i as int),
{
    let r = ItemFields {
        id: probe_member_or(body, i, "id", "?"),
        name: probe_member_or(body, i, "name", "-"),
        email: probe_member_or(body, i, "email", "-"),
        event_name: probe_member_or(body, i, "event_name", "-"),
        status: probe_member_or(body, i, "status", ""),
        subscription_status: probe_member_or(body, i, "subscription_status", ""),
        invoice_status: probe_member_or(body, i, "invoice_status", ""),
        wallet_status: probe_member_or(body, i, "wallet_status", ""),
    };
    proof {
        reveal_strlit("");
        assert(""@ =~= Seq::<char>::empty());
        assert(r@ =~= item_fields_of(body@, i as int));
    }
    r
}

/// Probes a fetched body: not JSON at all, JSON without an `items`
/// array, or — per element of the `items` array — the probed fields,
/// together with the pretty form of the whole payload.
pub fn parse_payload(body: &str) -> (r: ParsedPayload)
    ensures
        (r is NotJson) <==> !json_parses(body@),
        (json_parses(body@) && has_items_of(body@)) ==> (r matches ParsedPayload::ItemList {
            fields,
            pretty,
        } && pretty@ == pretty_of(body@) && fields@.len() == items_len_of(body@) && (forall|j: int|
            0 <= j < fields@.len() ==> fields@[j]@ == item_fields_of(body@, j))),
        (json_parses(body@) && !has_items_of(body@)) ==> (r matches ParsedPayload::Object { pretty }
            && pretty@ == pretty_of(body@)),
{
    match probe_pretty(body) {
        None => ParsedPayload::NotJson,
        Some(pretty) => {
            match probe_items_len(body) {
                None => ParsedPayload::Object { pretty },
                Some(n) => {
                    let mut fields: Vec<ItemFields> = Vec::new();
                    let mut i: usize = 0;
                    while i < n
                        invariant
                            i <= n,
                            n as int == items_len_of(body@),
                            fields@.len() == i,
                            forall|j: int|
                                0 <= j < i ==> fields@[j]@ == item_fields_of(body@, j),
                        decreases n - i,
                    {
                        fields.push(extract_item_fields(body, i));
                        i += 1;
                    }
                    ParsedPayload::ItemList { fields, pretty }
                },
            }
        },
    }
}

} // verus!
