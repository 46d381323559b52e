//! The dashboard's interaction state machine: a fixed ring of resource
//! tabs, a fetched item list with cyclic selection, a detail pane, and
//! the loading and error flags that pick the render mode. The terminal
//! loop around it performs the fetches and feeds their outcomes back in.

use vstd::prelude::*;
use vstd::string::*;

use crate::jsonval::has_items_of;
use crate::jsonval::item_pretty_of;
use crate::jsonval::items_len_of;
use crate::jsonval::json_parses;
use crate::jsonval::pretty_of;
use crate::jsonval::probe_item_pretty;
use crate::payload::item_fields_of;
use crate::payload::item_line;
use crate::payload::item_line_view;
use crate::payload::parse_payload;
use crate::payload::ParsedPayload;

verus! {

/// The number of resource tabs the dashboard cycles through.
pub const TAB_COUNT: usize = 7;

/// The title of each tab.
pub open spec fn tab_title_view(i: int) -> Seq<char> {
    if i == 0 {
        "Customers"@
    } else if i == 1 {
        "Plans"@
    } else if i == 2 {
        "Subscriptions"@
    } else if i == 3 {
        "Invoices"@
    } else if i == 4 {
        "Meters"@
    } else if i == 5 {
        "Wallets"@
    } else {
        "Features"@
    }
}

/// The list endpoint each tab fetches.
pub open spec fn tab_endpoint_view(i: int) -> Seq<char> {
    if i == 0 {
        "/v1/customers"@
    } else if i == 1 {
        "/v1/plans"@
    } else if i == 2 {
        "/v1/subscriptions"@
    } else if i == 3 {
        "/v1/invoices"@
    } else if i == 4 {
        "/v1/meters"@
    } else if i == 5 {
        "/v1/wallets"@
    } else {
        "/v1/features"@
    }
}

pub fn tab_title(i: usize) -> (r: &'static str)
    requires
        i < TAB_COUNT,
    ensures
        r@ == tab_title_view(i as int),
{
    if i == 0 {
        "Customers"
    } else if i == 1 {
        "Plans"
    } else if i == 2 {
        "Subscriptions"
    } else if i == 3 {
        "Invoices"
    } else if i == 4 {
        "Meters"
    } else if i == 5 {
        "Wallets"
    } else {
        "Features"
    }
}

pub fn tab_endpoint(i: usize) -> (r: &'static str)
    requires
        i < TAB_COUNT,
    ensures
        r@ == tab_endpoint_view(i as int),
{
    if i == 0 {
        "/v1/customers"
    } else if i == 1 {
        "/v1/plans"
    } else if i == 2 {
        "/v1/subscriptions"
    } else if i == 3 {
        "/v1/invoices"
    } else if i == 4 {
        "/v1/meters"
    } else if i == 5 {
        "/v1/wallets"
    } else {
        "/v1/features"
    }
}

/// The tab after a forward step: one to the right, wrapping.
pub open spec fn next_tab_spec(i: int) -> int {
    (i + 1) % (TAB_COUNT as int)
}

/// The tab after a backward step: one to the left, wrapping.
pub open spec fn prev_tab_spec(i: int) -> int {
    if i == 0 {
        TAB_COUNT as int - 1
    } else {
        i - 1
    }
}

/// The selection after a forward step over `n` items: cyclic, and
/// unchanged when the list is empty.
pub open spec fn next_item_spec(sel: int, n: int) -> int {
    if n == 0 {
        sel
    } else {
        (sel + 1) % n
    }
}

/// The selection after a backward step over `n` items.
pub open spec fn prev_item_spec(sel: int, n: int) -> int {
    if n == 0 {
        sel
    } else if sel == 0 {
        n - 1
    } else {
        sel - 1
    }
}

/// An input the dashboard reacts to, already freed of the terminal
/// library's encoding.
#[derive(Debug)]
pub enum DashboardKey {
    TabNext,
    TabPrev,
    ItemNext,
    ItemPrev,
    Refresh,
    Quit,
    Other,
}

/// What the surrounding loop must do after a transition.
#[derive(Debug)]
pub enum DashboardAction {
    Refetch,
    RecomputeDetail,
    Idle,
}

/// Which of the three mutually exclusive panes is shown: the loading
/// flag wins, then a captured error, then the fetched list.
#[derive(Debug)]
pub enum RenderMode {
    Loading,
    Failed,
    Ready,
}

/// The dashboard's whole mutable state.
#[derive(Debug)]
pub struct DashboardState {
    pub active_tab: usize,
    pub items: Vec<String>,
    pub selected: usize,
    pub detail: String,
    pub loading: bool,
    pub error: Option<String>,
    pub should_quit: bool,
}

/// The detail text after recomputation for a selection: the pretty form
/// of the `items` element at that position of the stored text, when the
/// text parses and the element exists; the stored text itself otherwise.
pub open spec fn recomputed_detail(detail: Seq<char>, sel: int) -> Seq<char> {
    match item_pretty_of(detail, sel) {
        Some(p) => p,
        None => detail,
    }
}

/// The render mode chosen from the flags.
pub open spec fn render_mode_spec(loading: bool, error: Option<Seq<char>>) -> RenderMode {
    if loading {
        RenderMode::Loading
    } else if error is Some {
        RenderMode::Failed
    } else {
        RenderMode::Ready
    }
}

impl DashboardState {
    /// The state's invariant: the tab index points into the ring and the
    /// selection points into the item list (position zero when empty).
    pub open spec fn wf(self) -> bool {
        &&& self.active_tab < TAB_COUNT
        &&& (self.items@.len() == 0 ==> self.selected == 0)
        &&& (self.items@.len() > 0 ==> self.selected < self.items@.len())
    }

    /// A fresh session: first tab, nothing fetched yet.
    pub fn new() -> (r: DashboardState)
        ensures
            r.wf(),
            r.active_tab == 0,
            r.items@.len() == 0,
            r.selected == 0,
            r.detail@ == Seq::<char>::empty(),
            !r.loading,
            r.error is None,
            !r.should_quit,
    {
        DashboardState {
            active_tab: 0,
            items: Vec::new(),
            selected: 0,
            detail: String::new(),
            loading: false,
            error: None,
            should_quit: false,
        }
    }

    /// Which pane the terminal should draw.
    pub fn render_mode(&self) -> (r: RenderMode)
        ensures
            r == render_mode_spec(self.loading, crate::credentials::view_opt(self.error)),
    {
        if self.loading {
            RenderMode::Loading
        } else if self.error.is_some() {
            RenderMode::Failed
        } else {
            RenderMode::Ready
        }
    }

    /// Steps to the tab on the right and clears the fetched data, ready
    /// for the refetch the caller owes.
    pub fn next_tab(&mut self)
        requires
            old(self).wf(),
        ensures
            final(self).wf(),
            final(self).active_tab == next_tab_spec(old(self).active_tab as int),
            final(self).items@.len() == 0,
            final(self).detail@ == Seq::<char>::empty(),
            final(self).error is None,
            final(self).selected == 0,
            final(self).loading == old(self).loading,
            final(self).should_quit == old(self).should_quit,
    {
        self.active_tab = (self.active_tab + 1) % TAB_COUNT;
        self.items = Vec::new();
        self.detail = String::new();
        self.error = None;
        self.selected = 0;
    }

    /// Steps to the tab on the left and clears the fetched data.
    pub fn prev_tab(&mut self)
        requires
            old(self).wf(),
        ensures
            final(self).wf(),
            final(self).active_tab == prev_tab_spec(old(self).active_tab as int),
            final(self).items@.len() == 0,
            final(self).detail@ == Seq::<char>::empty(),
            final(self).error is None,
            final(self).selected == 0,
            final(self).loading == old(self).loading,
            final(self).should_quit == old(self).should_quit,
    {
        self.active_tab = if self.active_tab == 0 {
            TAB_COUNT - 1
        } else {
            self.active_tab - 1
        };
        self.items = Vec::new();
        self.detail = String::new();
        self.error = None;
        self.selected = 0;
    }

    /// Moves the selection one item down, cyclically; nothing happens on
    /// an empty list. The detail pane is recomputed by the caller.
    pub fn next_item(&mut self)
        requires
            old(self).wf(),
        ensures
            final(self).wf(),
            final(self).selected == next_item_spec(
                old(self).selected as int,
                old(self).items@.len() as int,
            ),
            final(self).items == old(self).items,
            final(self).active_tab == old(self).active_tab,
            final(self).detail == old(self).detail,
            final(self).loading == old(self).loading,
            final(self).error == old(self).error,
            final(self).should_quit == old(self).should_quit,
    {
        if self.items.len() > 0 {
            self.selected = (self.selected + 1) % self.items.len();
        }
    }

    /// Moves the selection one item up, cyclically; nothing happens on
    /// an empty list.
    pub fn prev_item(&mut self)
        requires
            old(self).wf(),
        ensures
            final(self).wf(),
            final(self).selected == prev_item_spec(
                old(self).selected as int,
                old(self).items@.len() as int,
            ),
            final(self).items == old(self).items,
            final(self).active_tab == old(self).active_tab,
            final(self).detail == old(self).detail,
            final(self).loading == old(self).loading,
            final(self).error == old(self).error,
            final(self).should_quit == old(self).should_quit,
    {
        if self.items.len() > 0 {
            self.selected = if self.selected == 0 {
                self.items.len() - 1
            } else {
                self.selected - 1
            };
        }
    }

    /// Marks a fetch as underway: the loading pane takes over and a
    /// previous error is dropped.
    pub fn begin_fetch(&mut self)
        requires
            old(self).wf(),
        ensures
            final(self).wf(),
            final(self).loading,
            final(self).error is None,
            final(self).items == old(self).items,
            final(self).selected == old(self).selected,
            final(self).active_tab == old(self).active_tab,
            final(self).detail == old(self).detail,
            final(self).should_quit == old(self).should_quit,
    {
        self.loading = true;
        self.error = None;
    }

    /// Recomputes the detail pane for the current selection: when the
    /// stored detail text is JSON with an `items` array holding an
    /// element at the selection, that element's pretty form replaces it;
    /// otherwise it stays. Nothing else changes.
    pub fn update_detail(&mut self)
        requires
            old(self).wf(),
        ensures
            final(self).wf(),
            final(self).detail@ == recomputed_detail(
                old(self).detail@,
                old(self).selected as int,
            ),
            final(self).items == old(self).items,
            final(self).selected == old(self).selected,
            final(self).active_tab == old(self).active_tab,
            final(self).loading == old(self).loading,
            final(self).error == old(self).error,
            final(self).should_quit == old(self).should_quit,
    {
        match probe_item_pretty(self.detail.as_str(), self.selected) {
            Some(p) => {
                self.detail = p;
            },
            None => {},
        }
    }

    /// Installs a probed payload: the derived display lines for a list,
    /// a placeholder entry otherwise, the matching detail text, and the
    /// selection back at the top. For a list the detail pane is then
    /// recomputed for the first element.
    pub fn apply_payload(&mut self, p: ParsedPayload, raw_body: String)
        requires
            old(self).wf(),
        ensures
            final(self).wf(),
            !final(self).loading,
            final(self).selected == 0,
            final(self).error is None,
            final(self).active_tab == old(self).active_tab,
            final(self).should_quit == old(self).should_quit,
            p matches ParsedPayload::NotJson ==> final(self).items@.len() == 1 && final(self).items@[0]@ == "(raw response)"@ && final(self).detail@ == raw_body@,
            p matches ParsedPayload::Object { pretty } ==> final(self).items@.len() == 1 && final(self).items@[0]@ == "(no items)"@ && final(self).detail@ == pretty@,
            p matches ParsedPayload::ItemList { fields, pretty } ==> final(self).items@.len()
                == fields@.len() && (forall|j: int|
                0 <= j < fields@.len() ==> final(self).items@[j]@ == item_line_view(fields@[j]@))
                && final(self).detail@ == recomputed_detail(pretty@, 0),
    {
        match p {
            ParsedPayload::NotJson => {
                let mut items: Vec<String> = Vec::new();
                items.push(String::from_str("(raw response)"));
                self.items = items;
                self.detail = raw_body;
                self.error = None;
                self.selected = 0;
                self.loading = false;
            },
            ParsedPayload::Object { pretty } => {
                let mut items: Vec<String> = Vec::new();
                items.push(String::from_str("(no items)"));
                self.items = items;
                self.detail = pretty;
                self.error = None;
                self.selected = 0;
                self.loading = false;
            },
            ParsedPayload::ItemList { fields, pretty } => {
                let mut items: Vec<String> = Vec::new();
                let mut i: usize = 0;
                while i < fields.len()
                    invariant
                        i <= fields.len(),
                        items@.len() == i,
                        forall|j: int| 0 <= j < i ==> items@[j]@ == item_line_view(fields@[j]@),
                    decreases fields.len() - i,
                {
                    items.push(item_line(&fields[i]));
                    i += 1;
                }
                self.items = items;
                self.detail = pretty;
                self.error = None;
                self.selected = 0;
                self.loading = false;
                self.update_detail();
            },
        }
    }

    /// Installs a fetch outcome: a failure becomes the error pane with
    /// the list cleared; a body is probed and installed as a payload.
    pub fn finish_fetch(&mut self, outcome: Result<String, String>)
        requires
            old(self).wf(),
        ensures
            final(self).wf(),
            !final(self).loading,
            final(self).selected == 0,
            final(self).active_tab == old(self).active_tab,
            final(self).should_quit == old(self).should_quit,
            outcome matches Err(e) ==> (final(self).error matches Some(m) && m@ == e@) && final(self).items@.len() == 0 && final(self).detail@ == Seq::<char>::empty(),
            outcome matches Ok(body) ==> final(self).error is None && (!json_parses(body@)
                ==> final(self).items@.len() == 1 && final(self).items@[0]@ == "(raw response)"@
                && final(self).detail@ == body@) && ((json_parses(body@) && !has_items_of(body@))
                ==> final(self).items@.len() == 1 && final(self).items@[0]@ == "(no items)"@
                && final(self).detail@ == pretty_of(body@)) && ((json_parses(body@)
                && has_items_of(body@)) ==> final(self).items@.len() == items_len_of(body@) && (
            forall|j: int|
                0 <= j < final(self).items@.len() ==> final(self).items@[j]@ == item_line_view(
                    item_fields_of(body@, j),
                )) && final(self).detail@ == recomputed_detail(pretty_of(body@), 0)),
    {
        match outcome {
            Ok(body) => {
                let p = parse_payload(body.as_str());
                self.apply_payload(p, body);
            },
            Err(e) => {
                self.error = Some(e);
                self.items = Vec::new();
                self.detail = String::new();
                self.selected = 0;
                self.loading = false;
            },
        }
    }

    /// Reacts to one input: tab steps and the refresh ask the caller to
    /// refetch, selection steps ask it to recompute the detail pane, the
    /// quit key ends the session, anything else does nothing.
    pub fn handle_key(&mut self, key: DashboardKey) -> (a: DashboardAction)
        requires
            old(self).wf(),
        ensures
            final(self).wf(),
            key matches DashboardKey::TabNext ==> a == DashboardAction::Refetch && final(self).active_tab == next_tab_spec(old(self).active_tab as int),
            key matches DashboardKey::TabPrev ==> a == DashboardAction::Refetch && final(self).active_tab == prev_tab_spec(old(self).active_tab as int),
            key matches DashboardKey::ItemNext ==> a == DashboardAction::RecomputeDetail && final(self).selected == next_item_spec(old(self).selected as int, old(self).items@.len() as int),
            key matches DashboardKey::ItemPrev ==> a == DashboardAction::RecomputeDetail && final(self).selected == prev_item_spec(old(self).selected as int, old(self).items@.len() as int),
            key matches DashboardKey::Refresh ==> a == DashboardAction::Refetch && *final(self)
                == *old(self),
            key matches DashboardKey::Quit ==> a == DashboardAction::Idle && final(self).should_quit && final(self).active_tab == old(self).active_tab,
            key matches DashboardKey::Other ==> a == DashboardAction::Idle && *final(self) == *old(
                self,
            ),
    {
        match key {
            DashboardKey::TabNext => {
                self.next_tab();
                DashboardAction::Refetch
            },
            DashboardKey::TabPrev => {
                self.prev_tab();
                DashboardAction::Refetch
            },
            DashboardKey::ItemNext => {
                self.next_item();
                DashboardAction::RecomputeDetail
            },
            DashboardKey::ItemPrev => {
                self.prev_item();
                DashboardAction::RecomputeDetail
            },
            DashboardKey::Refresh => DashboardAction::Refetch,
            DashboardKey::Quit => {
                self.should_quit = true;
                DashboardAction::Idle
            },
            DashboardKey::Other => DashboardAction::Idle,
        }
    }
}

/// The tab reached after `k` forward steps from `i`.
pub open spec fn iter_next_tab(i: int, k: nat) -> int
    decreases k,
{
    if k == 0 {
        i
    } else {
        next_tab_spec(iter_next_tab(i, (k - 1) as nat))
    }
}

/// Stepping forward once from each tab and then back returns to it, and
/// so does stepping back and then forward: the two tab moves are exact
/// inverses.
pub proof fn lemma_tab_steps_inverse(i: int)
    requires
        0 <= i < TAB_COUNT as int,
    ensures
        prev_tab_spec(next_tab_spec(i)) == i,
        next_tab_spec(prev_tab_spec(i)) == i,
{
    assert(prev_tab_spec(next_tab_spec(i)) == i) by {
        if i + 1 < TAB_COUNT as int {
            assert(next_tab_spec(i) == i + 1);
        } else {
            assert(next_tab_spec(i) == 0);
        }
    }
    assert(next_tab_spec(prev_tab_spec(i)) == i) by {
        if i == 0 {
            assert(next_tab_spec(TAB_COUNT as int - 1) == 0);
        } else {
            assert(next_tab_spec(i - 1) == i);
        }
    }
}

/// Stepping forward as many times as there are tabs comes back to the
/// starting tab.
pub proof fn lemma_tab_cycle(i: int)
    requires
        0 <= i < TAB_COUNT as int,
    ensures
        iter_next_tab(i, TAB_COUNT as nat) == i,
{
    reveal_with_fuel(iter_next_tab, 8);
    assert(iter_next_tab(i, 7) == i);
}

/// The selection moves are exact inverses of one another over a list of
/// `n` items.
pub proof fn lemma_item_steps_inverse(sel: int, n: int)
    requires
        n >= 0,
        0 <= sel,
        n > 0 ==> sel < n,
    ensures
        prev_item_spec(next_item_spec(sel, n), n) == sel,
        next_item_spec(prev_item_spec(sel, n), n) == sel,
{
    if n > 0 {
        if sel + 1 < n {
            assert((sel + 1) % n == sel + 1) by (nonlinear_arith)
                requires
                    0 <= sel + 1 < n,
            ;
            assert(next_item_spec(sel, n) == sel + 1);
        } else {
            assert(n % n == 0) by (nonlinear_arith)
                requires
                    n > 0,
            ;
            assert(next_item_spec(sel, n) == 0);
        }
        if sel == 0 {
            assert(prev_item_spec(sel, n) == n - 1);
            assert(n % n == 0) by (nonlinear_arith)
                requires
                    n > 0,
            ;
            assert(next_item_spec(n - 1, n) == 0);
        } else {
            assert(sel % n == sel) by (nonlinear_arith)
                requires
                    0 <= sel < n,
            ;
            assert(next_item_spec(sel - 1, n) == sel);
        }
    }
}

} // verus!
