//! Composer state: payload tabs, the active tab and the focus mode.

use vstd::prelude::*;
use crate::modes::InputMode;

verus! {

/// Which payload tab is active, among a fixed list, and the focus mode.
pub struct State<'a> {
    pub payload_titles: Vec<&'a str>,
    pub req_tab_index: usize,
    pub main_index: usize,
    pub input_mode: InputMode,
}

/// Tab position after `next_payload` among `count` tabs.
pub open spec fn tab_after(i: nat, count: nat) -> nat
    recommends
        count > 0,
{
    (i + 1) % count
}

/// Tab position after `previous_payload` among `count` tabs.
pub open spec fn tab_before(i: nat, count: nat) -> nat
    recommends
        count > 0,
{
    ((i + count - 1) as nat) % count
}

/// Tab position after `n` calls of `next_payload` from `i`.
pub open spec fn tab_after_n(i: nat, count: nat, n: nat) -> nat
    decreases n,
{
    if n == 0 {
        i
    } else {
        tab_after(tab_after_n(i, count, (n - 1) as nat), count)
    }
}

impl<'a> State<'a> {
    /// At least one tab, and the active one among them.
    pub open spec fn wf(&self) -> bool {
        &&& self.payload_titles@.len() > 0
        &&& self.req_tab_index < self.payload_titles@.len()
    }

    /// Tabs `Headers` and `Body`, the first active, editing the URI.
    pub fn new() -> (r: Self)
        ensures
            r.wf(),
            r.payload_titles@.len() == 2,
            r.payload_titles@[0]@ == "Headers"@,
            r.payload_titles@[1]@ == "Body"@,
            r.req_tab_index == 0,
            r.main_index == 0,
            r.input_mode == InputMode::UriEditing,
    {
        State {
            payload_titles: vec!["Headers", "Body"],
            req_tab_index: 0,
            main_index: 0,
            input_mode: InputMode::UriEditing,
        }
    }

    /// Makes the next tab active, wrapping from the last to the first.
    pub fn next_payload(&mut self)
        requires
            old(self).wf(),
        ensures
            final(self).wf(),
            final(self).req_tab_index as nat == tab_after(
                old(self).req_tab_index as nat,
                old(self).payload_titles@.len(),
            ),
            final(self).payload_titles@ == old(self).payload_titles@,
            final(self).main_index == old(self).main_index,
            final(self).input_mode == old(self).input_mode,
    {
        let count = self.payload_titles.len();
        self.req_tab_index = (self.req_tab_index + 1) % count;
    }

    /// Makes the previous tab active, wrapping from the first to the last.
    pub fn previous_payload(&mut self)
        requires
            old(self).wf(),
        ensures
            final(self).wf(),
            final(self).req_tab_index as nat == tab_before(
                old(self).req_tab_index as nat,
                old(self).payload_titles@.len(),
            ),
            final(self).payload_titles@ == old(self).payload_titles@,
            final(self).main_index == old(self).main_index,
            final(self).input_mode == old(self).input_mode,
    {
        if self.req_tab_index > 0 {
            self.req_tab_index -= 1;
        } else {
            self.req_tab_index = self.payload_titles.len() - 1;
        }
        proof {
            let i = old(self).req_tab_index as nat;
            let k = old(self).payload_titles@.len();
            if i > 0 {
                vstd::arithmetic::div_mod::lemma_mod_add_multiples_vanish(i - 1, k as int);
                vstd::arithmetic::div_mod::lemma_small_mod((i - 1) as nat, k);
            } else {
                vstd::arithmetic::div_mod::lemma_small_mod((k - 1) as nat, k);
            }
        }
    }
}

/// `n` steps forward from tab `i` land on `(i + n) mod count`.
pub proof fn lemma_tab_after_n(i: nat, count: nat, n: nat)
    requires
        count > 0,
        i < count,
    ensures
        tab_after_n(i, count, n) == (i + n) % count,
    decreases n,
{
    if n == 0 {
        vstd::arithmetic::div_mod::lemma_small_mod(i, count);
    } else {
        lemma_tab_after_n(i, count, (n - 1) as nat);
        vstd::arithmetic::div_mod::lemma_add_mod_noop_right(1, (i + n - 1) as int, count as int);
    }
}

/// With `count` tabs, moving to the next tab `count` times comes back to the
/// starting tab, and moving to the previous tab from the first lands on the
/// last.
pub proof fn lemma_tab_cycle(i: nat, count: nat)
    requires
        count >= 1,
        i < count,
    ensures
        tab_after_n(i, count, count) == i,
        tab_before(0, count) == count - 1,
{
    lemma_tab_after_n(i, count, count);
    vstd::arithmetic::div_mod::lemma_mod_add_multiples_vanish(i as int, count as int);
    vstd::arithmetic::div_mod::lemma_small_mod(i, count);
    vstd::arithmetic::div_mod::lemma_small_mod((count - 1) as nat, count);
}

} // verus!
