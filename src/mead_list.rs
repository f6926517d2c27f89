use vstd::prelude::*;
use crate::models::{Mead, MeadModel};

verus! {

/// The list screen as the rest of the library sees it.
pub struct ListModel {
    pub meads: Seq<MeadModel>,
    pub selected: nat,
    pub needs_refresh: bool,
}

impl ListModel {
    /// A non-empty list has its selection on one of its rows.
    pub open spec fn wf(self) -> bool {
        self.meads.len() > 0 ==> self.selected < self.meads.len()
    }

    pub open spec fn next(self) -> ListModel {
        if self.meads.len() > 0 {
            ListModel { selected: ((self.selected + 1) % self.meads.len()) as nat, ..self }
        } else {
            self
        }
    }

    pub open spec fn previous(self) -> ListModel {
        if self.meads.len() > 0 {
            ListModel {
                selected: if self.selected == 0 {
                    (self.meads.len() - 1) as nat
                } else {
                    (self.selected - 1) as nat
                },
                ..self
            }
        } else {
            self
        }
    }

    /// The list after a reload that returned `meads`.
    pub open spec fn loaded(self, meads: Seq<MeadModel>) -> ListModel {
        ListModel {
            meads: meads,
            needs_refresh: false,
            selected: if self.selected >= meads.len() && meads.len() > 0 {
                (meads.len() - 1) as nat
            } else {
                self.selected
            },
        }
    }

    pub open spec fn selected_mead(self) -> Option<MeadModel> {
        if self.selected < self.meads.len() {
            Some(self.meads[self.selected as int])
        } else {
            None
        }
    }
}

/// List screen state
pub struct MeadListView {
    /// The batches on show
    pub meads: Vec<Mead>,
    /// Currently selected index
    pub selected: usize,
    /// Whether the list must be reloaded from the store
    pub needs_refresh: bool,
}

impl View for MeadListView {
    type V = ListModel;

    open spec fn view(&self) -> ListModel {
        ListModel {
            meads: self.meads@.map_values(|m: Mead| m@),
            selected: self.selected as nat,
            needs_refresh: self.needs_refresh,
        }
    }
}

impl MeadListView {
    pub fn new() -> (r: Self)
        ensures
            r@ == (ListModel { meads: Seq::empty(), selected: 0, needs_refresh: true }),
    {
        let r = MeadListView { meads: Vec::new(), selected: 0, needs_refresh: true };
        assert(r@.meads =~= Seq::empty());
        r
    }

    /// Replace the rows with a fresh snapshot and keep the selection on a row.
    pub fn set_meads(&mut self, meads: Vec<Mead>)
        ensures
            final(self)@ == old(self)@.loaded(meads@.map_values(|m: Mead| m@)),
    {
        self.meads = meads;
        self.needs_refresh = false;
        if self.selected >= self.meads.len() && self.meads.len() > 0 {
            self.selected = self.meads.len() - 1;
        }
    }

    pub fn next(&mut self)
        requires
            old(self)@.wf(),
        ensures
            final(self)@ == old(self)@.next(),
    {
        if self.meads.len() > 0 {
            self.selected = (self.selected + 1) % self.meads.len();
        }
    }

    pub fn previous(&mut self)
        requires
            old(self)@.wf(),
        ensures
            final(self)@ == old(self)@.previous(),
    {
        if self.meads.len() > 0 {
            if self.selected == 0 {
                self.selected = self.meads.len() - 1;
            } else {
                self.selected = self.selected - 1;
            }
        }
    }

    /// The guidance shown in place of the rows while there are none.
    pub fn empty_message(&self) -> (r: Option<&'static str>)
        ensures
            r is Some <==> self.meads@.len() == 0,
            r matches Some(t) ==> t@ == "No meads yet! Press Esc to go back and create one."@,
    {
        if self.meads.len() == 0 {
            Some("No meads yet! Press Esc to go back and create one.")
        } else {
            None
        }
    }

    pub fn get_selected(&self) -> (r: Option<&Mead>)
        ensures
            match r {
                Some(m) => self@.selected_mead() == Some(m@),
                None => self@.selected_mead() is None,
            },
    {
        if self.selected < self.meads.len() {
            Some(&self.meads[self.selected])
        } else {
            None
        }
    }
}

impl Default for MeadListView {
    fn default() -> (r: Self)
        ensures
            r@ == (ListModel { meads: Seq::empty(), selected: 0, needs_refresh: true }),
    {
        MeadListView::new()
    }
}

/// Navigation on the list keeps the selection on a row and wraps at both ends.
pub proof fn lemma_list_navigation(m: ListModel)
    requires
        m.wf(),
    ensures
        m.next().wf(),
        m.previous().wf(),
        m.meads.len() > 0 && m.selected == m.meads.len() - 1 ==> m.next().selected == 0,
        m.meads.len() > 0 && m.selected == 0 ==> m.previous().selected == m.meads.len() - 1,
{
    if m.meads.len() > 0 {
        vstd::arithmetic::div_mod::lemma_mod_self_0(m.meads.len() as int);
    }
}

/// A reload keeps the selection on a row.
pub proof fn lemma_list_loaded(m: ListModel, meads: Seq<MeadModel>)
    ensures
        m.loaded(meads).wf(),
{
}

} // verus!
