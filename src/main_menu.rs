use vstd::prelude::*;
use vstd::string::*;
use crate::text::join3;

verus! {

/// Number of entries on the main menu.
pub const MENU_OPTION_COUNT: usize = 2;

/// Main menu state
pub struct MainMenuView {
    /// Currently selected menu item
    pub selected: usize,
    /// Menu options
    pub options: Vec<&'static str>,
}

impl MainMenuView {
    pub open spec fn wf(&self) -> bool {
        &&& self.options@.len() == MENU_OPTION_COUNT
        &&& self.selected < MENU_OPTION_COUNT
    }

    pub fn new() -> (r: Self)
        ensures
            r.wf(),
            r.selected == 0,
            r.options@[0]@ == "Current Meads"@,
            r.options@[1]@ == "New Mead"@,
    {
        MainMenuView { selected: 0, options: vec!["Current Meads", "New Mead"] }
    }

    /// The text of entry `i`: marked with `> ` where it is selected.
    pub fn item_label(&self, i: usize) -> (r: String)
        requires
            self.wf(),
            i < MENU_OPTION_COUNT,
        ensures
            r@ == (if i == self.selected {
                "> "@
            } else {
                "  "@
            }) + self.options@[i as int]@,
    {
        let prefix = if i == self.selected {
            "> "
        } else {
            "  "
        };
        let r = join3(prefix, self.options[i], "");
        proof {
            reveal_strlit("");
            assert(r@ =~= prefix@ + self.options@[i as int]@);
        }
        r
    }

    /// Select the following entry, wrapping from the last to the first.
    pub fn next(&mut self)
        requires
            old(self).wf(),
        ensures
            final(self).wf(),
            final(self).options == old(self).options,
            final(self).selected == (old(self).selected + 1) % (MENU_OPTION_COUNT as int),
    {
        self.selected = (self.selected + 1) % self.options.len();
    }

    /// Select the preceding entry, wrapping from the first to the last.
    pub fn previous(&mut self)
        requires
            old(self).wf(),
        ensures
            final(self).wf(),
            final(self).options == old(self).options,
            final(self).selected == if old(self).selected == 0 {
                MENU_OPTION_COUNT - 1
            } else {
                old(self).selected - 1
            },
    {
        if self.selected == 0 {
            self.selected = self.options.len() - 1;
        } else {
            self.selected = self.selected - 1;
        }
    }
}

impl Default for MainMenuView {
    fn default() -> (r: Self)
        ensures
            r.wf(),
            r.selected == 0,
    {
        MainMenuView::new()
    }
}

} // verus!
