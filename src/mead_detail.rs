use vstd::prelude::*;
use vstd::string::*;
use crate::decimal::decimal_text;
use crate::input_field::{lemma_edit_keeps_cursor_in_bounds, EditOp, FieldModel, InputField};
use crate::models::{
    Ingredient, IngredientModel, IngredientType, LogEntry, LogEntryModel, Mead, MeadModel,
    MeadStatus,
};
use crate::new_mead::{blank_field, decimal_or, filled_field};
use crate::text::join3;

verus! {

/// Slots on the detail form: name, status, current gravity, nutrient added, notes.
pub const DETAIL_SLOT_COUNT: usize = 5;

/// Slots on the ingredient sub-form: name, amount, unit, kind.
pub const INGREDIENT_SLOT_COUNT: usize = 4;

/// Text fields on the ingredient sub-form; the slot after them selects the kind.
pub const INGREDIENT_TEXT_COUNT: usize = 3;

/// Field slots for navigation on the detail form
#[derive(Clone, Copy, PartialEq, Eq, Structural, Debug)]
pub enum DetailField {
    Name,
    Status,
    CurrentGravity,
    YanAdded,
    Notes,
}

impl DetailField {
    pub open spec fn spec_from_index(i: int) -> DetailField {
        if i == 0 {
            DetailField::Name
        } else if i == 1 {
            DetailField::Status
        } else if i == 2 {
            DetailField::CurrentGravity
        } else if i == 3 {
            DetailField::YanAdded
        } else {
            DetailField::Notes
        }
    }

    /// The slot at position `i`; every position past the last is the notes slot.
    pub fn from_index(i: usize) -> (r: Self)
        ensures
            r == DetailField::spec_from_index(i as int),
    {
        match i {
            0 => DetailField::Name,
            1 => DetailField::Status,
            2 => DetailField::CurrentGravity,
            3 => DetailField::YanAdded,
            _ => DetailField::Notes,
        }
    }

    pub fn count() -> (r: usize)
        ensures
            r == DETAIL_SLOT_COUNT,
    {
        DETAIL_SLOT_COUNT
    }
}

/// The text field at a detail slot: its index among the four, or -1 for the status slot.
pub open spec fn detail_editor(slot: nat) -> int {
    if slot == 0 {
        0
    } else if slot == 1 {
        -1
    } else if slot == 2 {
        1
    } else if slot == 3 {
        2
    } else {
        3
    }
}

/// The detail screen as the rest of the library sees it.
pub struct DetailModel {
    pub mead: Option<MeadModel>,
    pub ingredients: Seq<IngredientModel>,
    pub log_entries: Seq<LogEntryModel>,
    pub needs_refresh: bool,
    pub current: nat,
    pub editing: bool,
    /// Name, current gravity, nutrient added, notes.
    pub fields: Seq<FieldModel>,
    pub status: MeadStatus,
    pub log_input: FieldModel,
    pub show_log: bool,
    /// Ingredient name, amount, unit.
    pub ing_fields: Seq<FieldModel>,
    pub ing_type: IngredientType,
    pub show_ing: bool,
    pub ing_current: nat,
    /// Whether the form's own field was focused when a sub-form opened.
    pub parent_focus: bool,
}

impl DetailModel {
    pub open spec fn in_sub_form(self) -> bool {
        self.show_log || self.show_ing
    }

    pub open spec fn wf(self) -> bool {
        &&& self.fields.len() == 4
        &&& self.ing_fields.len() == INGREDIENT_TEXT_COUNT
        &&& self.current < DETAIL_SLOT_COUNT
        &&& self.ing_current < INGREDIENT_SLOT_COUNT
        &&& forall|i: int| 0 <= i < 4 ==> (#[trigger] self.fields[i]).wf()
        &&& forall|i: int| 0 <= i < INGREDIENT_TEXT_COUNT ==> (#[trigger] self.ing_fields[i]).wf()
        &&& self.log_input.wf()
        &&& !(self.show_log && self.show_ing)
        &&& self.editing ==> !self.in_sub_form() && self.current != 1
        &&& forall|i: int|
            0 <= i < 4 && (#[trigger] self.fields[i]).focused ==> !self.in_sub_form() && i
                == detail_editor(self.current)
        &&& self.log_input.focused == self.show_log
        &&& forall|k: int|
            0 <= k < INGREDIENT_TEXT_COUNT ==> (#[trigger] self.ing_fields[k]).focused == (
            self.show_ing && k == self.ing_current)
    }

    /// Exactly one text field is focused: the log input in the log sub-form, the ingredient
    /// field at the sub-form's slot, or else the form's field at the current slot (none on
    /// the status slot or the kind slot).
    pub open spec fn focus_exact(self) -> bool {
        &&& forall|i: int|
            0 <= i < 4 ==> (#[trigger] self.fields[i]).focused == (!self.in_sub_form() && i
                == detail_editor(self.current))
        &&& self.log_input.focused == self.show_log
        &&& forall|k: int|
            0 <= k < INGREDIENT_TEXT_COUNT ==> (#[trigger] self.ing_fields[k]).focused == (
            self.show_ing && k == self.ing_current)
    }

    pub open spec fn with_focus(self, focused: bool) -> DetailModel {
        let e = detail_editor(self.current);
        if e >= 0 {
            DetailModel { fields: self.fields.update(e, self.fields[e].with_focus(focused)), ..self }
        } else {
            self
        }
    }

    pub open spec fn moved_to(self, slot: nat) -> DetailModel {
        DetailModel { current: slot, editing: false, ..self.with_focus(false) }.with_focus(true)
    }

    pub open spec fn ing_focus_synced(self) -> DetailModel {
        DetailModel {
            ing_fields: seq![
                self.ing_fields[0].with_focus(self.show_ing && self.ing_current == 0),
                self.ing_fields[1].with_focus(self.show_ing && self.ing_current == 1),
                self.ing_fields[2].with_focus(self.show_ing && self.ing_current == 2),
            ],
            ..self
        }
    }

    pub open spec fn next_field(self) -> DetailModel {
        if self.show_log {
            self
        } else if self.show_ing {
            DetailModel {
                ing_current: ((self.ing_current + 1) % (INGREDIENT_SLOT_COUNT as nat)) as nat,
                ..self
            }.ing_focus_synced()
        } else {
            self.moved_to(((self.current + 1) % (DETAIL_SLOT_COUNT as nat)) as nat)
        }
    }

    pub open spec fn previous_field(self) -> DetailModel {
        if self.show_log {
            self
        } else if self.show_ing {
            DetailModel {
                ing_current: if self.ing_current == 0 {
                    (INGREDIENT_SLOT_COUNT - 1) as nat
                } else {
                    (self.ing_current - 1) as nat
                },
                ..self
            }.ing_focus_synced()
        } else {
            self.moved_to(
                if self.current == 0 {
                    (DETAIL_SLOT_COUNT - 1) as nat
                } else {
                    (self.current - 1) as nat
                },
            )
        }
    }

    /// On the status slot, cycle the status; elsewhere start or stop editing. Nothing
    /// happens while a sub-form is open.
    pub open spec fn toggle_edit(self) -> DetailModel {
        if self.in_sub_form() {
            self
        } else if self.current == 1 {
            DetailModel { status: self.status.spec_next(), ..self }
        } else {
            DetailModel { editing: !self.editing, ..self }
        }
    }

    pub open spec fn cancel_edit(self) -> DetailModel {
        DetailModel { editing: false, ..self }
    }

    /// Apply `op` to the text field that input goes to, if there is one.
    pub open spec fn edit(self, op: EditOp) -> DetailModel {
        if self.show_log {
            DetailModel { log_input: self.log_input.apply(op), ..self }
        } else if self.show_ing {
            if self.ing_current < INGREDIENT_TEXT_COUNT {
                DetailModel {
                    ing_fields: self.ing_fields.update(
                        self.ing_current as int,
                        self.ing_fields[self.ing_current as int].apply(op),
                    ),
                    ..self
                }
            } else {
                self
            }
        } else {
            let e = detail_editor(self.current);
            if e >= 0 {
                DetailModel { fields: self.fields.update(e, self.fields[e].apply(op)), ..self }
            } else {
                self
            }
        }
    }

    pub open spec fn on_kind_slot(self) -> bool {
        self.show_ing && self.ing_current == INGREDIENT_TEXT_COUNT
    }

    /// Left: on the kind slot, the preceding kind; elsewhere the cursor moves.
    pub open spec fn left(self) -> DetailModel {
        if self.on_kind_slot() {
            DetailModel { ing_type: self.ing_type.spec_prev(), ..self }
        } else {
            self.edit(EditOp::Left)
        }
    }

    /// Right: on the kind slot, the following kind; elsewhere the cursor moves.
    pub open spec fn right(self) -> DetailModel {
        if self.on_kind_slot() {
            DetailModel { ing_type: self.ing_type.spec_next(), ..self }
        } else {
            self.edit(EditOp::Right)
        }
    }

    pub open spec fn ingredient_inputs_cleared(self) -> DetailModel {
        DetailModel {
            ing_fields: seq![
                self.ing_fields[0].with_value(Seq::empty()),
                self.ing_fields[1].with_value(Seq::empty()),
                self.ing_fields[2].with_value("oz"@),
            ],
            ing_type: IngredientType::Fruit,
            ing_current: 0,
            ..self
        }.ing_focus_synced()
    }

    pub open spec fn parent_focused(self) -> bool {
        let e = detail_editor(self.current);
        e >= 0 && self.fields[e].focused
    }

    /// Open the log sub-form; only from the form itself, not while editing.
    pub open spec fn log_opened(self) -> DetailModel {
        if self.in_sub_form() || self.editing {
            self
        } else {
            DetailModel {
                parent_focus: self.parent_focused(),
                show_log: true,
                log_input: self.log_input.with_focus(true),
                ..self.with_focus(false)
            }
        }
    }

    /// Open the ingredient sub-form; only from the form itself, not while editing.
    pub open spec fn ingredient_opened(self) -> DetailModel {
        if self.in_sub_form() || self.editing {
            self
        } else {
            DetailModel {
                parent_focus: self.parent_focused(),
                show_ing: true,
                ..self.with_focus(false)
            }.ing_focus_synced()
        }
    }

    /// Close any sub-form and give the form's field back the focus it had.
    pub open spec fn sub_forms_closed(self) -> DetailModel {
        if self.in_sub_form() {
            DetailModel {
                show_log: false,
                show_ing: false,
                log_input: self.log_input.with_focus(false),
                ..self
            }.ing_focus_synced().with_focus(self.parent_focus)
        } else {
            self
        }
    }

    /// The screen after a reload that returned this record and its children.
    pub open spec fn loaded(
        self,
        m: MeadModel,
        ingredients: Seq<IngredientModel>,
        log_entries: Seq<LogEntryModel>,
    ) -> DetailModel {
        DetailModel {
            fields: seq![
                self.fields[0].with_value(m.name),
                self.fields[1].with_value(decimal_text(m.current_gravity.milli as int, 3)),
                self.fields[2].with_value(decimal_text(m.yan_added.milli as int, 0)),
                self.fields[3].with_value(m.notes),
            ],
            status: m.status,
            mead: Some(m),
            ingredients,
            log_entries,
            needs_refresh: false,
            ..self
        }
    }

    /// The record with the form's values; a numeric field that does not parse keeps the
    /// record's value.
    pub open spec fn updated_mead(self) -> Option<MeadModel> {
        match self.mead {
            Some(m) => Some(
                MeadModel {
                    name: self.fields[0].value,
                    current_gravity: decimal_or(self.fields[1].value, m.current_gravity.milli),
                    yan_added: decimal_or(self.fields[2].value, m.yan_added.milli),
                    notes: self.fields[3].value,
                    status: self.status,
                    ..m
                },
            ),
            None => None,
        }
    }
}

/// A fresh detail screen that waits for its first load.
pub open spec fn fresh_detail() -> DetailModel {
    DetailModel {
        mead: None,
        ingredients: Seq::empty(),
        log_entries: Seq::empty(),
        needs_refresh: true,
        current: 0,
        editing: false,
        fields: seq![
            blank_field("Name"@, Seq::empty()),
            blank_field("Current Gravity"@, Seq::empty()),
            blank_field("YAN Added"@, Seq::empty()),
            blank_field("Notes"@, Seq::empty()),
        ],
        status: MeadStatus::Planning,
        log_input: blank_field("Log Entry"@, Seq::empty()),
        show_log: false,
        ing_fields: seq![
            blank_field("Ingredient Name"@, Seq::empty()),
            blank_field("Amount"@, Seq::empty()),
            filled_field("Unit"@, "oz"@),
        ],
        ing_type: IngredientType::Fruit,
        show_ing: false,
        ing_current: 0,
        parent_focus: false,
    }
}

/// Navigation on the detail screen wraps at both ends of whichever list is active, keeps
/// the screen well formed, and leaves exactly one text field focused where that slot has one.
pub proof fn lemma_detail_navigation(m: DetailModel)
    requires
        m.wf(),
    ensures
        m.next_field().wf(),
        m.previous_field().wf(),
        m.next_field().focus_exact(),
        m.previous_field().focus_exact(),
        !m.in_sub_form() && m.current == DETAIL_SLOT_COUNT - 1 ==> m.next_field().current == 0,
        !m.in_sub_form() && m.current == 0 ==> m.previous_field().current == DETAIL_SLOT_COUNT
            - 1,
        m.show_ing && m.ing_current == INGREDIENT_SLOT_COUNT - 1 ==> m.next_field().ing_current
            == 0,
        m.show_ing && m.ing_current == 0 ==> m.previous_field().ing_current
            == INGREDIENT_SLOT_COUNT - 1,
        m.in_sub_form() ==> m.next_field().current == m.current && m.previous_field().current
            == m.current,
{
}

/// Text edits, kind cycling and sub-form changes keep the detail screen well formed.
pub proof fn lemma_detail_steps(m: DetailModel, op: EditOp)
    requires
        m.wf(),
    ensures
        m.edit(op).wf(),
        m.left().wf(),
        m.right().wf(),
        m.toggle_edit().wf(),
        m.cancel_edit().wf(),
        m.log_opened().wf(),
        m.ingredient_opened().wf(),
        m.sub_forms_closed().wf(),
        m.ingredient_inputs_cleared().wf(),
{
    lemma_edit_keeps_cursor_in_bounds(m.log_input, op);
    lemma_edit_keeps_cursor_in_bounds(m.log_input, EditOp::Left);
    lemma_edit_keeps_cursor_in_bounds(m.log_input, EditOp::Right);
    if m.ing_current < INGREDIENT_TEXT_COUNT {
        let f = m.ing_fields[m.ing_current as int];
        lemma_edit_keeps_cursor_in_bounds(f, op);
        lemma_edit_keeps_cursor_in_bounds(f, EditOp::Left);
        lemma_edit_keeps_cursor_in_bounds(f, EditOp::Right);
    }
    let e = detail_editor(m.current);
    if e >= 0 {
        lemma_edit_keeps_cursor_in_bounds(m.fields[e], op);
        lemma_edit_keeps_cursor_in_bounds(m.fields[e], EditOp::Left);
        lemma_edit_keeps_cursor_in_bounds(m.fields[e], EditOp::Right);
    }
    assert(m.ingredient_inputs_cleared().ing_fields[2].wf());
}

/// On the status slot with no sub-form open, activating cycles the status and touches nothing
/// else; six activations bring the status back.
pub proof fn lemma_status_slot_cycle(m: DetailModel)
    requires
        m.wf(),
        m.current == 1,
        !m.in_sub_form(),
    ensures
        m.toggle_edit() == (DetailModel { status: m.status.spec_next(), ..m }),
        m.toggle_edit().toggle_edit().toggle_edit().toggle_edit().toggle_edit().toggle_edit()
            == m,
{
    crate::models::lemma_status_cycle(m.status);
}

/// A reload keeps the detail screen well formed.
pub proof fn lemma_detail_loaded(
    m: DetailModel,
    mead: MeadModel,
    ingredients: Seq<IngredientModel>,
    log_entries: Seq<LogEntryModel>,
)
    requires
        m.wf(),
    ensures
        m.loaded(mead, ingredients, log_entries).wf(),
{
}

/// Detail screen state
pub struct MeadDetailView {
    /// The record on show
    pub mead: Option<Mead>,
    /// Its ingredients
    pub ingredients: Vec<Ingredient>,
    /// Its log entries
    pub log_entries: Vec<LogEntry>,
    /// Whether the record must be reloaded from the store
    pub needs_refresh: bool,
    /// Current slot on the form
    pub current_field: usize,
    /// Whether the field at that slot is being edited
    pub editing: bool,
    pub name_input: InputField,
    pub current_gravity_input: InputField,
    pub yan_added_input: InputField,
    pub notes_input: InputField,
    /// Status as shown, cycled on the status slot
    pub current_status: MeadStatus,
    /// Log entry sub-form
    pub log_input: InputField,
    pub show_log_input: bool,
    /// Ingredient sub-form
    pub ingredient_name_input: InputField,
    pub ingredient_amount_input: InputField,
    pub ingredient_unit_input: InputField,
    pub selected_ingredient_type: IngredientType,
    pub show_ingredient_input: bool,
    /// Current slot on the ingredient sub-form
    pub ingredient_field: usize,
    /// Whether the form's own field was focused when a sub-form opened
    pub parent_focus: bool,
}

impl View for MeadDetailView {
    type V = DetailModel;

    open spec fn view(&self) -> DetailModel {
        DetailModel {
            mead: match self.mead {
                Some(m) => Some(m@),
                None => None,
            },
            ingredients: self.ingredients@.map_values(|i: Ingredient| i@),
            log_entries: self.log_entries@.map_values(|e: LogEntry| e@),
            needs_refresh: self.needs_refresh,
            current: self.current_field as nat,
            editing: self.editing,
            fields: seq![
                self.name_input@,
                self.current_gravity_input@,
                self.yan_added_input@,
                self.notes_input@,
            ],
            status: self.current_status,
            log_input: self.log_input@,
            show_log: self.show_log_input,
            ing_fields: seq![
                self.ingredient_name_input@,
                self.ingredient_amount_input@,
                self.ingredient_unit_input@,
            ],
            ing_type: self.selected_ingredient_type,
            show_ing: self.show_ingredient_input,
            ing_current: self.ingredient_field as nat,
            parent_focus: self.parent_focus,
        }
    }
}

impl MeadDetailView {
    pub fn new() -> (r: Self)
        ensures
            r@ == fresh_detail(),
            r@.wf(),
    {
        let r = MeadDetailView {
            mead: None,
            ingredients: Vec::new(),
            log_entries: Vec::new(),
            needs_refresh: true,
            current_field: 0,
            editing: false,
            name_input: InputField::new("Name"),
            current_gravity_input: InputField::new("Current Gravity"),
            yan_added_input: InputField::new("YAN Added"),
            notes_input: InputField::new("Notes"),
            current_status: MeadStatus::Planning,
            log_input: InputField::new("Log Entry"),
            show_log_input: false,
            ingredient_name_input: InputField::new("Ingredient Name"),
            ingredient_amount_input: InputField::new("Amount"),
            ingredient_unit_input: InputField::new("Unit").with_value("oz"),
            selected_ingredient_type: IngredientType::Fruit,
            show_ingredient_input: false,
            ingredient_field: 0,
            parent_focus: false,
        };
        assert(r@.ingredients =~= Seq::empty());
        assert(r@.log_entries =~= Seq::empty());
        assert(r@ =~= fresh_detail());
        r
    }

    /// Show a freshly loaded record and its children.
    pub fn set_mead(&mut self, mead: Mead, ingredients: Vec<Ingredient>, log_entries: Vec<LogEntry>)
        requires
            old(self)@.wf(),
        ensures
            final(self)@ == old(self)@.loaded(
                mead@,
                ingredients@.map_values(|i: Ingredient| i@),
                log_entries@.map_values(|e: LogEntry| e@),
            ),
            final(self)@.wf(),
    {
        proof {
            lemma_detail_loaded(
                self@,
                mead@,
                ingredients@.map_values(|i: Ingredient| i@),
                log_entries@.map_values(|e: LogEntry| e@),
            );
        }
        self.name_input.set_value(mead.name.as_str());
        let gravity = mead.current_gravity.to_text(3);
        self.current_gravity_input.set_value(gravity.as_str());
        let added = mead.yan_added.to_text(0);
        self.yan_added_input.set_value(added.as_str());
        self.notes_input.set_value(mead.notes.as_str());
        self.current_status = mead.status;
        self.mead = Some(mead);
        self.ingredients = ingredients;
        self.log_entries = log_entries;
        self.needs_refresh = false;
        assert(self@.fields =~= old(self)@.loaded(
            mead@,
            ingredients@.map_values(|i: Ingredient| i@),
            log_entries@.map_values(|e: LogEntry| e@),
        ).fields);
    }

    pub fn next_field(&mut self)
        requires
            old(self)@.wf(),
        ensures
            final(self)@ == old(self)@.next_field(),
            final(self)@.wf(),
    {
        proof {
            lemma_detail_navigation(self@);
        }
        if self.show_log_input {
            return;
        }
        if self.show_ingredient_input {
            self.ingredient_field = (self.ingredient_field + 1) % INGREDIENT_SLOT_COUNT;
            self.update_ingredient_focus();
            return;
        }
        self.set_field_focus(false);
        self.editing = false;
        self.current_field = (self.current_field + 1) % DetailField::count();
        self.set_field_focus(true);
    }

    pub fn previous_field(&mut self)
        requires
            old(self)@.wf(),
        ensures
            final(self)@ == old(self)@.previous_field(),
            final(self)@.wf(),
    {
        proof {
            lemma_detail_navigation(self@);
        }
        if self.show_log_input {
            return;
        }
        if self.show_ingredient_input {
            if self.ingredient_field == 0 {
                self.ingredient_field = INGREDIENT_SLOT_COUNT - 1;
            } else {
                self.ingredient_field = self.ingredient_field - 1;
            }
            self.update_ingredient_focus();
            return;
        }
        self.set_field_focus(false);
        self.editing = false;
        if self.current_field == 0 {
            self.current_field = DetailField::count() - 1;
        } else {
            self.current_field = self.current_field - 1;
        }
        self.set_field_focus(true);
    }

    /// Focus the ingredient field at the sub-form's slot, while the sub-form is shown.
    fn update_ingredient_focus(&mut self)
        ensures
            final(self)@ == old(self)@.ing_focus_synced(),
    {
        let shown = self.show_ingredient_input;
        self.ingredient_name_input.set_focused(shown && self.ingredient_field == 0);
        self.ingredient_amount_input.set_focused(shown && self.ingredient_field == 1);
        self.ingredient_unit_input.set_focused(shown && self.ingredient_field == 2);
        assert(self@.ing_fields =~= old(self)@.ing_focus_synced().ing_fields);
    }

    fn set_field_focus(&mut self, focused: bool)
        ensures
            final(self)@ == old(self)@.with_focus(focused),
    {
        match DetailField::from_index(self.current_field) {
            DetailField::Name => self.name_input.set_focused(focused),
            DetailField::Status => {},
            DetailField::CurrentGravity => self.current_gravity_input.set_focused(focused),
            DetailField::YanAdded => self.yan_added_input.set_focused(focused),
            DetailField::Notes => self.notes_input.set_focused(focused),
        }
        assert(self@.fields =~= old(self)@.with_focus(focused).fields);
    }

    /// Apply `op` to the text field that input goes to, if there is one.
    pub fn edit_current(&mut self, op: EditOp)
        requires
            old(self)@.wf(),
        ensures
            final(self)@ == old(self)@.edit(op),
            final(self)@.wf(),
    {
        proof {
            lemma_detail_steps(self@, op);
        }
        if self.show_log_input {
            self.log_input.apply(op);
            return;
        }
        if self.show_ingredient_input {
            match self.ingredient_field {
                0 => self.ingredient_name_input.apply(op),
                1 => self.ingredient_amount_input.apply(op),
                2 => self.ingredient_unit_input.apply(op),
                _ => {},
            }
            assert(self@.ing_fields =~= old(self)@.edit(op).ing_fields);
            return;
        }
        match DetailField::from_index(self.current_field) {
            DetailField::Name => self.name_input.apply(op),
            DetailField::Status => {},
            DetailField::CurrentGravity => self.current_gravity_input.apply(op),
            DetailField::YanAdded => self.yan_added_input.apply(op),
            DetailField::Notes => self.notes_input.apply(op),
        }
        assert(self@.fields =~= old(self)@.edit(op).fields);
    }

    pub fn is_editing(&self) -> (r: bool)
        ensures
            r == self@.editing,
    {
        self.editing
    }

    /// Whether a sub-form is shown.
    pub fn in_sub_form(&self) -> (r: bool)
        ensures
            r == self@.in_sub_form(),
    {
        self.show_log_input || self.show_ingredient_input
    }

    /// On the status slot, cycle the status; elsewhere start or stop editing.
    pub fn toggle_edit(&mut self)
        requires
            old(self)@.wf(),
        ensures
            final(self)@ == old(self)@.toggle_edit(),
            final(self)@.wf(),
    {
        proof {
            lemma_detail_steps(self@, EditOp::Left);
        }
        if self.in_sub_form() {
            return;
        }
        let field = DetailField::from_index(self.current_field);
        if field == DetailField::Status {
            self.current_status = self.current_status.next();
        } else {
            self.editing = !self.editing;
        }
    }

    pub fn cancel_edit(&mut self)
        requires
            old(self)@.wf(),
        ensures
            final(self)@ == old(self)@.cancel_edit(),
            final(self)@.wf(),
    {
        self.editing = false;
    }

    pub fn insert_char(&mut self, c: char)
        requires
            old(self)@.wf(),
        ensures
            final(self)@ == old(self)@.edit(EditOp::Insert(c)),
            final(self)@.wf(),
    {
        self.edit_current(EditOp::Insert(c));
    }

    pub fn delete_char(&mut self)
        requires
            old(self)@.wf(),
        ensures
            final(self)@ == old(self)@.edit(EditOp::DeleteBefore),
            final(self)@.wf(),
    {
        self.edit_current(EditOp::DeleteBefore);
    }

    pub fn delete_char_forward(&mut self)
        requires
            old(self)@.wf(),
        ensures
            final(self)@ == old(self)@.edit(EditOp::DeleteAt),
            final(self)@.wf(),
    {
        self.edit_current(EditOp::DeleteAt);
    }

    /// On the kind slot, select the preceding kind; elsewhere move the cursor left.
    pub fn move_cursor_left(&mut self)
        requires
            old(self)@.wf(),
        ensures
            final(self)@ == old(self)@.left(),
            final(self)@.wf(),
    {
        proof {
            lemma_detail_steps(self@, EditOp::Left);
        }
        if self.show_ingredient_input && self.ingredient_field == INGREDIENT_TEXT_COUNT {
            self.selected_ingredient_type = self.selected_ingredient_type.prev();
            return;
        }
        self.edit_current(EditOp::Left);
    }

    /// On the kind slot, select the following kind; elsewhere move the cursor right.
    pub fn move_cursor_right(&mut self)
        requires
            old(self)@.wf(),
        ensures
            final(self)@ == old(self)@.right(),
            final(self)@.wf(),
    {
        proof {
            lemma_detail_steps(self@, EditOp::Right);
        }
        if self.show_ingredient_input && self.ingredient_field == INGREDIENT_TEXT_COUNT {
            self.selected_ingredient_type = self.selected_ingredient_type.next();
            return;
        }
        self.edit_current(EditOp::Right);
    }

    /// Open the log sub-form, from the form itself and not while editing.
    pub fn open_log_input(&mut self)
        requires
            old(self)@.wf(),
        ensures
            final(self)@ == old(self)@.log_opened(),
            final(self)@.wf(),
    {
        proof {
            lemma_detail_steps(self@, EditOp::Left);
        }
        if self.in_sub_form() || self.editing {
            return;
        }
        self.parent_focus = self.parent_focused();
        self.set_field_focus(false);
        self.show_log_input = true;
        self.log_input.set_focused(true);
    }

    /// Open the ingredient sub-form, from the form itself and not while editing.
    pub fn open_ingredient_input(&mut self)
        requires
            old(self)@.wf(),
        ensures
            final(self)@ == old(self)@.ingredient_opened(),
            final(self)@.wf(),
    {
        proof {
            lemma_detail_steps(self@, EditOp::Left);
        }
        if self.in_sub_form() || self.editing {
            return;
        }
        self.parent_focus = self.parent_focused();
        self.set_field_focus(false);
        self.show_ingredient_input = true;
        self.update_ingredient_focus();
    }

    /// Close any sub-form and give the form's field back the focus it had.
    pub fn close_sub_forms(&mut self)
        requires
            old(self)@.wf(),
        ensures
            final(self)@ == old(self)@.sub_forms_closed(),
            final(self)@.wf(),
    {
        proof {
            lemma_detail_steps(self@, EditOp::Left);
        }
        if !self.in_sub_form() {
            return;
        }
        self.show_log_input = false;
        self.show_ingredient_input = false;
        self.log_input.set_focused(false);
        self.update_ingredient_focus();
        let restore = self.parent_focus;
        self.set_field_focus(restore);
    }

    fn parent_focused(&self) -> (r: bool)
        ensures
            r == self@.parent_focused(),
    {
        match DetailField::from_index(self.current_field) {
            DetailField::Name => self.name_input.focused,
            DetailField::Status => false,
            DetailField::CurrentGravity => self.current_gravity_input.focused,
            DetailField::YanAdded => self.yan_added_input.focused,
            DetailField::Notes => self.notes_input.focused,
        }
    }

    pub fn clear_ingredient_inputs(&mut self)
        requires
            old(self)@.wf(),
        ensures
            final(self)@ == old(self)@.ingredient_inputs_cleared(),
            final(self)@.wf(),
    {
        proof {
            lemma_detail_steps(self@, EditOp::Left);
        }
        self.ingredient_name_input.clear();
        self.ingredient_amount_input.clear();
        self.ingredient_unit_input.set_value("oz");
        self.selected_ingredient_type = IngredientType::Fruit;
        self.ingredient_field = 0;
        self.update_ingredient_focus();
        assert(self@.ing_fields =~= old(self)@.ingredient_inputs_cleared().ing_fields);
    }

    /// The screen's title: the record's name and status, or a plain heading before any load.
    pub fn title(&self) -> (r: String)
        ensures
            r@ == match self@.mead {
                Some(m) => m.name + " - "@ + m.status.name(),
                None => "Mead Details"@,
            },
    {
        match &self.mead {
            Some(m) => join3(m.name.as_str(), " - ", m.status.as_str()),
            None => String::from_str("Mead Details"),
        }
    }

    /// The record with the form's values; `None` before any record is loaded.
    pub fn get_updated_mead(&self) -> (r: Option<Mead>)
        ensures
            match r {
                Some(m) => self@.updated_mead() == Some(m@),
                None => self@.updated_mead() is None,
            },
    {
        match &self.mead {
            Some(m) => {
                let mut updated = m.duplicate();
                updated.name = String::from_str(self.name_input.get_value());
                updated.current_gravity =
                    match self.current_gravity_input.numeric_value() {
                        Some(d) => d,
                        None => m.current_gravity,
                    };
                updated.yan_added =
                    match self.yan_added_input.numeric_value() {
                        Some(d) => d,
                        None => m.yan_added,
                    };
                updated.notes = String::from_str(self.notes_input.get_value());
                updated.status = self.current_status;
                Some(updated)
            },
            None => None,
        }
    }
}

impl Default for MeadDetailView {
    fn default() -> (r: Self)
        ensures
            r@ == fresh_detail(),
            r@.wf(),
    {
        MeadDetailView::new()
    }
}

} // verus!
