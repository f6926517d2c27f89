use vstd::prelude::*;
use vstd::string::*;
use crate::decimal::{parse_decimal, Decimal};
use crate::input_field::{lemma_edit_keeps_cursor_in_bounds, EditOp, FieldModel, InputField};
use crate::models::{
    default_mead, utc_date, utc_date_string, Mead, MeadModel, MeadStatus,
};

verus! {

/// Slots on the form: ten text fields and the submit button.
pub const NEW_MEAD_SLOT_COUNT: usize = 11;

/// Slots that hold a text field; the slot after them is the submit button.
pub const NEW_MEAD_TEXT_COUNT: usize = 10;

/// Field slots for navigation
#[derive(Clone, Copy, PartialEq, Eq, Structural, Debug)]
pub enum NewMeadField {
    Name,
    StartDate,
    HoneyType,
    HoneyAmount,
    YeastStrain,
    TargetAbv,
    StartingGravity,
    VolumeGallons,
    YanRequired,
    Notes,
    Submit,
}

impl NewMeadField {
    pub open spec fn spec_from_index(i: int) -> NewMeadField {
        if i == 0 {
            NewMeadField::Name
        } else if i == 1 {
            NewMeadField::StartDate
        } else if i == 2 {
            NewMeadField::HoneyType
        } else if i == 3 {
            NewMeadField::HoneyAmount
        } else if i == 4 {
            NewMeadField::YeastStrain
        } else if i == 5 {
            NewMeadField::TargetAbv
        } else if i == 6 {
            NewMeadField::StartingGravity
        } else if i == 7 {
            NewMeadField::VolumeGallons
        } else if i == 8 {
            NewMeadField::YanRequired
        } else if i == 9 {
            NewMeadField::Notes
        } else {
            NewMeadField::Submit
        }
    }

    /// The slot at position `i`; every position past the text fields is the submit button.
    pub fn from_index(i: usize) -> (r: Self)
        ensures
            r == NewMeadField::spec_from_index(i as int),
    {
        match i {
            0 => NewMeadField::Name,
            1 => NewMeadField::StartDate,
            2 => NewMeadField::HoneyType,
            3 => NewMeadField::HoneyAmount,
            4 => NewMeadField::YeastStrain,
            5 => NewMeadField::TargetAbv,
            6 => NewMeadField::StartingGravity,
            7 => NewMeadField::VolumeGallons,
            8 => NewMeadField::YanRequired,
            9 => NewMeadField::Notes,
            _ => NewMeadField::Submit,
        }
    }

    pub fn count() -> (r: usize)
        ensures
            r == NEW_MEAD_SLOT_COUNT,
    {
        NEW_MEAD_SLOT_COUNT
    }
}

/// A text field with a label and a placeholder, empty.
pub open spec fn blank_field(label: Seq<char>, placeholder: Seq<char>) -> FieldModel {
    FieldModel { label, value: Seq::empty(), cursor: 0, focused: false, placeholder }
}

/// A text field with a label and a value, the cursor at its end.
pub open spec fn filled_field(label: Seq<char>, value: Seq<char>) -> FieldModel {
    FieldModel { label, value, cursor: value.len(), focused: false, placeholder: Seq::empty() }
}

/// The number a text spells, or `fallback` thousandths where it spells none.
pub open spec fn decimal_or(s: Seq<char>, fallback: i64) -> Decimal {
    match parse_decimal(s) {
        Some(d) => d,
        None => Decimal { milli: fallback },
    }
}

/// The form as the rest of the library sees it: the text fields in slot order.
pub struct NewMeadModel {
    pub fields: Seq<FieldModel>,
    pub current: nat,
    pub editing: bool,
}

impl NewMeadModel {
    pub open spec fn wf(self) -> bool {
        &&& self.fields.len() == NEW_MEAD_TEXT_COUNT
        &&& self.current < NEW_MEAD_SLOT_COUNT
        &&& self.editing ==> self.current < NEW_MEAD_TEXT_COUNT
        &&& forall|i: int| 0 <= i < NEW_MEAD_TEXT_COUNT ==> (#[trigger] self.fields[i]).wf()
        &&& forall|i: int|
            0 <= i < NEW_MEAD_TEXT_COUNT && (#[trigger] self.fields[i]).focused ==> i
                == self.current
    }

    /// Exactly the field at the current slot is focused, none where that slot is the button.
    pub open spec fn focus_exact(self) -> bool {
        forall|i: int|
            0 <= i < NEW_MEAD_TEXT_COUNT ==> (#[trigger] self.fields[i]).focused == (i
                == self.current)
    }

    pub open spec fn on_submit(self) -> bool {
        self.current >= NEW_MEAD_TEXT_COUNT
    }

    pub open spec fn with_focus(self, focused: bool) -> NewMeadModel {
        if self.current < NEW_MEAD_TEXT_COUNT {
            NewMeadModel {
                fields: self.fields.update(
                    self.current as int,
                    self.fields[self.current as int].with_focus(focused),
                ),
                ..self
            }
        } else {
            self
        }
    }

    /// Leave the current slot for `slot`, moving the focus along and ending any edit.
    pub open spec fn moved_to(self, slot: nat) -> NewMeadModel {
        NewMeadModel { current: slot, editing: false, ..self.with_focus(false) }.with_focus(true)
    }

    pub open spec fn next_field(self) -> NewMeadModel {
        self.moved_to(((self.current + 1) % (NEW_MEAD_SLOT_COUNT as nat)) as nat)
    }

    pub open spec fn previous_field(self) -> NewMeadModel {
        self.moved_to(
            if self.current == 0 {
                (NEW_MEAD_SLOT_COUNT - 1) as nat
            } else {
                (self.current - 1) as nat
            },
        )
    }

    pub open spec fn toggle_edit(self) -> NewMeadModel {
        if !self.on_submit() {
            NewMeadModel { editing: !self.editing, ..self }
        } else {
            self
        }
    }

    pub open spec fn cancel_edit(self) -> NewMeadModel {
        NewMeadModel { editing: false, ..self }
    }

    /// Apply `op` to the text field at the current slot, if there is one.
    pub open spec fn edit(self, op: EditOp) -> NewMeadModel {
        if self.current < NEW_MEAD_TEXT_COUNT {
            NewMeadModel {
                fields: self.fields.update(
                    self.current as int,
                    self.fields[self.current as int].apply(op),
                ),
                ..self
            }
        } else {
            self
        }
    }

    /// The record that the form describes, made at time `now`.
    pub open spec fn built_mead(self, now: i64) -> MeadModel {
        MeadModel {
            name: self.fields[0].value,
            start_date: self.fields[1].value,
            honey_type: self.fields[2].value,
            honey_amount_lbs: decimal_or(self.fields[3].value, 0),
            yeast_strain: self.fields[4].value,
            target_abv: decimal_or(self.fields[5].value, 14000),
            starting_gravity: decimal_or(self.fields[6].value, 1100),
            current_gravity: decimal_or(self.fields[6].value, 1100),
            volume_gallons: decimal_or(self.fields[7].value, 1000),
            yan_required: decimal_or(self.fields[8].value, 0),
            yan_added: Decimal { milli: 0 },
            status: MeadStatus::Primary,
            notes: self.fields[9].value,
            ..default_mead(now)
        }
    }
}

/// A fresh form whose start date reads `today`.
pub open spec fn fresh_form(today: Seq<char>) -> NewMeadModel {
    NewMeadModel {
        fields: seq![
            blank_field("Name"@, "My First Mead"@),
            filled_field("Start Date"@, today),
            blank_field("Honey Type"@, "Wildflower, Clover, etc."@),
            filled_field("Honey (lbs)"@, "3.0"@),
            blank_field("Yeast Strain"@, "Lalvin 71B, D47, etc."@),
            filled_field("Target ABV %"@, "14.0"@),
            filled_field("Starting Gravity"@, "1.100"@),
            filled_field("Volume (gallons)"@, "1.0"@),
            filled_field("YAN Required (ppm)"@, "200"@),
            blank_field("Notes"@, "Any additional notes..."@),
        ],
        current: 0,
        editing: false,
    }
}

/// Navigation wraps at both ends, keeps the form well formed, and leaves the focus on
/// exactly the field at the new slot.
pub proof fn lemma_new_mead_navigation(m: NewMeadModel)
    requires
        m.wf(),
    ensures
        m.next_field().wf(),
        m.previous_field().wf(),
        m.next_field().focus_exact(),
        m.previous_field().focus_exact(),
        !m.next_field().editing,
        !m.previous_field().editing,
        m.current == NEW_MEAD_SLOT_COUNT - 1 ==> m.next_field().current == 0,
        m.current == 0 ==> m.previous_field().current == NEW_MEAD_SLOT_COUNT - 1,
        m.current < NEW_MEAD_SLOT_COUNT - 1 ==> m.next_field().current == m.current + 1,
        m.current > 0 ==> m.previous_field().current == m.current - 1,
{
}

/// An edit keeps the form well formed and touches only the field at the current slot.
pub proof fn lemma_new_mead_edit(m: NewMeadModel, op: EditOp)
    requires
        m.wf(),
    ensures
        m.edit(op).wf(),
        m.edit(op).current == m.current,
        m.edit(op).editing == m.editing,
        forall|i: int|
            0 <= i < NEW_MEAD_TEXT_COUNT && i != m.current ==> m.edit(op).fields[i] == m.fields[i],
{
    if m.current < NEW_MEAD_TEXT_COUNT {
        lemma_edit_keeps_cursor_in_bounds(m.fields[m.current as int], op);
    }
}

/// New-record form state
pub struct NewMeadView {
    pub name: InputField,
    pub start_date: InputField,
    pub honey_type: InputField,
    pub honey_amount: InputField,
    pub yeast_strain: InputField,
    pub target_abv: InputField,
    pub starting_gravity: InputField,
    pub volume_gallons: InputField,
    pub yan_required: InputField,
    pub notes: InputField,
    /// Currently selected slot
    pub current_field: usize,
    /// Whether the field at that slot is being edited
    pub editing: bool,
}

impl View for NewMeadView {
    type V = NewMeadModel;

    open spec fn view(&self) -> NewMeadModel {
        NewMeadModel {
            fields: seq![
                self.name@,
                self.start_date@,
                self.honey_type@,
                self.honey_amount@,
                self.yeast_strain@,
                self.target_abv@,
                self.starting_gravity@,
                self.volume_gallons@,
                self.yan_required@,
                self.notes@,
            ],
            current: self.current_field as nat,
            editing: self.editing,
        }
    }
}

/// The parsed value of a field, or `fallback` thousandths.
fn numeric_or(field: &InputField, fallback: i64) -> (r: Decimal)
    ensures
        r == decimal_or(field.value@, fallback),
{
    match field.numeric_value() {
        Some(d) => d,
        None => Decimal { milli: fallback },
    }
}

impl NewMeadView {
    /// A fresh form dated on the day of time `now`.
    pub fn new(now: i64) -> (r: Self)
        ensures
            r@ == fresh_form(utc_date(now)),
            r@.wf(),
    {
        let today = utc_date_string(now);
        let r = NewMeadView {
            name: InputField::new("Name").with_placeholder("My First Mead"),
            start_date: InputField::new("Start Date").with_value(today.as_str()),
            honey_type: InputField::new("Honey Type").with_placeholder("Wildflower, Clover, etc."),
            honey_amount: InputField::new("Honey (lbs)").with_value("3.0"),
            yeast_strain: InputField::new("Yeast Strain").with_placeholder(
                "Lalvin 71B, D47, etc.",
            ),
            target_abv: InputField::new("Target ABV %").with_value("14.0"),
            starting_gravity: InputField::new("Starting Gravity").with_value("1.100"),
            volume_gallons: InputField::new("Volume (gallons)").with_value("1.0"),
            yan_required: InputField::new("YAN Required (ppm)").with_value("200"),
            notes: InputField::new("Notes").with_placeholder("Any additional notes..."),
            current_field: 0,
            editing: false,
        };
        assert(r@ =~= fresh_form(utc_date(now)));
        r
    }

    fn set_field_focus(&mut self, focused: bool)
        ensures
            final(self)@ == old(self)@.with_focus(focused),
    {
        match self.current_field {
            0 => self.name.set_focused(focused),
            1 => self.start_date.set_focused(focused),
            2 => self.honey_type.set_focused(focused),
            3 => self.honey_amount.set_focused(focused),
            4 => self.yeast_strain.set_focused(focused),
            5 => self.target_abv.set_focused(focused),
            6 => self.starting_gravity.set_focused(focused),
            7 => self.volume_gallons.set_focused(focused),
            8 => self.yan_required.set_focused(focused),
            9 => self.notes.set_focused(focused),
            _ => {},
        }
        assert(self@.fields =~= old(self)@.with_focus(focused).fields);
    }

    pub fn next_field(&mut self)
        requires
            old(self)@.wf(),
        ensures
            final(self)@ == old(self)@.next_field(),
            final(self)@.wf(),
    {
        proof {
            lemma_new_mead_navigation(self@);
        }
        self.set_field_focus(false);
        self.editing = false;
        self.current_field = (self.current_field + 1) % NewMeadField::count();
        self.set_field_focus(true);
    }

    pub fn previous_field(&mut self)
        requires
            old(self)@.wf(),
        ensures
            final(self)@ == old(self)@.previous_field(),
            final(self)@.wf(),
    {
        proof {
            lemma_new_mead_navigation(self@);
        }
        self.set_field_focus(false);
        self.editing = false;
        if self.current_field == 0 {
            self.current_field = NewMeadField::count() - 1;
        } else {
            self.current_field = self.current_field - 1;
        }
        self.set_field_focus(true);
    }

    /// Apply `op` to the text field at the current slot, if there is one.
    pub fn edit_current(&mut self, op: EditOp)
        requires
            old(self)@.wf(),
        ensures
            final(self)@ == old(self)@.edit(op),
            final(self)@.wf(),
    {
        proof {
            lemma_new_mead_edit(self@, op);
        }
        match NewMeadField::from_index(self.current_field) {
            NewMeadField::Name => self.name.apply(op),
            NewMeadField::StartDate => self.start_date.apply(op),
            NewMeadField::HoneyType => self.honey_type.apply(op),
            NewMeadField::HoneyAmount => self.honey_amount.apply(op),
            NewMeadField::YeastStrain => self.yeast_strain.apply(op),
            NewMeadField::TargetAbv => self.target_abv.apply(op),
            NewMeadField::StartingGravity => self.starting_gravity.apply(op),
            NewMeadField::VolumeGallons => self.volume_gallons.apply(op),
            NewMeadField::YanRequired => self.yan_required.apply(op),
            NewMeadField::Notes => self.notes.apply(op),
            NewMeadField::Submit => {},
        }
        assert(self@.fields =~= old(self)@.edit(op).fields);
    }

    pub fn is_editing(&self) -> (r: bool)
        ensures
            r == self@.editing,
    {
        self.editing
    }

    pub fn is_on_submit(&self) -> (r: bool)
        ensures
            r == self@.on_submit(),
    {
        NewMeadField::from_index(self.current_field) == NewMeadField::Submit
    }

    pub fn toggle_edit(&mut self)
        requires
            old(self)@.wf(),
        ensures
            final(self)@ == old(self)@.toggle_edit(),
            final(self)@.wf(),
    {
        if !self.is_on_submit() {
            self.editing = !self.editing;
        }
    }

    pub fn cancel_edit(&mut self)
        requires
            old(self)@.wf(),
        ensures
            final(self)@ == old(self)@.cancel_edit(),
            final(self)@.wf(),
    {
        self.editing = false;
    }

    pub fn insert_char(&mut self, c: char)
        requires
            old(self)@.wf(),
        ensures
            final(self)@ == old(self)@.edit(EditOp::Insert(c)),
            final(self)@.wf(),
    {
        self.edit_current(EditOp::Insert(c));
    }

    pub fn delete_char(&mut self)
        requires
            old(self)@.wf(),
        ensures
            final(self)@ == old(self)@.edit(EditOp::DeleteBefore),
            final(self)@.wf(),
    {
        self.edit_current(EditOp::DeleteBefore);
    }

    pub fn delete_char_forward(&mut self)
        requires
            old(self)@.wf(),
        ensures
            final(self)@ == old(self)@.edit(EditOp::DeleteAt),
            final(self)@.wf(),
    {
        self.edit_current(EditOp::DeleteAt);
    }

    pub fn move_cursor_left(&mut self)
        requires
            old(self)@.wf(),
        ensures
            final(self)@ == old(self)@.edit(EditOp::Left),
            final(self)@.wf(),
    {
        self.edit_current(EditOp::Left);
    }

    pub fn move_cursor_right(&mut self)
        requires
            old(self)@.wf(),
        ensures
            final(self)@ == old(self)@.edit(EditOp::Right),
            final(self)@.wf(),
    {
        self.edit_current(EditOp::Right);
    }

    pub fn move_cursor_start(&mut self)
        requires
            old(self)@.wf(),
        ensures
            final(self)@ == old(self)@.edit(EditOp::Start),
            final(self)@.wf(),
    {
        self.edit_current(EditOp::Start);
    }

    pub fn move_cursor_end(&mut self)
        requires
            old(self)@.wf(),
        ensures
            final(self)@ == old(self)@.edit(EditOp::End),
            final(self)@.wf(),
    {
        self.edit_current(EditOp::End);
    }

    /// The record that the form describes, stamped with time `now`; a numeric field that
    /// does not parse takes its default.
    pub fn build_mead(&self, now: i64) -> (r: Mead)
        ensures
            r@ == self@.built_mead(now),
    {
        let mut m = Mead::default_at(now);
        m.name = String::from_str(self.name.get_value());
        m.start_date = String::from_str(self.start_date.get_value());
        m.honey_type = String::from_str(self.honey_type.get_value());
        m.honey_amount_lbs = numeric_or(&self.honey_amount, 0);
        m.yeast_strain = String::from_str(self.yeast_strain.get_value());
        m.target_abv = numeric_or(&self.target_abv, 14000);
        m.starting_gravity = numeric_or(&self.starting_gravity, 1100);
        m.current_gravity = numeric_or(&self.starting_gravity, 1100);
        m.volume_gallons = numeric_or(&self.volume_gallons, 1000);
        m.yan_required = numeric_or(&self.yan_required, 0);
        m.yan_added = Decimal { milli: 0 };
        m.status = MeadStatus::Primary;
        m.notes = String::from_str(self.notes.get_value());
        m
    }

}

} // verus!
