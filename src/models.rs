use vstd::prelude::*;
use vstd::string::*;
use crate::decimal::Decimal;
use crate::text::{lower_of, lowercase, text_eq};

verus! {

/// The UTC calendar date, as `YYYY-MM-DD`, of a time in seconds since the Unix epoch.
pub uninterp spec fn utc_date(secs: i64) -> Seq<char>;

/// Relies on `chrono::DateTime::from_timestamp` and its `%Y-%m-%d` format: the date of
/// that instant in UTC, which depends on `secs` alone.
#[verifier::external_body]
pub(crate) fn utc_date_string(secs: i64) -> (r: String)
    ensures
        r@ == utc_date(secs),
{
    match chrono::DateTime::from_timestamp(secs, 0) {
        Some(t) => t.format("%Y-%m-%d").to_string(),
        None => String::new(),
    }
}

/// Status of a batch
#[derive(Clone, Copy, PartialEq, Eq, Structural, Debug)]
pub enum MeadStatus {
    Planning,
    Primary,
    Secondary,
    Aging,
    Bottled,
    Finished,
}

impl MeadStatus {
    pub open spec fn name(self) -> Seq<char> {
        match self {
            MeadStatus::Planning => "Planning"@,
            MeadStatus::Primary => "Primary"@,
            MeadStatus::Secondary => "Secondary"@,
            MeadStatus::Aging => "Aging"@,
            MeadStatus::Bottled => "Bottled"@,
            MeadStatus::Finished => "Finished"@,
        }
    }

    /// The status whose lowercase name is `t`; `Planning` where none is.
    pub open spec fn from_lower(t: Seq<char>) -> MeadStatus {
        if t == "primary"@ {
            MeadStatus::Primary
        } else if t == "secondary"@ {
            MeadStatus::Secondary
        } else if t == "aging"@ {
            MeadStatus::Aging
        } else if t == "bottled"@ {
            MeadStatus::Bottled
        } else if t == "finished"@ {
            MeadStatus::Finished
        } else {
            MeadStatus::Planning
        }
    }

    pub open spec fn spec_next(self) -> MeadStatus {
        match self {
            MeadStatus::Planning => MeadStatus::Primary,
            MeadStatus::Primary => MeadStatus::Secondary,
            MeadStatus::Secondary => MeadStatus::Aging,
            MeadStatus::Aging => MeadStatus::Bottled,
            MeadStatus::Bottled => MeadStatus::Finished,
            MeadStatus::Finished => MeadStatus::Planning,
        }
    }

    pub open spec fn spec_prev(self) -> MeadStatus {
        match self {
            MeadStatus::Planning => MeadStatus::Finished,
            MeadStatus::Primary => MeadStatus::Planning,
            MeadStatus::Secondary => MeadStatus::Primary,
            MeadStatus::Aging => MeadStatus::Secondary,
            MeadStatus::Bottled => MeadStatus::Aging,
            MeadStatus::Finished => MeadStatus::Bottled,
        }
    }

    pub fn as_str(&self) -> (r: &'static str)
        ensures
            r@ == self.name(),
    {
        match self {
            MeadStatus::Planning => "Planning",
            MeadStatus::Primary => "Primary",
            MeadStatus::Secondary => "Secondary",
            MeadStatus::Aging => "Aging",
            MeadStatus::Bottled => "Bottled",
            MeadStatus::Finished => "Finished",
        }
    }

    /// The status named by `s`, in any letter case; `Planning` for any other text.
    pub fn from_str(s: &str) -> (r: Self)
        ensures
            r == MeadStatus::from_lower(lower_of(s@)),
    {
        let t = lowercase(s);
        MeadStatus::from_lowercase(t.as_str())
    }

    /// The status whose lowercase name is `t`; `Planning` for any other text.
    pub fn from_lowercase(t: &str) -> (r: Self)
        ensures
            r == MeadStatus::from_lower(t@),
    {
        if text_eq(t, "primary") {
            MeadStatus::Primary
        } else if text_eq(t, "secondary") {
            MeadStatus::Secondary
        } else if text_eq(t, "aging") {
            MeadStatus::Aging
        } else if text_eq(t, "bottled") {
            MeadStatus::Bottled
        } else if text_eq(t, "finished") {
            MeadStatus::Finished
        } else {
            MeadStatus::Planning
        }
    }

    pub fn all() -> (r: Vec<MeadStatus>)
        ensures
            r@ == seq![
                MeadStatus::Planning,
                MeadStatus::Primary,
                MeadStatus::Secondary,
                MeadStatus::Aging,
                MeadStatus::Bottled,
                MeadStatus::Finished,
            ],
    {
        vec![
            MeadStatus::Planning,
            MeadStatus::Primary,
            MeadStatus::Secondary,
            MeadStatus::Aging,
            MeadStatus::Bottled,
            MeadStatus::Finished,
        ]
    }

    /// The following status, wrapping from the last to the first.
    pub fn next(&self) -> (r: Self)
        ensures
            r == self.spec_next(),
    {
        match self {
            MeadStatus::Planning => MeadStatus::Primary,
            MeadStatus::Primary => MeadStatus::Secondary,
            MeadStatus::Secondary => MeadStatus::Aging,
            MeadStatus::Aging => MeadStatus::Bottled,
            MeadStatus::Bottled => MeadStatus::Finished,
            MeadStatus::Finished => MeadStatus::Planning,
        }
    }

    /// The preceding status, wrapping from the first to the last.
    pub fn prev(&self) -> (r: Self)
        ensures
            r == self.spec_prev(),
    {
        match self {
            MeadStatus::Planning => MeadStatus::Finished,
            MeadStatus::Primary => MeadStatus::Planning,
            MeadStatus::Secondary => MeadStatus::Primary,
            MeadStatus::Aging => MeadStatus::Secondary,
            MeadStatus::Bottled => MeadStatus::Aging,
            MeadStatus::Finished => MeadStatus::Bottled,
        }
    }
}

/// Cycling the status forward six times returns to the start, and `prev` undoes `next`.
pub proof fn lemma_status_cycle(s: MeadStatus)
    ensures
        s.spec_next().spec_next().spec_next().spec_next().spec_next().spec_next() == s,
        s.spec_next().spec_prev() == s,
        s.spec_prev().spec_next() == s,
{
}

/// Fewer than six forward steps never return to the start.
pub proof fn lemma_status_cycle_minimal(s: MeadStatus)
    ensures
        s.spec_next() != s,
        s.spec_next().spec_next() != s,
        s.spec_next().spec_next().spec_next() != s,
        s.spec_next().spec_next().spec_next().spec_next() != s,
        s.spec_next().spec_next().spec_next().spec_next().spec_next() != s,
{
}

/// Kind of an added ingredient
#[derive(Clone, Copy, PartialEq, Eq, Structural, Debug)]
pub enum IngredientType {
    Fruit,
    Spice,
    Nutrient,
    Adjunct,
    Other,
}

impl IngredientType {
    pub open spec fn name(self) -> Seq<char> {
        match self {
            IngredientType::Fruit => "Fruit"@,
            IngredientType::Spice => "Spice"@,
            IngredientType::Nutrient => "Nutrient"@,
            IngredientType::Adjunct => "Adjunct"@,
            IngredientType::Other => "Other"@,
        }
    }

    /// The kind whose lowercase name is `t`; `Other` where none is.
    pub open spec fn from_lower(t: Seq<char>) -> IngredientType {
        if t == "fruit"@ {
            IngredientType::Fruit
        } else if t == "spice"@ {
            IngredientType::Spice
        } else if t == "nutrient"@ {
            IngredientType::Nutrient
        } else if t == "adjunct"@ {
            IngredientType::Adjunct
        } else {
            IngredientType::Other
        }
    }

    pub open spec fn spec_next(self) -> IngredientType {
        match self {
            IngredientType::Fruit => IngredientType::Spice,
            IngredientType::Spice => IngredientType::Nutrient,
            IngredientType::Nutrient => IngredientType::Adjunct,
            IngredientType::Adjunct => IngredientType::Other,
            IngredientType::Other => IngredientType::Fruit,
        }
    }

    pub open spec fn spec_prev(self) -> IngredientType {
        match self {
            IngredientType::Fruit => IngredientType::Other,
            IngredientType::Spice => IngredientType::Fruit,
            IngredientType::Nutrient => IngredientType::Spice,
            IngredientType::Adjunct => IngredientType::Nutrient,
            IngredientType::Other => IngredientType::Adjunct,
        }
    }

    pub fn as_str(&self) -> (r: &'static str)
        ensures
            r@ == self.name(),
    {
        match self {
            IngredientType::Fruit => "Fruit",
            IngredientType::Spice => "Spice",
            IngredientType::Nutrient => "Nutrient",
            IngredientType::Adjunct => "Adjunct",
            IngredientType::Other => "Other",
        }
    }

    /// The kind named by `s`, in any letter case; `Other` for any other text.
    pub fn from_str(s: &str) -> (r: Self)
        ensures
            r == IngredientType::from_lower(lower_of(s@)),
    {
        let t = lowercase(s);
        IngredientType::from_lowercase(t.as_str())
    }

    /// The kind whose lowercase name is `t`; `Other` for any other text.
    pub fn from_lowercase(t: &str) -> (r: Self)
        ensures
            r == IngredientType::from_lower(t@),
    {
        if text_eq(t, "fruit") {
            IngredientType::Fruit
        } else if text_eq(t, "spice") {
            IngredientType::Spice
        } else if text_eq(t, "nutrient") {
            IngredientType::Nutrient
        } else if text_eq(t, "adjunct") {
            IngredientType::Adjunct
        } else {
            IngredientType::Other
        }
    }

    pub fn all() -> (r: Vec<IngredientType>)
        ensures
            r@ == seq![
                IngredientType::Fruit,
                IngredientType::Spice,
                IngredientType::Nutrient,
                IngredientType::Adjunct,
                IngredientType::Other,
            ],
    {
        vec![
            IngredientType::Fruit,
            IngredientType::Spice,
            IngredientType::Nutrient,
            IngredientType::Adjunct,
            IngredientType::Other,
        ]
    }

    /// The following kind, wrapping from the last to the first.
    pub fn next(&self) -> (r: Self)
        ensures
            r == self.spec_next(),
    {
        match self {
            IngredientType::Fruit => IngredientType::Spice,
            IngredientType::Spice => IngredientType::Nutrient,
            IngredientType::Nutrient => IngredientType::Adjunct,
            IngredientType::Adjunct => IngredientType::Other,
            IngredientType::Other => IngredientType::Fruit,
        }
    }

    /// The preceding kind, wrapping from the first to the last.
    pub fn prev(&self) -> (r: Self)
        ensures
            r == self.spec_prev(),
    {
        match self {
            IngredientType::Fruit => IngredientType::Other,
            IngredientType::Spice => IngredientType::Fruit,
            IngredientType::Nutrient => IngredientType::Spice,
            IngredientType::Adjunct => IngredientType::Nutrient,
            IngredientType::Other => IngredientType::Adjunct,
        }
    }
}

/// Cycling the ingredient kind forward five times returns to the start, and `prev` undoes `next`.
pub proof fn lemma_ingredient_type_cycle(t: IngredientType)
    ensures
        t.spec_next().spec_next().spec_next().spec_next().spec_next() == t,
        t.spec_next().spec_prev() == t,
        t.spec_prev().spec_next() == t,
{
}

/// Fewer than five forward steps never return to the start.
pub proof fn lemma_ingredient_type_cycle_minimal(t: IngredientType)
    ensures
        t.spec_next() != t,
        t.spec_next().spec_next() != t,
        t.spec_next().spec_next().spec_next() != t,
        t.spec_next().spec_next().spec_next().spec_next() != t,
{
}

/// One batch as the rest of the library sees it.
pub struct MeadModel {
    pub id: i64,
    pub name: Seq<char>,
    pub start_date: Seq<char>,
    pub honey_type: Seq<char>,
    pub honey_amount_lbs: Decimal,
    pub yeast_strain: Seq<char>,
    pub target_abv: Decimal,
    pub starting_gravity: Decimal,
    pub current_gravity: Decimal,
    pub yan_required: Decimal,
    pub yan_added: Decimal,
    pub volume_gallons: Decimal,
    pub status: MeadStatus,
    pub notes: Seq<char>,
    pub created_at: i64,
    pub updated_at: i64,
}

/// A batch record. Times are seconds since the Unix epoch.
#[derive(Debug)]
pub struct Mead {
    pub id: i64,
    pub name: String,
    pub start_date: String,
    pub honey_type: String,
    pub honey_amount_lbs: Decimal,
    pub yeast_strain: String,
    pub target_abv: Decimal,
    pub starting_gravity: Decimal,
    pub current_gravity: Decimal,
    pub yan_required: Decimal,
    pub yan_added: Decimal,
    pub volume_gallons: Decimal,
    pub status: MeadStatus,
    pub notes: String,
    pub created_at: i64,
    pub updated_at: i64,
}

impl View for Mead {
    type V = MeadModel;

    open spec fn view(&self) -> MeadModel {
        MeadModel {
            id: self.id,
            name: self.name@,
            start_date: self.start_date@,
            honey_type: self.honey_type@,
            honey_amount_lbs: self.honey_amount_lbs,
            yeast_strain: self.yeast_strain@,
            target_abv: self.target_abv,
            starting_gravity: self.starting_gravity,
            current_gravity: self.current_gravity,
            yan_required: self.yan_required,
            yan_added: self.yan_added,
            volume_gallons: self.volume_gallons,
            status: self.status,
            notes: self.notes@,
            created_at: self.created_at,
            updated_at: self.updated_at,
        }
    }
}

/// A fresh batch record made at time `now`.
pub open spec fn default_mead(now: i64) -> MeadModel {
    MeadModel {
        id: 0,
        name: Seq::empty(),
        start_date: utc_date(now),
        honey_type: Seq::empty(),
        honey_amount_lbs: Decimal { milli: 0 },
        yeast_strain: Seq::empty(),
        target_abv: Decimal { milli: 14000 },
        starting_gravity: Decimal { milli: 1100 },
        current_gravity: Decimal { milli: 1100 },
        yan_required: Decimal { milli: 0 },
        yan_added: Decimal { milli: 0 },
        volume_gallons: Decimal { milli: 1000 },
        status: MeadStatus::Planning,
        notes: Seq::empty(),
        created_at: now,
        updated_at: now,
    }
}

impl Mead {
    /// A fresh record stamped with time `now`, dated on that day.
    pub fn default_at(now: i64) -> (r: Mead)
        ensures
            r@ == default_mead(now),
    {
        Mead {
            id: 0,
            name: String::new(),
            start_date: utc_date_string(now),
            honey_type: String::new(),
            honey_amount_lbs: Decimal { milli: 0 },
            yeast_strain: String::new(),
            target_abv: Decimal { milli: 14000 },
            starting_gravity: Decimal { milli: 1100 },
            current_gravity: Decimal { milli: 1100 },
            yan_required: Decimal { milli: 0 },
            yan_added: Decimal { milli: 0 },
            volume_gallons: Decimal { milli: 1000 },
            status: MeadStatus::Planning,
            notes: String::new(),
            created_at: now,
            updated_at: now,
        }
    }

    /// A copy of this record.
    pub fn duplicate(&self) -> (r: Mead)
        ensures
            r@ == self@,
    {
        Mead {
            id: self.id,
            name: self.name.clone(),
            start_date: self.start_date.clone(),
            honey_type: self.honey_type.clone(),
            honey_amount_lbs: self.honey_amount_lbs,
            yeast_strain: self.yeast_strain.clone(),
            target_abv: self.target_abv,
            starting_gravity: self.starting_gravity,
            current_gravity: self.current_gravity,
            yan_required: self.yan_required,
            yan_added: self.yan_added,
            volume_gallons: self.volume_gallons,
            status: self.status,
            notes: self.notes.clone(),
            created_at: self.created_at,
            updated_at: self.updated_at,
        }
    }
}

pub struct IngredientModel {
    pub id: i64,
    pub mead_id: i64,
    pub ingredient_type: IngredientType,
    pub name: Seq<char>,
    pub amount: Decimal,
    pub unit: Seq<char>,
    pub added_date: Seq<char>,
}

/// An ingredient added to a batch
#[derive(Debug)]
pub struct Ingredient {
    pub id: i64,
    pub mead_id: i64,
    pub ingredient_type: IngredientType,
    pub name: String,
    pub amount: Decimal,
    pub unit: String,
    pub added_date: String,
}

impl View for Ingredient {
    type V = IngredientModel;

    open spec fn view(&self) -> IngredientModel {
        IngredientModel {
            id: self.id,
            mead_id: self.mead_id,
            ingredient_type: self.ingredient_type,
            name: self.name@,
            amount: self.amount,
            unit: self.unit@,
            added_date: self.added_date@,
        }
    }
}

pub open spec fn default_ingredient(now: i64) -> IngredientModel {
    IngredientModel {
        id: 0,
        mead_id: 0,
        ingredient_type: IngredientType::Other,
        name: Seq::empty(),
        amount: Decimal { milli: 0 },
        unit: "oz"@,
        added_date: utc_date(now),
    }
}

impl Ingredient {
    /// A fresh ingredient dated on the day of time `now`.
    pub fn default_at(now: i64) -> (r: Ingredient)
        ensures
            r@ == default_ingredient(now),
    {
        Ingredient {
            id: 0,
            mead_id: 0,
            ingredient_type: IngredientType::Other,
            name: String::new(),
            amount: Decimal { milli: 0 },
            unit: String::from_str("oz"),
            added_date: utc_date_string(now),
        }
    }
}

pub struct LogEntryModel {
    pub id: i64,
    pub mead_id: i64,
    pub timestamp: i64,
    pub entry_text: Seq<char>,
}

/// A free-text note on a batch
#[derive(Debug)]
pub struct LogEntry {
    pub id: i64,
    pub mead_id: i64,
    pub timestamp: i64,
    pub entry_text: String,
}

impl View for LogEntry {
    type V = LogEntryModel;

    open spec fn view(&self) -> LogEntryModel {
        LogEntryModel {
            id: self.id,
            mead_id: self.mead_id,
            timestamp: self.timestamp,
            entry_text: self.entry_text@,
        }
    }
}

impl LogEntry {
    /// A fresh entry stamped with time `now`.
    pub fn default_at(now: i64) -> (r: LogEntry)
        ensures
            r@ == (LogEntryModel { id: 0, mead_id: 0, timestamp: now, entry_text: Seq::empty() }),
    {
        LogEntry { id: 0, mead_id: 0, timestamp: now, entry_text: String::new() }
    }
}

} // verus!
