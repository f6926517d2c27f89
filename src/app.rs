use vstd::prelude::*;
use vstd::string::*;
use vstd::view::View as _;
use crate::decimal::{
    lemma_decimal_text_round_trip, lemma_parse_bounded, lemma_zero_text_round_trip, parse_decimal,
    Decimal,
};
use crate::input_field::EditOp;
use crate::main_menu::MainMenuView;
use crate::mead_detail::{detail_editor, lemma_detail_steps, fresh_detail, DetailModel, MeadDetailView};
use crate::mead_list::{lemma_list_navigation, ListModel, MeadListView};
use crate::models::{
    utc_date, Ingredient, IngredientModel, LogEntry, LogEntryModel, Mead,
    MeadModel, MeadStatus,
};
use crate::new_mead::{decimal_or, fresh_form, NewMeadModel, NewMeadView, NEW_MEAD_TEXT_COUNT};
use crate::text::join3;

verus! {

/// The screen on show
#[derive(Clone, Copy, PartialEq, Eq, Structural, Debug)]
pub enum View {
    MainMenu,
    MeadList,
    NewMead,
    MeadDetail(i64),
}

/// A key, as the screens tell keys apart.
#[derive(Clone, Copy, PartialEq, Eq, Structural, Debug)]
pub enum Key {
    Char(char),
    Enter,
    Esc,
    Tab,
    Up,
    Down,
    Left,
    Right,
    Home,
    End,
    Backspace,
    Delete,
    Other,
}

/// One key event: the key, whether shift was held, and whether it was a press (rather
/// than a repeat or a release).
#[derive(Clone, Copy, PartialEq, Eq, Structural, Debug)]
pub struct KeyEvent {
    pub code: Key,
    pub shift: bool,
    pub press: bool,
}

/// A write that the store is asked to make.
#[derive(Debug)]
pub enum StoreRequest {
    CreateMead(Mead),
    UpdateMead(Mead),
    /// The id and the name of the record to delete
    DeleteMead(i64, String),
    CreateLogEntry(LogEntry),
    CreateIngredient(Ingredient),
}

pub enum RequestModel {
    CreateMead(MeadModel),
    UpdateMead(MeadModel),
    DeleteMead(i64, Seq<char>),
    CreateLogEntry(LogEntryModel),
    CreateIngredient(IngredientModel),
}

impl vstd::view::View for StoreRequest {
    type V = RequestModel;

    open spec fn view(&self) -> RequestModel {
        match self {
            StoreRequest::CreateMead(m) => RequestModel::CreateMead(m@),
            StoreRequest::UpdateMead(m) => RequestModel::UpdateMead(m@),
            StoreRequest::DeleteMead(id, name) => RequestModel::DeleteMead(*id, name@),
            StoreRequest::CreateLogEntry(e) => RequestModel::CreateLogEntry(e@),
            StoreRequest::CreateIngredient(i) => RequestModel::CreateIngredient(i@),
        }
    }
}

pub open spec fn request_view(r: Option<StoreRequest>) -> Option<RequestModel> {
    match r {
        Some(q) => Some(q@),
        None => None,
    }
}

/// A read that the screen on show waits for before it is drawn.
#[derive(Clone, Copy, PartialEq, Eq, Structural, Debug)]
pub enum Load {
    /// All records, for the list
    List,
    /// One record and its children, for the detail screen
    Detail(i64),
}

/// The whole interface state as the rest of the library sees it.
pub struct AppModel {
    pub view: View,
    pub should_exit: bool,
    pub menu: nat,
    pub list: ListModel,
    pub form: NewMeadModel,
    pub detail: DetailModel,
    pub status: Option<Seq<char>>,
}

pub open spec fn menu_next(i: nat) -> nat {
    ((i + 1) % 2) as nat
}

pub open spec fn menu_previous(i: nat) -> nat {
    if i == 0 {
        1
    } else {
        (i - 1) as nat
    }
}

impl AppModel {
    pub open spec fn wf(self) -> bool {
        &&& self.menu < 2
        &&& self.list.wf()
        &&& self.form.wf()
        &&& self.detail.wf()
    }

    pub open spec fn menu_key(self, code: Key, now: i64) -> AppModel {
        match code {
            Key::Char('q') => AppModel { should_exit: true, ..self },
            Key::Up | Key::Char('k') => AppModel { menu: menu_previous(self.menu), ..self },
            Key::Down | Key::Char('j') => AppModel { menu: menu_next(self.menu), ..self },
            Key::Enter => if self.menu == 0 {
                AppModel {
                    list: ListModel { needs_refresh: true, ..self.list },
                    view: View::MeadList,
                    ..self
                }
            } else if self.menu == 1 {
                AppModel { form: fresh_form(utc_date(now)), view: View::NewMead, ..self }
            } else {
                self
            },
            _ => self,
        }
    }

    pub open spec fn list_key(self, code: Key) -> (AppModel, Option<RequestModel>) {
        match code {
            Key::Esc => (AppModel { view: View::MainMenu, ..self }, None),
            Key::Up | Key::Char('k') => (AppModel { list: self.list.previous(), ..self }, None),
            Key::Down | Key::Char('j') => (AppModel { list: self.list.next(), ..self }, None),
            Key::Enter => match self.list.selected_mead() {
                Some(m) => (
                    AppModel {
                        detail: DetailModel { needs_refresh: true, ..self.detail },
                        view: View::MeadDetail(m.id),
                        ..self
                    },
                    None,
                ),
                None => (self, None),
            },
            Key::Char('d') => match self.list.selected_mead() {
                Some(m) => (self, Some(RequestModel::DeleteMead(m.id, m.name))),
                None => (self, None),
            },
            _ => (self, None),
        }
    }

    pub open spec fn with_form(self, form: NewMeadModel) -> AppModel {
        AppModel { form, ..self }
    }

    pub open spec fn form_key(self, ev: KeyEvent, now: i64) -> (AppModel, Option<RequestModel>) {
        let f = self.form;
        match ev.code {
            Key::Esc => if f.editing {
                (self.with_form(f.cancel_edit()), None)
            } else {
                (AppModel { view: View::MainMenu, ..self }, None)
            },
            Key::Tab => if ev.shift {
                (self.with_form(f.previous_field()), None)
            } else {
                (self.with_form(f.next_field()), None)
            },
            Key::Up => if !f.editing {
                (self.with_form(f.previous_field()), None)
            } else {
                (self, None)
            },
            Key::Down => if !f.editing {
                (self.with_form(f.next_field()), None)
            } else {
                (self, None)
            },
            Key::Enter => if f.on_submit() {
                (self, Some(RequestModel::CreateMead(f.built_mead(now))))
            } else {
                (self.with_form(f.next_field()), None)
            },
            Key::Char(c) => if !f.on_submit() {
                let g = if !f.editing {
                    f.toggle_edit()
                } else {
                    f
                };
                (self.with_form(g.edit(EditOp::Insert(c))), None)
            } else {
                (self, None)
            },
            Key::Backspace => if !f.on_submit() {
                let g = if !f.editing {
                    f.toggle_edit()
                } else {
                    f
                };
                (self.with_form(g.edit(EditOp::DeleteBefore)), None)
            } else {
                (self, None)
            },
            Key::Delete => if f.editing {
                (self.with_form(f.edit(EditOp::DeleteAt)), None)
            } else {
                (self, None)
            },
            Key::Left => if f.editing {
                (self.with_form(f.edit(EditOp::Left)), None)
            } else {
                (self, None)
            },
            Key::Right => if f.editing {
                (self.with_form(f.edit(EditOp::Right)), None)
            } else {
                (self, None)
            },
            Key::Home => if f.editing {
                (self.with_form(f.edit(EditOp::Start)), None)
            } else {
                (self, None)
            },
            Key::End => if f.editing {
                (self.with_form(f.edit(EditOp::End)), None)
            } else {
                (self, None)
            },
            _ => (self, None),
        }
    }

    pub open spec fn with_detail(self, detail: DetailModel) -> AppModel {
        AppModel { detail, ..self }
    }

    /// The log entry that the log sub-form describes, if it is worth saving.
    pub open spec fn log_request(d: DetailModel, now: i64) -> Option<RequestModel> {
        match d.mead {
            Some(m) => if d.log_input.value.len() > 0 {
                Some(
                    RequestModel::CreateLogEntry(
                        LogEntryModel {
                            id: 0,
                            mead_id: m.id,
                            timestamp: now,
                            entry_text: d.log_input.value,
                        },
                    ),
                )
            } else {
                None
            },
            None => None,
        }
    }

    /// The ingredient that the ingredient sub-form describes, if it is worth saving.
    pub open spec fn ingredient_request(d: DetailModel, now: i64) -> Option<RequestModel> {
        match d.mead {
            Some(m) => if d.ing_fields[0].value.len() > 0 {
                Some(
                    RequestModel::CreateIngredient(
                        IngredientModel {
                            id: 0,
                            mead_id: m.id,
                            ingredient_type: d.ing_type,
                            name: d.ing_fields[0].value,
                            amount: decimal_or(d.ing_fields[1].value, 0),
                            unit: d.ing_fields[2].value,
                            added_date: utc_date(now),
                        },
                    ),
                )
            } else {
                None
            },
            None => None,
        }
    }

    pub open spec fn detail_key(self, ev: KeyEvent, now: i64) -> (
        AppModel,
        Option<RequestModel>,
    ) {
        let d = self.detail;
        let in_input = d.editing || d.in_sub_form();
        match ev.code {
            Key::Esc => if d.editing {
                (self.with_detail(d.cancel_edit()), None)
            } else if d.in_sub_form() {
                (self.with_detail(d.sub_forms_closed()), None)
            } else {
                (
                    AppModel {
                        list: ListModel { needs_refresh: true, ..self.list },
                        view: View::MeadList,
                        ..self
                    },
                    None,
                )
            },
            Key::Tab => if ev.shift {
                (self.with_detail(d.previous_field()), None)
            } else {
                (self.with_detail(d.next_field()), None)
            },
            Key::Up => if !in_input {
                (self.with_detail(d.previous_field()), None)
            } else {
                (self, None)
            },
            Key::Down => if !in_input {
                (self.with_detail(d.next_field()), None)
            } else {
                (self, None)
            },
            Key::Char('l') if !in_input => (self.with_detail(d.log_opened()), None),
            Key::Char('i') if !in_input => (self.with_detail(d.ingredient_opened()), None),
            Key::Char('s') if !in_input => match d.updated_mead() {
                Some(m) => (self, Some(RequestModel::UpdateMead(m))),
                None => (self, None),
            },
            Key::Enter => if d.show_log {
                (self, AppModel::log_request(d, now))
            } else if d.show_ing {
                (self, AppModel::ingredient_request(d, now))
            } else {
                (self.with_detail(d.toggle_edit()), None)
            },
            Key::Char(c) => if d.in_sub_form() {
                (self.with_detail(d.edit(EditOp::Insert(c))), None)
            } else if !in_input {
                let g = d.toggle_edit();
                if g.editing {
                    (self.with_detail(g.edit(EditOp::Insert(c))), None)
                } else {
                    (self.with_detail(g), None)
                }
            } else {
                (self.with_detail(d.edit(EditOp::Insert(c))), None)
            },
            Key::Backspace => if d.in_sub_form() {
                (self.with_detail(d.edit(EditOp::DeleteBefore)), None)
            } else if !d.editing {
                let g = d.toggle_edit();
                if g.editing {
                    (self.with_detail(g.edit(EditOp::DeleteBefore)), None)
                } else {
                    (self.with_detail(g), None)
                }
            } else {
                (self.with_detail(d.edit(EditOp::DeleteBefore)), None)
            },
            Key::Delete => if in_input {
                (self.with_detail(d.edit(EditOp::DeleteAt)), None)
            } else {
                (self, None)
            },
            Key::Left => if in_input {
                (self.with_detail(d.left()), None)
            } else {
                (self, None)
            },
            Key::Right => if in_input {
                (self.with_detail(d.right()), None)
            } else {
                (self, None)
            },
            _ => (self, None),
        }
    }

    /// One key event at time `now`: the next state, and the write it asks of the store.
    /// A press clears the status message and goes to the screen on show; other events
    /// change nothing.
    pub open spec fn step(self, ev: KeyEvent, now: i64) -> (AppModel, Option<RequestModel>) {
        if !ev.press {
            (self, None)
        } else {
            let s = AppModel { status: None, ..self };
            match s.view {
                View::MainMenu => (s.menu_key(ev.code, now), None),
                View::MeadList => s.list_key(ev.code),
                View::NewMead => s.form_key(ev, now),
                View::MeadDetail(_) => s.detail_key(ev, now),
            }
        }
    }

    /// The state after the store answered `req`: `None` for success, or the error's text.
    pub open spec fn completed(self, req: RequestModel, err: Option<Seq<char>>) -> AppModel {
        match err {
            Some(e) => AppModel { status: Some("Error: "@ + e), ..self },
            None => match req {
                RequestModel::CreateMead(m) => AppModel {
                    status: Some("Created mead: "@ + m.name),
                    view: View::MainMenu,
                    ..self
                },
                RequestModel::DeleteMead(_, name) => AppModel {
                    list: ListModel { needs_refresh: true, ..self.list },
                    status: Some("Deleted mead: "@ + name),
                    ..self
                },
                RequestModel::UpdateMead(_) => AppModel {
                    detail: DetailModel { needs_refresh: true, ..self.detail },
                    status: Some("Mead updated!"@),
                    ..self
                },
                RequestModel::CreateLogEntry(_) => self.with_detail(
                    DetailModel {
                        needs_refresh: true,
                        ..DetailModel {
                            log_input: self.detail.log_input.with_value(Seq::empty()),
                            ..self.detail
                        }.sub_forms_closed()
                    },
                ),
                RequestModel::CreateIngredient(_) => self.with_detail(
                    DetailModel {
                        needs_refresh: true,
                        ..self.detail.ingredient_inputs_cleared().sub_forms_closed()
                    },
                ),
            },
        }
    }

    /// The read that must come before the screen on show is drawn.
    pub open spec fn pending_load(self) -> Option<Load> {
        match self.view {
            View::MeadList => if self.list.needs_refresh {
                Some(Load::List)
            } else {
                None
            },
            View::MeadDetail(id) => if self.detail.needs_refresh {
                Some(Load::Detail(id))
            } else {
                None
            },
            _ => None,
        }
    }
}

/// The state at start-up, with a form dated on the day of time `now`.
pub open spec fn initial_state(now: i64) -> AppModel {
    AppModel {
        view: View::MainMenu,
        should_exit: false,
        menu: 0,
        list: ListModel { meads: Seq::empty(), selected: 0, needs_refresh: true },
        form: fresh_form(utc_date(now)),
        detail: fresh_detail(),
        status: None,
    }
}

pub open spec fn error_text(result: Result<(), String>) -> Option<Seq<char>> {
    match result {
        Ok(_) => None,
        Err(e) => Some(e@),
    }
}

/// The interface state: the screen on show, each screen's state, and the status message.
pub struct App {
    /// Current screen
    pub current_view: View,
    /// Whether the session should end
    pub should_exit: bool,
    pub main_menu: MainMenuView,
    pub mead_list: MeadListView,
    pub new_mead: NewMeadView,
    pub mead_detail: MeadDetailView,
    /// Status message, cleared by the next key press
    pub status_message: Option<String>,
}

impl vstd::view::View for App {
    type V = AppModel;

    open spec fn view(&self) -> AppModel {
        AppModel {
            view: self.current_view,
            should_exit: self.should_exit,
            menu: self.main_menu.selected as nat,
            list: self.mead_list@,
            form: self.new_mead@,
            detail: self.mead_detail@,
            status: match self.status_message {
                Some(m) => Some(m@),
                None => None,
            },
        }
    }
}

/// `a` followed by `b`, as a new string.
fn concat(a: &str, b: &str) -> (r: String)
    ensures
        r@ == a@ + b@,
{
    let r = join3(a, b, "");
    proof {
        reveal_strlit("");
        assert(r@ =~= a@ + b@);
    }
    r
}

impl App {
    pub open spec fn wf(&self) -> bool {
        self.main_menu.wf() && self@.wf()
    }

    /// The state at start-up, with a form dated on the day of time `now`.
    pub fn new(now: i64) -> (r: Self)
        ensures
            r.wf(),
            r@ == initial_state(now),
    {
        App {
            current_view: View::MainMenu,
            should_exit: false,
            main_menu: MainMenuView::new(),
            mead_list: MeadListView::new(),
            new_mead: NewMeadView::new(now),
            mead_detail: MeadDetailView::new(),
            status_message: None,
        }
    }

    /// Handle one key event at time `now`, and return the write it asks of the store.
    pub fn handle_event(&mut self, ev: KeyEvent, now: i64) -> (r: Option<StoreRequest>)
        requires
            old(self).wf(),
        ensures
            final(self).wf(),
            (final(self)@, request_view(r)) == old(self)@.step(ev, now),
    {
        if !ev.press {
            return None;
        }
        self.handle_key_event(ev, now)
    }

    fn handle_key_event(&mut self, ev: KeyEvent, now: i64) -> (r: Option<StoreRequest>)
        requires
            old(self).wf(),
            ev.press,
        ensures
            final(self).wf(),
            (final(self)@, request_view(r)) == old(self)@.step(ev, now),
    {
        self.status_message = None;
        match self.current_view {
            View::MainMenu => {
                self.handle_main_menu_key(ev.code, now);
                None
            },
            View::MeadList => self.handle_mead_list_key(ev.code),
            View::NewMead => self.handle_new_mead_key(ev, now),
            View::MeadDetail(_) => self.handle_mead_detail_key(ev, now),
        }
    }

    fn handle_main_menu_key(&mut self, code: Key, now: i64)
        requires
            old(self).wf(),
        ensures
            final(self).wf(),
            final(self)@ == old(self)@.menu_key(code, now),
    {
        match code {
            Key::Char('q') => self.should_exit = true,
            Key::Up | Key::Char('k') => self.main_menu.previous(),
            Key::Down | Key::Char('j') => self.main_menu.next(),
            Key::Enter => {
                if self.main_menu.selected == 0 {
                    self.mead_list.needs_refresh = true;
                    self.current_view = View::MeadList;
                } else if self.main_menu.selected == 1 {
                    self.new_mead = NewMeadView::new(now);
                    self.current_view = View::NewMead;
                }
            },
            _ => {},
        }
    }

    fn handle_mead_list_key(&mut self, code: Key) -> (r: Option<StoreRequest>)
        requires
            old(self).wf(),
        ensures
            final(self).wf(),
            (final(self)@, request_view(r)) == old(self)@.list_key(code),
    {
        proof {
            lemma_list_navigation(self.mead_list@);
        }
        match code {
            Key::Esc => {
                self.current_view = View::MainMenu;
                None
            },
            Key::Up | Key::Char('k') => {
                self.mead_list.previous();
                None
            },
            Key::Down | Key::Char('j') => {
                self.mead_list.next();
                None
            },
            Key::Enter => {
                match self.mead_list.get_selected() {
                    Some(mead) => {
                        let id = mead.id;
                        self.mead_detail.needs_refresh = true;
                        self.current_view = View::MeadDetail(id);
                    },
                    None => {},
                }
                None
            },
            Key::Char('d') => match self.mead_list.get_selected() {
                Some(mead) => Some(StoreRequest::DeleteMead(mead.id, mead.name.clone())),
                None => None,
            },
            _ => None,
        }
    }

    fn handle_new_mead_key(&mut self, ev: KeyEvent, now: i64) -> (r: Option<StoreRequest>)
        requires
            old(self).wf(),
        ensures
            final(self).wf(),
            (final(self)@, request_view(r)) == old(self)@.form_key(ev, now),
    {
        match ev.code {
            Key::Esc => {
                if self.new_mead.is_editing() {
                    self.new_mead.cancel_edit();
                } else {
                    self.current_view = View::MainMenu;
                }
                None
            },
            Key::Tab => {
                if ev.shift {
                    self.new_mead.previous_field();
                } else {
                    self.new_mead.next_field();
                }
                None
            },
            Key::Up => {
                if !self.new_mead.is_editing() {
                    self.new_mead.previous_field();
                }
                None
            },
            Key::Down => {
                if !self.new_mead.is_editing() {
                    self.new_mead.next_field();
                }
                None
            },
            Key::Enter => {
                if self.new_mead.is_on_submit() {
                    Some(StoreRequest::CreateMead(self.new_mead.build_mead(now)))
                } else {
                    self.new_mead.next_field();
                    None
                }
            },
            Key::Char(c) => {
                if !self.new_mead.is_on_submit() {
                    if !self.new_mead.is_editing() {
                        self.new_mead.toggle_edit();
                    }
                    self.new_mead.insert_char(c);
                }
                None
            },
            Key::Backspace => {
                if !self.new_mead.is_on_submit() {
                    if !self.new_mead.is_editing() {
                        self.new_mead.toggle_edit();
                    }
                    self.new_mead.delete_char();
                }
                None
            },
            Key::Delete => {
                if self.new_mead.is_editing() {
                    self.new_mead.delete_char_forward();
                }
                None
            },
            Key::Left => {
                if self.new_mead.is_editing() {
                    self.new_mead.move_cursor_left();
                }
                None
            },
            Key::Right => {
                if self.new_mead.is_editing() {
                    self.new_mead.move_cursor_right();
                }
                None
            },
            Key::Home => {
                if self.new_mead.is_editing() {
                    self.new_mead.move_cursor_start();
                }
                None
            },
            Key::End => {
                if self.new_mead.is_editing() {
                    self.new_mead.move_cursor_end();
                }
                None
            },
            _ => None,
        }
    }

    /// The log entry that the log sub-form describes, if it is worth saving.
    fn log_request(&self, now: i64) -> (r: Option<StoreRequest>)
        ensures
            request_view(r) == AppModel::log_request(self.mead_detail@, now),
    {
        match &self.mead_detail.mead {
            Some(m) => {
                let text = self.mead_detail.log_input.get_value();
                if text.unicode_len() > 0 {
                    let mut entry = LogEntry::default_at(now);
                    entry.mead_id = m.id;
                    entry.entry_text = String::from_str(text);
                    Some(StoreRequest::CreateLogEntry(entry))
                } else {
                    None
                }
            },
            None => None,
        }
    }

    /// The ingredient that the ingredient sub-form describes, if it is worth saving.
    fn ingredient_request(&self, now: i64) -> (r: Option<StoreRequest>)
        ensures
            request_view(r) == AppModel::ingredient_request(self.mead_detail@, now),
    {
        match &self.mead_detail.mead {
            Some(m) => {
                let name = self.mead_detail.ingredient_name_input.get_value();
                if name.unicode_len() > 0 {
                    let mut ingredient = Ingredient::default_at(now);
                    ingredient.mead_id = m.id;
                    ingredient.name = String::from_str(name);
                    ingredient.amount =
                        match self.mead_detail.ingredient_amount_input.numeric_value() {
                            Some(d) => d,
                            None => Decimal { milli: 0 },
                        };
                    ingredient.unit = String::from_str(
                        self.mead_detail.ingredient_unit_input.get_value(),
                    );
                    ingredient.ingredient_type = self.mead_detail.selected_ingredient_type;
                    Some(StoreRequest::CreateIngredient(ingredient))
                } else {
                    None
                }
            },
            None => None,
        }
    }

    fn handle_mead_detail_key(&mut self, ev: KeyEvent, now: i64) -> (r: Option<StoreRequest>)
        requires
            old(self).wf(),
        ensures
            final(self).wf(),
            (final(self)@, request_view(r)) == old(self)@.detail_key(ev, now),
    {
        let in_input_mode = self.mead_detail.is_editing() || self.mead_detail.in_sub_form();
        match ev.code {
            Key::Esc | Key::Tab | Key::Up | Key::Down => {
                self.detail_navigation_key(ev);
                None
            },
            Key::Char(c) if !in_input_mode && (c == 'l' || c == 'i' || c == 's') => {
                self.detail_command_key(ev)
            },
            Key::Enter => {
                if self.mead_detail.show_log_input {
                    self.log_request(now)
                } else if self.mead_detail.show_ingredient_input {
                    self.ingredient_request(now)
                } else {
                    self.mead_detail.toggle_edit();
                    None
                }
            },
            _ => {
                self.detail_text_key(ev);
                None
            },
        }
    }

    fn detail_navigation_key(&mut self, ev: KeyEvent)
        requires
            old(self).wf(),
            ev.code is Esc || ev.code is Tab || ev.code is Up || ev.code is Down,
        ensures
            final(self).wf(),
            (final(self)@, None::<RequestModel>) == old(self)@.detail_key(ev, 0),
    {
        let in_input_mode = self.mead_detail.is_editing() || self.mead_detail.in_sub_form();
        match ev.code {
            Key::Esc => {
                if self.mead_detail.is_editing() {
                    self.mead_detail.cancel_edit();
                } else if self.mead_detail.in_sub_form() {
                    self.mead_detail.close_sub_forms();
                } else {
                    self.mead_list.needs_refresh = true;
                    self.current_view = View::MeadList;
                }
            },
            Key::Tab => {
                if ev.shift {
                    self.mead_detail.previous_field();
                } else {
                    self.mead_detail.next_field();
                }
            },
            Key::Up => {
                if !in_input_mode {
                    self.mead_detail.previous_field();
                }
            },
            _ => {
                if !in_input_mode {
                    self.mead_detail.next_field();
                }
            },
        }
    }

    fn detail_command_key(&mut self, ev: KeyEvent) -> (r: Option<StoreRequest>)
        requires
            old(self).wf(),
            !old(self).mead_detail@.editing,
            !old(self).mead_detail@.in_sub_form(),
            ev.code == Key::Char('l') || ev.code == Key::Char('i') || ev.code == Key::Char('s'),
        ensures
            final(self).wf(),
            (final(self)@, request_view(r)) == old(self)@.detail_key(ev, 0),
    {
        match ev.code {
            Key::Char('l') => {
                self.mead_detail.open_log_input();
                None
            },
            Key::Char('i') => {
                self.mead_detail.open_ingredient_input();
                None
            },
            _ => match self.mead_detail.get_updated_mead() {
                Some(m) => Some(StoreRequest::UpdateMead(m)),
                None => None,
            },
        }
    }

    fn detail_text_key(&mut self, ev: KeyEvent)
        requires
            old(self).wf(),
            !(ev.code is Esc || ev.code is Tab || ev.code is Up || ev.code is Down || ev.code is Enter),
            !old(self).mead_detail@.editing && !old(self).mead_detail@.in_sub_form() ==> !(ev.code
                == Key::Char('l') || ev.code == Key::Char('i') || ev.code == Key::Char('s')),
        ensures
            final(self).wf(),
            (final(self)@, None::<RequestModel>) == old(self)@.detail_key(ev, 0),
    {
        let in_input_mode = self.mead_detail.is_editing() || self.mead_detail.in_sub_form();
        match ev.code {
            Key::Char(c) => {
                if self.mead_detail.in_sub_form() {
                    self.mead_detail.insert_char(c);
                } else if !in_input_mode {
                    self.mead_detail.toggle_edit();
                    if self.mead_detail.is_editing() {
                        self.mead_detail.insert_char(c);
                    }
                } else {
                    self.mead_detail.insert_char(c);
                }
            },
            Key::Backspace => {
                if self.mead_detail.in_sub_form() {
                    self.mead_detail.delete_char();
                } else if !self.mead_detail.is_editing() {
                    self.mead_detail.toggle_edit();
                    if self.mead_detail.is_editing() {
                        self.mead_detail.delete_char();
                    }
                } else {
                    self.mead_detail.delete_char();
                }
            },
            Key::Delete => {
                if in_input_mode {
                    self.mead_detail.delete_char_forward();
                }
            },
            Key::Left => {
                if in_input_mode {
                    self.mead_detail.move_cursor_left();
                }
            },
            Key::Right => {
                if in_input_mode {
                    self.mead_detail.move_cursor_right();
                }
            },
            _ => {},
        }
    }

    /// Apply the store's answer to `req`: success, or the error's text.
    pub fn complete(&mut self, req: &StoreRequest, result: Result<(), String>)
        requires
            old(self).wf(),
        ensures
            final(self).wf(),
            final(self)@ == old(self)@.completed(req@, error_text(result)),
    {
        match result {
            Err(e) => {
                self.status_message = Some(concat("Error: ", e.as_str()));
            },
            Ok(()) => match req {
                StoreRequest::CreateMead(m) => {
                    self.status_message = Some(concat("Created mead: ", m.name.as_str()));
                    self.current_view = View::MainMenu;
                },
                StoreRequest::DeleteMead(_, name) => {
                    self.mead_list.needs_refresh = true;
                    self.status_message = Some(concat("Deleted mead: ", name.as_str()));
                },
                StoreRequest::UpdateMead(_) => {
                    self.mead_detail.needs_refresh = true;
                    self.status_message = Some(String::from_str("Mead updated!"));
                },
                StoreRequest::CreateLogEntry(_) => self.finish_log_entry(),
                StoreRequest::CreateIngredient(_) => self.finish_ingredient(),
            },
        }
    }

    /// After a saved log entry: empty the sub-form, close it, and reload.
    fn finish_log_entry(&mut self)
        requires
            old(self).wf(),
        ensures
            final(self).wf(),
            final(self)@ == old(self)@.with_detail(
                DetailModel {
                    needs_refresh: true,
                    ..DetailModel {
                        log_input: old(self)@.detail.log_input.with_value(Seq::empty()),
                        ..old(self)@.detail
                    }.sub_forms_closed()
                },
            ),
    {
        self.mead_detail.log_input.clear();
        proof {
            lemma_detail_steps(self.mead_detail@, EditOp::Left);
        }
        self.mead_detail.close_sub_forms();
        self.mead_detail.needs_refresh = true;
    }

    /// After a saved ingredient: empty the sub-form, close it, and reload.
    fn finish_ingredient(&mut self)
        requires
            old(self).wf(),
        ensures
            final(self).wf(),
            final(self)@ == old(self)@.with_detail(
                DetailModel {
                    needs_refresh: true,
                    ..old(self)@.detail.ingredient_inputs_cleared().sub_forms_closed()
                },
            ),
    {
        self.mead_detail.clear_ingredient_inputs();
        self.mead_detail.close_sub_forms();
        self.mead_detail.needs_refresh = true;
    }

    /// The read that must come before the screen on show is drawn.
    pub fn pending_load(&self) -> (r: Option<Load>)
        ensures
            r == self@.pending_load(),
    {
        match self.current_view {
            View::MeadList => if self.mead_list.needs_refresh {
                Some(Load::List)
            } else {
                None
            },
            View::MeadDetail(id) => if self.mead_detail.needs_refresh {
                Some(Load::Detail(id))
            } else {
                None
            },
            _ => None,
        }
    }
}

/// Typing a character on a text field that is not being edited starts the edit and inserts
/// the character at the cursor, on the new-record form and on the detail screen (where `l`,
/// `i` and `s` are commands instead).
pub proof fn lemma_typing_starts_edit(s: AppModel, c: char, shift: bool, now: i64)
    requires
        s.wf(),
    ensures
        s.view == View::NewMead && !s.form.editing && s.form.current < NEW_MEAD_TEXT_COUNT ==> {
            let (t, r) = s.step(KeyEvent { code: Key::Char(c), shift, press: true }, now);
            let i = s.form.current as int;
            &&& r is None
            &&& t.form.editing
            &&& t.form.current == s.form.current
            &&& t.form.fields[i] == s.form.fields[i].insert(c)
        },
        s.view is MeadDetail && !s.detail.editing && !s.detail.in_sub_form() && s.detail.current
            != 1 && c != 'l' && c != 'i' && c != 's' ==> {
            let (t, r) = s.step(KeyEvent { code: Key::Char(c), shift, press: true }, now);
            let i = detail_editor(s.detail.current);
            &&& r is None
            &&& t.detail.editing
            &&& t.detail.current == s.detail.current
            &&& t.detail.fields[i] == s.detail.fields[i].insert(c)
        },
{
}

/// On an empty list, confirm and delete do nothing but clear the status message.
pub proof fn lemma_empty_list_ignores_confirm_and_delete(s: AppModel, shift: bool, now: i64)
    requires
        s.wf(),
        s.view == View::MeadList,
        s.list.meads.len() == 0,
    ensures
        s.step(KeyEvent { code: Key::Enter, shift, press: true }, now) == (
            AppModel { status: None, ..s },
            None::<RequestModel>,
        ),
        s.step(KeyEvent { code: Key::Char('d'), shift, press: true }, now) == (
            AppModel { status: None, ..s },
            None::<RequestModel>,
        ),
{
}

/// A record built from the form holds what was entered (numbers as parsed, or their
/// defaults), with the current gravity equal to the starting gravity. Stored and read back
/// with its id as the only row of the list, it is the selected row; shown on the detail
/// screen, it shows the entered name and notes, and saving from that screen unchanged
/// gives back the stored record.
pub proof fn lemma_form_round_trip(
    f: NewMeadModel,
    l: ListModel,
    d: DetailModel,
    now: i64,
    id: i64,
    ingredients: Seq<IngredientModel>,
    log_entries: Seq<LogEntryModel>,
)
    requires
        f.wf(),
        d.wf(),
    ensures
        ({
            let m = f.built_mead(now);
            &&& m.name == f.fields[0].value
            &&& m.start_date == f.fields[1].value
            &&& m.honey_type == f.fields[2].value
            &&& m.honey_amount_lbs == decimal_or(f.fields[3].value, 0)
            &&& m.yeast_strain == f.fields[4].value
            &&& m.target_abv == decimal_or(f.fields[5].value, 14000)
            &&& m.starting_gravity == decimal_or(f.fields[6].value, 1100)
            &&& m.volume_gallons == decimal_or(f.fields[7].value, 1000)
            &&& m.yan_required == decimal_or(f.fields[8].value, 0)
            &&& m.notes == f.fields[9].value
            &&& m.current_gravity == m.starting_gravity
        }),
        ({
            let stored = MeadModel { id, ..f.built_mead(now) };
            let e = d.loaded(stored, ingredients, log_entries);
            &&& l.loaded(seq![stored]).selected_mead() == Some(stored)
            &&& e.mead == Some(stored)
            &&& e.fields[0].value == f.fields[0].value
            &&& e.fields[3].value == f.fields[9].value
            &&& e.status == MeadStatus::Primary
            &&& e.updated_mead() == Some(stored)
        }),
{
    let g = f.fields[6].value;
    if parse_decimal(g) is Some {
        lemma_parse_bounded(g);
    }
    let v = decimal_or(g, 1100);
    lemma_decimal_text_round_trip(v.milli);
    lemma_zero_text_round_trip();
    let stored = MeadModel { id, ..f.built_mead(now) };
    let e = d.loaded(stored, ingredients, log_entries);
    assert(e.updated_mead()->0 =~= stored);
}

} // verus!
