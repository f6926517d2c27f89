use mead_tracker::app::{App, Key, KeyEvent, Load, StoreRequest, View};
use mead_tracker::decimal::Decimal;
use mead_tracker::input_field::{FieldDisplay, InputField};
use mead_tracker::main_menu::MainMenuView;
use mead_tracker::mead_detail::MeadDetailView;
use mead_tracker::mead_list::MeadListView;
use mead_tracker::models::{IngredientType, Mead, MeadStatus};
use mead_tracker::new_mead::NewMeadView;

fn press(code: Key) -> KeyEvent {
    KeyEvent { code, shift: false, press: true }
}

fn type_text(app: &mut App, text: &str) {
    for c in text.chars() {
        assert!(app.handle_event(press(Key::Char(c)), 0).is_none());
    }
}

fn clear_field(app: &mut App) {
    app.handle_event(press(Key::End), 0);
    for _ in 0..40 {
        app.handle_event(press(Key::Backspace), 0);
    }
}

#[test]
fn input_field_edits_keep_cursor_in_bounds() {
    let mut f = InputField::new("Label");
    f.insert_char('a');
    f.insert_char('b');
    f.insert_char('c');
    assert_eq!(f.get_value(), "abc");
    assert_eq!(f.cursor, 3);
    f.move_cursor_left();
    f.insert_char('X');
    assert_eq!(f.get_value(), "abXc");
    assert_eq!(f.cursor, 3);
    f.delete_char();
    assert_eq!(f.get_value(), "abc");
    assert_eq!(f.cursor, 2);
    f.delete_char_forward();
    assert_eq!(f.get_value(), "ab");
    assert_eq!(f.cursor, 2);
    f.delete_char_forward();
    assert_eq!(f.get_value(), "ab");
    f.move_cursor_right();
    assert_eq!(f.cursor, 2);
    f.move_cursor_start();
    f.delete_char();
    assert_eq!(f.cursor, 0);
    assert_eq!(f.get_value(), "ab");
    f.move_cursor_end();
    assert_eq!(f.cursor, 2);
    f.clear();
    assert_eq!(f.get_value(), "");
    assert_eq!(f.cursor, 0);
    f.move_cursor_left();
    assert_eq!(f.cursor, 0);
}

#[test]
fn input_field_counts_characters_not_bytes() {
    let mut f = InputField::new("Label").with_value("héé");
    assert_eq!(f.cursor, 3);
    f.move_cursor_left();
    f.insert_char('ü');
    assert_eq!(f.get_value(), "héüé");
    assert_eq!(f.cursor, 3);
    f.delete_char();
    f.delete_char();
    assert_eq!(f.get_value(), "hé");
    assert_eq!(f.cursor, 1);
}

#[test]
fn input_field_builders_and_focus() {
    let mut f = InputField::new("Name").with_placeholder("My First Mead").with_value("abc");
    assert_eq!(f.label, "Name");
    assert_eq!(f.placeholder, "My First Mead");
    assert_eq!(f.cursor, 3);
    assert!(!f.focused);
    f.set_focused(true);
    assert!(f.focused);
    f.set_value("xy");
    assert_eq!(f.get_value(), "xy");
    assert_eq!(f.cursor, 2);
}

#[test]
fn decimal_parse_values() {
    assert_eq!(Decimal::parse("3.0"), Some(Decimal { milli: 3000 }));
    assert_eq!(Decimal::parse("1.100"), Some(Decimal { milli: 1100 }));
    assert_eq!(Decimal::parse("-2.5"), Some(Decimal { milli: -2500 }));
    assert_eq!(Decimal::parse("+7"), Some(Decimal { milli: 7000 }));
    assert_eq!(Decimal::parse(".5"), Some(Decimal { milli: 500 }));
    assert_eq!(Decimal::parse("5."), Some(Decimal { milli: 5000 }));
    assert_eq!(Decimal::parse("1.23456789"), Some(Decimal { milli: 1234 }));
    assert_eq!(Decimal::parse("200"), Some(Decimal { milli: 200000 }));
    assert_eq!(Decimal::parse("0"), Some(Decimal { milli: 0 }));
}

#[test]
fn decimal_parse_rejects() {
    assert_eq!(Decimal::parse(""), None);
    assert_eq!(Decimal::parse("."), None);
    assert_eq!(Decimal::parse("-"), None);
    assert_eq!(Decimal::parse("abc"), None);
    assert_eq!(Decimal::parse("1.2.3"), None);
    assert_eq!(Decimal::parse("1e3"), None);
    assert_eq!(Decimal::parse(" 1"), None);
    assert_eq!(Decimal::parse("1.2x"), None);
    assert_eq!(Decimal::parse("1000000000000000"), None);
    assert_eq!(Decimal::parse("999999999999999"), Some(Decimal { milli: 999999999999999000 }));
}

#[test]
fn decimal_text_values() {
    assert_eq!(Decimal { milli: 1100 }.to_text(3), "1.100");
    assert_eq!(Decimal { milli: 1100 }.to_text(0), "1");
    assert_eq!(Decimal { milli: 12500 }.to_text(0), "13");
    assert_eq!(Decimal { milli: 12499 }.to_text(0), "12");
    assert_eq!(Decimal { milli: -2500 }.to_text(3), "-2.500");
    assert_eq!(Decimal { milli: -2500 }.to_text(1), "-2.5");
    assert_eq!(Decimal { milli: 5 }.to_text(3), "0.005");
    assert_eq!(Decimal { milli: 0 }.to_text(0), "0");
    assert_eq!(Decimal { milli: -400 }.to_text(0), "0");
    assert_eq!(Decimal { milli: 3000 }.to_text(2), "3.00");
}

#[test]
fn decimal_text_reads_back() {
    for m in [0i64, 1, -1, 999, 1100, -123456, 987654321] {
        let d = Decimal { milli: m };
        assert_eq!(Decimal::parse(&d.to_text(3)), Some(d));
    }
}

#[test]
fn status_cycles_through_six() {
    let all = MeadStatus::all();
    assert_eq!(all.len(), 6);
    for s in all {
        let mut t = s;
        for _ in 0..6 {
            t = t.next();
        }
        assert_eq!(t, s);
        assert_eq!(s.next().prev(), s);
    }
    assert_eq!(MeadStatus::Finished.next(), MeadStatus::Planning);
    assert_eq!(MeadStatus::Planning.prev(), MeadStatus::Finished);
}

#[test]
fn ingredient_type_cycles_through_five() {
    let all = IngredientType::all();
    assert_eq!(all.len(), 5);
    for s in all {
        let mut t = s;
        for _ in 0..5 {
            t = t.next();
        }
        assert_eq!(t, s);
        assert_eq!(s.next().prev(), s);
    }
}

#[test]
fn names_read_in_any_case() {
    assert_eq!(MeadStatus::from_str("PRIMARY"), MeadStatus::Primary);
    assert_eq!(MeadStatus::from_str("Bottled"), MeadStatus::Bottled);
    assert_eq!(MeadStatus::from_str("unknown"), MeadStatus::Planning);
    assert_eq!(MeadStatus::Aging.as_str(), "Aging");
    assert_eq!(MeadStatus::from_str(MeadStatus::Secondary.as_str()), MeadStatus::Secondary);
    assert_eq!(IngredientType::from_str("SPICE"), IngredientType::Spice);
    assert_eq!(IngredientType::from_str("honey"), IngredientType::Other);
    assert_eq!(IngredientType::Nutrient.as_str(), "Nutrient");
    assert_eq!(MeadStatus::from_lowercase("aging"), MeadStatus::Aging);
    assert_eq!(MeadStatus::from_lowercase("Aging"), MeadStatus::Planning);
}

#[test]
fn menu_wraps_both_ways() {
    let mut m = MainMenuView::new();
    assert_eq!(m.selected, 0);
    m.previous();
    assert_eq!(m.selected, 1);
    m.next();
    assert_eq!(m.selected, 0);
    m.next();
    m.next();
    assert_eq!(m.selected, 0);
}

#[test]
fn new_form_wraps_and_moves_focus() {
    let mut f = NewMeadView::new(0);
    assert_eq!(f.start_date.get_value(), "1970-01-01");
    assert_eq!(f.honey_amount.get_value(), "3.0");
    f.previous_field();
    assert_eq!(f.current_field, 10);
    assert!(f.is_on_submit());
    assert!(!f.name.focused && !f.notes.focused);
    f.next_field();
    assert_eq!(f.current_field, 0);
    assert!(f.name.focused);
    f.next_field();
    assert!(!f.name.focused);
    assert!(f.start_date.focused);
    for _ in 0..11 {
        f.next_field();
    }
    assert_eq!(f.current_field, 1);
    let focused = [
        &f.name, &f.start_date, &f.honey_type, &f.honey_amount, &f.yeast_strain, &f.target_abv,
        &f.starting_gravity, &f.volume_gallons, &f.yan_required, &f.notes,
    ]
    .iter()
    .filter(|x| x.focused)
    .count();
    assert_eq!(focused, 1);
}

#[test]
fn new_form_toggle_and_edit() {
    let mut f = NewMeadView::new(0);
    f.toggle_edit();
    assert!(f.is_editing());
    f.insert_char('Z');
    f.move_cursor_start();
    f.insert_char('A');
    assert_eq!(f.name.get_value(), "AZ");
    f.move_cursor_end();
    f.delete_char();
    f.move_cursor_left();
    f.delete_char_forward();
    assert_eq!(f.name.get_value(), "");
    f.cancel_edit();
    assert!(!f.is_editing());
    f.previous_field();
    f.toggle_edit();
    assert!(!f.is_editing());
    f.insert_char('q');
    assert_eq!(f.notes.get_value(), "");
}

#[test]
fn detail_wraps_and_sub_form_navigation() {
    let mut d = MeadDetailView::new();
    d.previous_field();
    assert_eq!(d.current_field, 4);
    assert!(d.notes_input.focused);
    d.next_field();
    assert_eq!(d.current_field, 0);
    assert!(d.name_input.focused && !d.notes_input.focused);
    d.open_ingredient_input();
    assert!(d.show_ingredient_input);
    assert!(!d.name_input.focused);
    assert!(d.ingredient_name_input.focused);
    d.previous_field();
    assert_eq!(d.ingredient_field, 3);
    assert!(!d.ingredient_name_input.focused && !d.ingredient_unit_input.focused);
    assert_eq!(d.current_field, 0);
    d.move_cursor_right();
    assert_eq!(d.selected_ingredient_type, IngredientType::Spice);
    d.move_cursor_left();
    d.move_cursor_left();
    assert_eq!(d.selected_ingredient_type, IngredientType::Other);
    d.insert_char('x');
    d.next_field();
    assert_eq!(d.ingredient_field, 0);
    assert!(d.ingredient_name_input.focused);
    d.close_sub_forms();
    assert!(!d.show_ingredient_input);
    assert!(!d.ingredient_name_input.focused);
    assert!(d.name_input.focused);
}

#[test]
fn detail_status_slot_cycles() {
    let mut d = MeadDetailView::new();
    d.next_field();
    assert_eq!(d.current_field, 1);
    d.toggle_edit();
    assert!(!d.is_editing());
    assert_eq!(d.current_status, MeadStatus::Primary);
    d.insert_char('x');
    assert_eq!(d.name_input.get_value(), "");
}

#[test]
fn list_selection_wraps_and_clamps() {
    let mut l = MeadListView::new();
    assert!(l.needs_refresh);
    assert!(l.get_selected().is_none());
    l.next();
    assert_eq!(l.selected, 0);
    let mut rows = Vec::new();
    for i in 0..3 {
        let mut m = Mead::default_at(0);
        m.id = i;
        rows.push(m);
    }
    l.set_meads(rows);
    assert!(!l.needs_refresh);
    l.previous();
    assert_eq!(l.selected, 2);
    assert_eq!(l.get_selected().unwrap().id, 2);
    l.next();
    assert_eq!(l.selected, 0);
    l.previous();
    let mut rows = Vec::new();
    rows.push(Mead::default_at(0));
    l.set_meads(rows);
    assert_eq!(l.selected, 0);
}

#[test]
fn typing_on_focused_field_starts_edit() {
    let mut app = App::new(0);
    app.handle_event(press(Key::Down), 0);
    app.handle_event(press(Key::Enter), 0);
    assert_eq!(app.current_view, View::NewMead);
    app.handle_event(KeyEvent { code: Key::Tab, shift: true, press: true }, 0);
    app.handle_event(press(Key::Tab), 0);
    assert_eq!(app.new_mead.current_field, 0);
    assert!(app.new_mead.name.focused);
    assert!(!app.new_mead.is_editing());
    app.handle_event(press(Key::Char('x')), 0);
    assert!(app.new_mead.is_editing());
    assert_eq!(app.new_mead.name.get_value(), "x");
    assert_eq!(app.new_mead.name.cursor, 1);
}

#[test]
fn empty_list_ignores_confirm_and_delete() {
    let mut app = App::new(0);
    app.handle_event(press(Key::Enter), 0);
    assert_eq!(app.current_view, View::MeadList);
    assert_eq!(app.pending_load(), Some(Load::List));
    app.mead_list.set_meads(Vec::new());
    assert_eq!(app.pending_load(), None);
    assert!(app.handle_event(press(Key::Enter), 0).is_none());
    assert_eq!(app.current_view, View::MeadList);
    assert!(app.handle_event(press(Key::Char('d')), 0).is_none());
    assert_eq!(app.current_view, View::MeadList);
    app.handle_event(press(Key::Esc), 0);
    assert_eq!(app.current_view, View::MainMenu);
}

#[test]
fn unparsable_amount_falls_back_to_default() {
    let mut app = App::new(0);
    app.handle_event(press(Key::Down), 0);
    app.handle_event(press(Key::Enter), 0);
    type_text(&mut app, "Test");
    app.handle_event(press(Key::Enter), 0);
    app.handle_event(press(Key::Enter), 0);
    app.handle_event(press(Key::Enter), 0);
    assert_eq!(app.new_mead.current_field, 3);
    clear_field(&mut app);
    type_text(&mut app, "lots");
    app.handle_event(press(Key::Down), 0);
    assert_eq!(app.new_mead.current_field, 3);
    app.handle_event(press(Key::Enter), 0);
    for _ in 0..6 {
        app.handle_event(press(Key::Down), 0);
    }
    assert!(app.new_mead.is_on_submit());
    let req = app.handle_event(press(Key::Enter), 0);
    match &req {
        Some(StoreRequest::CreateMead(m)) => {
            assert_eq!(m.name, "Test");
            assert_eq!(m.honey_amount_lbs, Decimal { milli: 0 });
            assert_eq!(m.target_abv, Decimal { milli: 14000 });
            assert_eq!(m.yan_required, Decimal { milli: 200000 });
            assert_eq!(m.status, MeadStatus::Primary);
        }
        _ => panic!("expected a create request"),
    }
    app.complete(req.as_ref().unwrap(), Ok(()));
    assert_eq!(app.current_view, View::MainMenu);
    assert_eq!(app.status_message.as_deref(), Some("Created mead: Test"));
}

#[test]
fn store_error_is_shown_and_cleared() {
    let mut app = App::new(0);
    app.handle_event(press(Key::Down), 0);
    app.handle_event(press(Key::Enter), 0);
    app.handle_event(press(Key::Up), 0);
    let req = app.handle_event(press(Key::Enter), 0).unwrap();
    app.complete(&req, Err(String::from("disk full")));
    assert_eq!(app.current_view, View::NewMead);
    assert_eq!(app.status_message.as_deref(), Some("Error: disk full"));
    app.handle_event(KeyEvent { code: Key::Down, shift: false, press: false }, 0);
    assert!(app.status_message.is_some());
    app.handle_event(press(Key::Other), 0);
    assert!(app.status_message.is_none());
}

#[test]
fn quit_from_menu() {
    let mut app = App::new(0);
    app.handle_event(press(Key::Char('q')), 0);
    assert!(app.should_exit);
}

#[test]
fn form_round_trip_through_detail() {
    let mut app = App::new(0);
    app.handle_event(press(Key::Down), 0);
    app.handle_event(press(Key::Enter), 86400);
    assert_eq!(app.new_mead.start_date.get_value(), "1970-01-02");
    let entries = [
        "Orange Blossom", "2024-03-01", "Clover", "3.5", "71B", "12.5", "1.095", "1.0", "180",
        "Notes here",
    ];
    for (i, text) in entries.iter().enumerate() {
        assert_eq!(app.new_mead.current_field, i);
        clear_field(&mut app);
        type_text(&mut app, text);
        app.handle_event(press(Key::Enter), 0);
    }
    let req = app.handle_event(press(Key::Enter), 1000).unwrap();
    let stored = match &req {
        StoreRequest::CreateMead(m) => {
            let mut s = m.duplicate();
            s.id = 42;
            s
        }
        _ => panic!("expected a create request"),
    };
    assert_eq!(stored.created_at, 1000);
    assert_eq!(stored.honey_amount_lbs, Decimal { milli: 3500 });
    assert_eq!(stored.starting_gravity, Decimal { milli: 1095 });
    assert_eq!(stored.current_gravity, stored.starting_gravity);
    app.complete(&req, Ok(()));
    assert_eq!(app.current_view, View::MainMenu);
    app.handle_event(press(Key::Up), 0);
    app.handle_event(press(Key::Enter), 0);
    assert_eq!(app.current_view, View::MeadList);
    app.mead_list.set_meads(vec![stored.duplicate()]);
    app.handle_event(press(Key::Enter), 0);
    assert_eq!(app.current_view, View::MeadDetail(42));
    assert_eq!(app.pending_load(), Some(Load::Detail(42)));
    app.mead_detail.set_mead(stored.duplicate(), Vec::new(), Vec::new());
    assert_eq!(app.mead_detail.name_input.get_value(), "Orange Blossom");
    assert_eq!(app.mead_detail.current_gravity_input.get_value(), "1.095");
    assert_eq!(app.mead_detail.yan_added_input.get_value(), "0");
    assert_eq!(app.mead_detail.notes_input.get_value(), "Notes here");
    assert_eq!(app.mead_detail.current_status, MeadStatus::Primary);
    let back = app.mead_detail.get_updated_mead().unwrap();
    assert_eq!(back.name, stored.name);
    assert_eq!(back.start_date, "2024-03-01");
    assert_eq!(back.current_gravity, stored.current_gravity);
    assert_eq!(back.yan_added, stored.yan_added);
    assert_eq!(back.target_abv, Decimal { milli: 12500 });
    assert_eq!(back.yan_required, Decimal { milli: 180000 });
}

#[test]
fn detail_log_and_ingredient_requests() {
    let mut app = App::new(0);
    app.current_view = View::MeadDetail(7);
    let mut m = Mead::default_at(0);
    m.id = 7;
    app.mead_detail.set_mead(m, Vec::new(), Vec::new());
    app.handle_event(press(Key::Char('l')), 0);
    assert!(app.mead_detail.show_log_input);
    assert!(app.handle_event(press(Key::Enter), 0).is_none());
    type_text(&mut app, "racked");
    let req = app.handle_event(press(Key::Enter), 5).unwrap();
    match &req {
        StoreRequest::CreateLogEntry(e) => {
            assert_eq!(e.mead_id, 7);
            assert_eq!(e.entry_text, "racked");
            assert_eq!(e.timestamp, 5);
        }
        _ => panic!("expected a log entry"),
    }
    app.complete(&req, Ok(()));
    assert!(!app.mead_detail.show_log_input);
    assert_eq!(app.mead_detail.log_input.get_value(), "");
    assert!(app.mead_detail.needs_refresh);
    app.handle_event(press(Key::Char('i')), 0);
    assert!(app.mead_detail.show_ingredient_input);
    type_text(&mut app, "Cinnamon");
    app.handle_event(press(Key::Tab), 0);
    type_text(&mut app, "two");
    app.handle_event(press(Key::Tab), 0);
    app.handle_event(press(Key::Tab), 0);
    app.handle_event(press(Key::Right), 0);
    let req = app.handle_event(press(Key::Enter), 0).unwrap();
    match &req {
        StoreRequest::CreateIngredient(i) => {
            assert_eq!(i.mead_id, 7);
            assert_eq!(i.name, "Cinnamon");
            assert_eq!(i.amount, Decimal { milli: 0 });
            assert_eq!(i.unit, "oz");
            assert_eq!(i.ingredient_type, IngredientType::Spice);
            assert_eq!(i.added_date, "1970-01-01");
        }
        _ => panic!("expected an ingredient"),
    }
    app.complete(&req, Ok(()));
    assert!(!app.mead_detail.show_ingredient_input);
    assert_eq!(app.mead_detail.ingredient_name_input.get_value(), "");
    assert_eq!(app.mead_detail.selected_ingredient_type, IngredientType::Fruit);
    app.handle_event(press(Key::Esc), 0);
    assert_eq!(app.current_view, View::MeadList);
    assert!(app.mead_list.needs_refresh);
}

#[test]
fn detail_save_and_delete_requests() {
    let mut app = App::new(0);
    app.current_view = View::MeadDetail(3);
    let mut m = Mead::default_at(0);
    m.id = 3;
    m.name = String::from("Old");
    app.mead_detail.set_mead(m, Vec::new(), Vec::new());
    type_text(&mut app, "er");
    assert!(app.mead_detail.is_editing());
    app.handle_event(press(Key::Esc), 0);
    assert!(!app.mead_detail.is_editing());
    let req = app.handle_event(press(Key::Char('s')), 0).unwrap();
    match &req {
        StoreRequest::UpdateMead(u) => {
            assert_eq!(u.id, 3);
            assert_eq!(u.name, "Older");
        }
        _ => panic!("expected an update"),
    }
    app.complete(&req, Ok(()));
    assert_eq!(app.status_message.as_deref(), Some("Mead updated!"));
    let mut l = Mead::default_at(0);
    l.id = 9;
    l.name = String::from("Gone");
    app.current_view = View::MeadList;
    app.mead_list.set_meads(vec![l]);
    let req = app.handle_event(press(Key::Char('d')), 0).unwrap();
    match &req {
        StoreRequest::DeleteMead(id, name) => {
            assert_eq!(*id, 9);
            assert_eq!(name, "Gone");
        }
        _ => panic!("expected a delete"),
    }
    app.complete(&req, Ok(()));
    assert!(app.mead_list.needs_refresh);
    assert_eq!(app.status_message.as_deref(), Some("Deleted mead: Gone"));
}

#[test]
fn field_display_splits_at_cursor() {
    let mut f = InputField::new("Notes").with_placeholder("type here");
    match f.display() {
        FieldDisplay::Placeholder(p) => assert_eq!(p, "type here"),
        _ => panic!("expected the placeholder"),
    }
    f.set_focused(true);
    match f.display() {
        FieldDisplay::Cursor(a, c, b) => {
            assert_eq!(a, "");
            assert_eq!(c, ' ');
            assert_eq!(b, "");
        }
        _ => panic!("expected a cursor"),
    }
    f.set_value("héllo");
    f.move_cursor_left();
    f.move_cursor_left();
    f.move_cursor_left();
    match f.display() {
        FieldDisplay::Cursor(a, c, b) => {
            assert_eq!(a, "hé");
            assert_eq!(c, 'l');
            assert_eq!(b, "lo");
        }
        _ => panic!("expected a cursor"),
    }
    f.set_focused(false);
    match f.display() {
        FieldDisplay::Plain(t) => assert_eq!(t, "héllo"),
        _ => panic!("expected the text"),
    }
}

#[test]
fn screen_labels() {
    let mut menu = MainMenuView::new();
    assert_eq!(menu.item_label(0), "> Current Meads");
    assert_eq!(menu.item_label(1), "  New Mead");
    menu.next();
    assert_eq!(menu.item_label(0), "  Current Meads");
    assert_eq!(menu.item_label(1), "> New Mead");
    let mut list = MeadListView::new();
    assert_eq!(list.empty_message(), Some("No meads yet! Press Esc to go back and create one."));
    list.set_meads(vec![Mead::default_at(0)]);
    assert_eq!(list.empty_message(), None);
    let mut detail = MeadDetailView::new();
    assert_eq!(detail.title(), "Mead Details");
    let mut m = Mead::default_at(0);
    m.name = String::from("Cyser");
    m.status = MeadStatus::Aging;
    detail.set_mead(m, Vec::new(), Vec::new());
    assert_eq!(detail.title(), "Cyser - Aging");
}
