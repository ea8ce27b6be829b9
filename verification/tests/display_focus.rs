use strata::display_focus::DisplayFocus;

#[test]
fn display_focus_test_display_focus_last_focus() {
    assert_eq!(
        DisplayFocus::last_focus(&DisplayFocus::TableSelector),
        DisplayFocus::TableSelector
    );
    assert_eq!(
        DisplayFocus::last_focus(&DisplayFocus::TableView),
        DisplayFocus::TableView
    );
    assert_eq!(
        DisplayFocus::last_focus(&DisplayFocus::Command(Box::new(
            DisplayFocus::TableSelector
        ))),
        DisplayFocus::TableSelector
    );
    assert_eq!(
        DisplayFocus::last_focus(&DisplayFocus::Error(Box::new(DisplayFocus::TableSelector))),
        DisplayFocus::TableSelector
    );
    assert_eq!(
        DisplayFocus::last_focus(&DisplayFocus::Exit(Box::new(DisplayFocus::TableSelector))),
        DisplayFocus::TableSelector
    );
}

#[test]
fn state_test_display_focus_last_focus() {
    assert_eq!(
        DisplayFocus::last_focus(&DisplayFocus::TableSelector),
        DisplayFocus::TableSelector
    );
    assert_eq!(
        DisplayFocus::last_focus(&DisplayFocus::TableView),
        DisplayFocus::TableView
    );
    assert_eq!(
        DisplayFocus::last_focus(&DisplayFocus::Command(Box::new(DisplayFocus::TableSelector))),
        DisplayFocus::TableSelector
    );
    assert_eq!(
        DisplayFocus::last_focus(&DisplayFocus::Error(Box::new(DisplayFocus::TableSelector))),
        DisplayFocus::TableSelector
    );
    assert_eq!(
        DisplayFocus::last_focus(&DisplayFocus::Exit(Box::new(DisplayFocus::TableSelector))),
        DisplayFocus::TableSelector
    );
}

#[test]
fn last_focus_looks_under_every_overlay() {
    let nested = DisplayFocus::Command(Box::new(DisplayFocus::Error(Box::new(
        DisplayFocus::Exit(Box::new(DisplayFocus::TableView)),
    ))));
    assert_eq!(DisplayFocus::last_focus(&nested), DisplayFocus::TableView);
    assert_eq!(nested.clone(), nested);
}

#[test]
fn focus_names_and_guides() {
    assert_eq!(DisplayFocus::TableSelector.to_string(), "TableList");
    assert_eq!(DisplayFocus::TableView.to_string(), "TableView");
    assert_eq!(
        DisplayFocus::Command(Box::new(DisplayFocus::TableView)).to_string(),
        "Command"
    );
    assert_eq!(DisplayFocus::Error(Box::new(DisplayFocus::TableView)).to_string(), "Error");
    assert_eq!(DisplayFocus::Exit(Box::new(DisplayFocus::TableView)).to_string(), "Exit");
    assert_eq!(
        DisplayFocus::TableSelector.get_guide(),
        "<a> Add new table | <o> Open CSV file | <d> Delete table | <q> Quit app"
    );
    assert_eq!(
        DisplayFocus::Exit(Box::new(DisplayFocus::TableView)).get_guide(),
        " <Enter> Exit | <Esc> Cancel"
    );
    assert_eq!(DisplayFocus::default(), DisplayFocus::TableSelector);
}
