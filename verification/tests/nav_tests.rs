use newsreader::nav::{Action, App, Focus, InputEvent};
use newsreader::stories::NewsStory;

fn story(title: &str) -> NewsStory {
    NewsStory {
        title: String::from(title),
        content: String::from("body"),
        time: String::from("12:00:00"),
        by: String::from("someone"),
    }
}

fn stories(n: usize) -> Vec<NewsStory> {
    let mut out: Vec<NewsStory> = Vec::new();
    for k in 0..n {
        out.push(story(&format!("story {}", k)));
    }
    out
}

/// A controller with three themes whose first page of ten stories has
/// arrived, as at startup.
fn loaded_app() -> App {
    let mut app = App::new(3);
    let act = app.on_event(InputEvent::Refresh);
    assert_eq!(act, Action::Fetch { page: 1 });
    app.fetch_completed(stories(10));
    app
}

#[test]
fn startup_refresh_loads_the_first_page() {
    let app = loaded_app();
    assert_eq!(app.story_list.stories.len(), 10);
    assert_eq!(app.story_list.selected, Some(0));
    assert_eq!(app.story_list.current_page, 1);
    assert_eq!(app.focus, Focus::SectionList);
    assert_eq!(app.story_scroll, 0);
    assert!(!app.fetch_pending());
}

#[test]
fn focus_moves_right_and_left() {
    let mut app = loaded_app();
    assert_eq!(app.on_event(InputEvent::FocusRight), Action::Nothing);
    assert_eq!(app.focus, Focus::StoryBody);
    assert_eq!(app.on_event(InputEvent::FocusRight), Action::Nothing);
    assert_eq!(app.focus, Focus::StoryBody);
    assert_eq!(app.on_event(InputEvent::FocusLeft), Action::Nothing);
    assert_eq!(app.focus, Focus::SectionList);
}

#[test]
fn body_scroll_moves_down_and_clamps_at_zero() {
    let mut app = loaded_app();
    app.on_event(InputEvent::FocusRight);
    for _ in 0..3 {
        assert_eq!(app.on_event(InputEvent::MoveDown), Action::Nothing);
    }
    assert_eq!(app.story_scroll, 3);
    for _ in 0..5 {
        assert_eq!(app.on_event(InputEvent::MoveUp), Action::Nothing);
    }
    assert_eq!(app.story_scroll, 0, "scrolling up stops at the top");
    // scrolling the body never moves the selection
    assert_eq!(app.story_list.selected, Some(0));
}

#[test]
fn moving_down_the_list_advances_selection_and_rewinds_scroll() {
    let mut app = loaded_app();
    app.on_event(InputEvent::FocusRight);
    app.on_event(InputEvent::MoveDown);
    assert_eq!(app.story_scroll, 1);
    app.on_event(InputEvent::FocusLeft);
    assert_eq!(app.on_event(InputEvent::MoveDown), Action::Nothing);
    assert_eq!(app.story_list.selected, Some(1));
    assert_eq!(app.story_scroll, 0, "changing story rewinds the body scroll");
}

#[test]
fn moving_up_the_list_retreats_selection() {
    let mut app = loaded_app();
    app.on_event(InputEvent::MoveDown);
    app.on_event(InputEvent::MoveDown);
    assert_eq!(app.story_list.selected, Some(2));
    assert_eq!(app.on_event(InputEvent::MoveUp), Action::Nothing);
    assert_eq!(app.story_list.selected, Some(1));
    app.on_event(InputEvent::MoveUp);
    app.on_event(InputEvent::MoveUp);
    assert_eq!(app.story_list.selected, Some(0), "the selection clamps at the first story");
}

#[test]
fn near_the_end_a_move_down_asks_for_the_next_page() {
    let mut app = loaded_app();
    for _ in 0..7 {
        app.on_event(InputEvent::MoveDown);
    }
    assert_eq!(app.story_list.selected, Some(7));
    let act = app.on_event(InputEvent::MoveDown);
    assert_eq!(act, Action::Fetch { page: 2 });
    assert!(app.fetch_pending());
    assert_eq!(app.story_list.selected, Some(7), "the move waits for the fetched page");
    assert_eq!(app.story_list.current_page, 1, "the page advances only on completion");
    // a second such move while the fetch is pending is dropped
    assert_eq!(app.on_event(InputEvent::MoveDown), Action::Nothing);
    assert_eq!(app.story_list.selected, Some(7));
    app.fetch_completed(stories(10));
    assert_eq!(app.story_list.stories.len(), 20);
    assert_eq!(app.story_list.selected, Some(8), "the deferred move happens on completion");
    assert_eq!(app.story_list.current_page, 2);
    assert!(!app.fetch_pending());
}

#[test]
fn navigation_stays_responsive_while_a_fetch_is_pending() {
    let mut app = loaded_app();
    for _ in 0..7 {
        app.on_event(InputEvent::MoveDown);
    }
    app.on_event(InputEvent::MoveDown);
    assert!(app.fetch_pending());
    assert_eq!(app.on_event(InputEvent::MoveUp), Action::Nothing);
    assert_eq!(app.story_list.selected, Some(6));
    assert_eq!(app.on_event(InputEvent::FocusRight), Action::Nothing);
    assert_eq!(app.focus, Focus::StoryBody);
}

#[test]
fn a_failed_fetch_leaves_the_collection_untouched() {
    let mut app = loaded_app();
    for _ in 0..7 {
        app.on_event(InputEvent::MoveDown);
    }
    let act = app.on_event(InputEvent::MoveDown);
    assert_eq!(act, Action::Fetch { page: 2 });
    app.fetch_failed();
    assert!(!app.fetch_pending());
    assert_eq!(app.story_list.stories.len(), 10);
    assert_eq!(app.story_list.selected, Some(7));
    assert_eq!(app.story_list.current_page, 1);
    // the same input asks for the same page again
    assert_eq!(app.on_event(InputEvent::MoveDown), Action::Fetch { page: 2 });
}

#[test]
fn changing_section_fetches_its_first_page() {
    let mut app = loaded_app();
    app.on_event(InputEvent::FocusRight);
    app.on_event(InputEvent::MoveDown);
    assert_eq!(app.story_scroll, 1);
    app.on_event(InputEvent::FocusLeft);
    let act = app.on_event(InputEvent::NextTab);
    assert_eq!(act, Action::Fetch { page: 1 });
    assert_eq!(app.section_tabs.index, 1);
    assert_eq!(app.story_scroll, 0, "changing section rewinds the body scroll");
    assert!(app.fetch_pending());
    // the change of section is dropped while that fetch is pending
    assert_eq!(app.on_event(InputEvent::NextTab), Action::Nothing);
    assert_eq!(app.section_tabs.index, 1);
    app.fetch_completed(stories(4));
    assert_eq!(app.story_list.stories.len(), 4);
    assert_eq!(app.story_list.selected, Some(0));
    assert_eq!(app.story_list.current_page, 1);
    assert_eq!(app.story_scroll, 0);
}

#[test]
fn refresh_is_dropped_while_a_fetch_is_pending() {
    let mut app = loaded_app();
    let act = app.on_event(InputEvent::Refresh);
    assert_eq!(act, Action::Fetch { page: 1 });
    assert_eq!(app.on_event(InputEvent::Refresh), Action::Nothing);
    app.fetch_completed(stories(2));
    assert_eq!(app.story_list.stories.len(), 2);
}

#[test]
fn refresh_with_an_empty_answer_leaves_no_selection() {
    let mut app = loaded_app();
    app.on_event(InputEvent::Refresh);
    app.fetch_completed(Vec::new());
    assert_eq!(app.story_list.stories.len(), 0);
    assert_eq!(app.story_list.selected, None);
    // with nothing loaded a move down has nothing to select
    assert_eq!(app.on_event(InputEvent::MoveDown), Action::Nothing);
    assert_eq!(app.story_list.selected, None);
}

#[test]
fn refresh_method_installs_a_first_page() {
    let mut app = App::new(3);
    app.refresh(stories(5));
    assert_eq!(app.story_list.stories.len(), 5);
    assert_eq!(app.story_list.selected, Some(0));
    assert_eq!(app.story_list.current_page, 1);
    assert_eq!(app.story_scroll, 0);
    assert!(!app.fetch_pending());
}

#[test]
fn themes_cycle_through_the_count_given_at_construction() {
    let mut app = App::new(3);
    assert_eq!(app.theme(), 0);
    app.on_event(InputEvent::CycleTheme);
    assert_eq!(app.theme(), 1);
    app.on_event(InputEvent::CycleTheme);
    assert_eq!(app.theme(), 2);
    app.on_event(InputEvent::CycleTheme);
    assert_eq!(app.theme(), 0, "after the last theme comes the first");
}

#[test]
fn quit_changes_nothing_and_asks_to_terminate() {
    let mut app = loaded_app();
    assert_eq!(app.on_event(InputEvent::Quit), Action::Quit);
    assert_eq!(app.story_list.stories.len(), 10);
    assert_eq!(app.story_list.selected, Some(0));
}
