use octopuzzles::button::{Button, ButtonElement, Content, ControlEvent, DEFAULT_CLASS};
use octopuzzles::home_page::{HomePage, PageAction, BUTTON_LABEL, HEADING};
use octopuzzles::shell::{App, Page, ROOT_PATH, STYLESHEET_HREF, STYLESHEET_ID, TITLE};
use octopuzzles::sudoku::{Dimensions, Sudoku};
use octopuzzles::sudoku_display::SudokuDisplay;

#[test]
fn button_keeps_handler_and_content() {
    let button = Button(7u8, vec![Content::Text("go".to_string()), Content::Number(3)]);
    assert_eq!(button.on_click, 7);
    assert_eq!(button.children, vec![Content::Text("go".to_string()), Content::Number(3)]);
}

#[test]
fn button_has_the_default_class() {
    let button = Button((), Vec::new());
    assert_eq!(button.class, "rounded bg-red-500 h-10 px-2");
    assert_eq!(button.class, DEFAULT_CLASS);
    assert!(button.children.is_empty());
}

#[test]
fn button_class_can_be_overridden() {
    let button = Button('h', vec![Content::Number(1)]).with_class("flat".to_string());
    assert_eq!(
        button,
        ButtonElement { class: "flat".to_string(), on_click: 'h', children: vec![Content::Number(1)] }
    );
}

#[test]
fn activation_names_the_handler_once() {
    let button = Button("save", Vec::new());
    assert_eq!(button.handler_for(ControlEvent::Activated), Some(&"save"));
}

#[test]
fn rendering_names_no_handler() {
    let button = Button("save", Vec::new());
    assert_eq!(button.handler_for(ControlEvent::Rendered), None);
}

#[test]
fn handler_runs_once_per_activation_and_never_on_render() {
    let button = Button(5u32, Vec::new());
    let mut runs: Vec<u32> = Vec::new();
    for event in [
        ControlEvent::Rendered,
        ControlEvent::Activated,
        ControlEvent::Rendered,
        ControlEvent::Rendered,
        ControlEvent::Activated,
        ControlEvent::Activated,
    ] {
        if let Some(handler) = button.handler_for(event) {
            runs.push(*handler);
        }
    }
    assert_eq!(runs, vec![5, 5, 5]);
}

#[test]
fn new_page_starts_at_zero() {
    let page = HomePage::new();
    assert_eq!(page.count(), 0);
}

#[test]
fn new_page_holds_the_default_puzzle() {
    let page = HomePage::new();
    let expected = vec![Sudoku {
        title: "Sudoku".to_string(),
        description: String::new(),
        dimensions: Dimensions { rows: 9, columns: 9 },
    }];
    assert_eq!(page.sudokus(), &expected);
}

#[test]
fn home_page_mounts_one_grid_for_nine_by_nine() {
    let view = HomePage::new().render();
    assert_eq!(view.grids.len(), 1);
    assert_eq!(view.grids[0].dimensions, Dimensions { rows: 9, columns: 9 });
    assert_eq!(view.grids[0].placements.len(), 81);
    let alone = SudokuDisplay(Sudoku {
        title: "Sudoku".to_string(),
        description: String::new(),
        dimensions: Dimensions { rows: 9, columns: 9 },
    })
    .unwrap();
    assert_eq!(view.grids[0], alone);
}

#[test]
fn home_page_shows_heading_and_button() {
    let view = HomePage::new().render();
    assert_eq!(view.heading, "Welcome to Octopuzzles!");
    assert_eq!(view.heading, HEADING);
    assert_eq!(view.button.class, DEFAULT_CLASS);
    assert_eq!(view.button.on_click, PageAction::Increment);
    assert_eq!(
        view.button.children,
        vec![Content::Text("Click Me: ".to_string()), Content::Number(0)]
    );
    assert_eq!(BUTTON_LABEL, "Click Me: ");
}

#[test]
fn page_button_matches_rendered_button() {
    let mut page = HomePage::new();
    page.update(PageAction::Increment);
    assert_eq!(page.button(), page.render().button);
}

#[test]
fn update_increments_by_one() {
    let mut page = HomePage::new();
    page.update(PageAction::Increment);
    assert_eq!(page.count(), 1);
    page.update(PageAction::Increment);
    assert_eq!(page.count(), 2);
}

#[test]
fn counter_equals_number_of_activations() {
    for n in [0u64, 1, 2, 10, 1000] {
        let mut page = HomePage::new();
        for _ in 0..n {
            page.handle(ControlEvent::Activated);
        }
        assert_eq!(page.count(), n);
        assert_eq!(page.render().button.children[1], Content::Number(n));
    }
}

#[test]
fn rendering_never_changes_the_counter() {
    let mut page = HomePage::new();
    page.handle(ControlEvent::Activated);
    page.handle(ControlEvent::Activated);
    let before = page.render();
    for _ in 0..5 {
        page.handle(ControlEvent::Rendered);
        let again = page.render();
        assert_eq!(again, before);
    }
    assert_eq!(page.count(), 2);
}

#[test]
fn mixed_session_counts_only_activations() {
    let mut page = HomePage::new();
    let session = [
        ControlEvent::Rendered,
        ControlEvent::Activated,
        ControlEvent::Rendered,
        ControlEvent::Activated,
        ControlEvent::Activated,
        ControlEvent::Rendered,
    ];
    for event in session {
        page.handle(event);
    }
    assert_eq!(page.count(), 3);
    assert_eq!(page.sudokus().len(), 1);
}

#[test]
fn activation_through_the_rendered_button_increments() {
    let mut page = HomePage::new();
    let view = page.render();
    if let Some(action) = view.button.handler_for(ControlEvent::Activated) {
        page.update(*action);
    }
    assert_eq!(page.count(), 1);
    assert_eq!(view.button.handler_for(ControlEvent::Rendered), None);
}

#[test]
fn app_sets_title_and_stylesheet() {
    let app = App();
    assert_eq!(app.title, "Welcome to Leptos");
    assert_eq!(app.title, TITLE);
    assert_eq!(app.stylesheet.id, "leptos");
    assert_eq!(app.stylesheet.id, STYLESHEET_ID);
    assert_eq!(app.stylesheet.href, "/pkg/start-axum-workspace.css");
    assert_eq!(app.stylesheet.href, STYLESHEET_HREF);
}

#[test]
fn app_has_exactly_the_root_route() {
    let app = App();
    assert_eq!(app.routes.len(), 1);
    assert_eq!(app.routes[0].path, "");
    assert_eq!(app.routes[0].path, ROOT_PATH);
    assert_eq!(app.routes[0].page, Page::Home);
}

#[test]
fn app_is_the_same_every_time() {
    assert_eq!(App(), App());
}
