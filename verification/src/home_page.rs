//! The home page: a heading, one button that counts its activations, and the
//! grid of every puzzle on the page.
//!
//! The page is a small state machine. Its state is the list of puzzles and the
//! counter; the only transition is the increment that the button's handler
//! stands for. Rendering reads the state and never changes it.

use vstd::prelude::*;
use crate::button::{
    activations, Button, ButtonElement, Content, ControlEvent, SpecButtonElement, SpecContent,
    DEFAULT_CLASS,
};
use crate::sudoku::{Dimensions, SpecSudoku, Sudoku};
use crate::sudoku_display::{grid_of, Grid, SpecGrid, SudokuDisplay, CELL_SIZE};

verus! {

/// Heading of the page.
pub const HEADING: &'static str = "Welcome to Octopuzzles!";

/// Text in front of the counter on the button.
pub const BUTTON_LABEL: &'static str = "Click Me: ";

/// Title of the puzzle that the page starts with.
pub const DEFAULT_TITLE: &'static str = "Sudoku";

/// Description of the puzzle that the page starts with.
pub const DEFAULT_DESCRIPTION: &'static str = "";

/// What the page's button asks of the page.
#[derive(Clone, Copy, Debug, PartialEq, Eq, Structural)]
pub enum PageAction {
    /// Count one more activation.
    Increment,
}

/// The view of each puzzle of a list, in order.
pub open spec fn sudokus_view(sudokus: Seq<Sudoku>) -> Seq<SpecSudoku> {
    sudokus.map_values(|sudoku: Sudoku| sudoku@)
}

/// The view of each grid of a list, in order.
pub open spec fn grids_view(grids: Seq<Grid>) -> Seq<SpecGrid> {
    grids.map_values(|grid: Grid| grid@)
}

/// Mathematical content of a rendered page.
pub struct SpecHomePageView {
    pub heading: Seq<char>,
    pub button: SpecButtonElement<PageAction>,
    pub grids: Seq<SpecGrid>,
}

/// Mathematical content of a [`HomePage`]: its puzzles and its counter.
pub struct SpecHomePage {
    pub sudokus: Seq<SpecSudoku>,
    pub count: nat,
}

impl SpecHomePage {
    /// The page as it is first shown: one nine by nine puzzle, nothing
    /// counted.
    pub open spec fn initial() -> SpecHomePage {
        SpecHomePage {
            sudokus: seq![
                SpecSudoku {
                    title: DEFAULT_TITLE@,
                    description: DEFAULT_DESCRIPTION@,
                    dimensions: Dimensions { rows: 9, columns: 9 },
                },
            ],
            count: 0,
        }
    }

    /// The page's button: it asks for an increment and shows the label
    /// followed by the counter.
    pub open spec fn button(self) -> SpecButtonElement<PageAction> {
        SpecButtonElement {
            class: DEFAULT_CLASS@,
            on_click: PageAction::Increment,
            children: seq![
                SpecContent::Text(BUTTON_LABEL@),
                SpecContent::Number(self.count),
            ],
        }
    }

    /// What the page shows: the heading, the button, and the grid of each
    /// puzzle in the order of the list.
    pub open spec fn rendered(self) -> SpecHomePageView {
        SpecHomePageView {
            heading: HEADING@,
            button: self.button(),
            grids: self.sudokus.map_values(
                |sudoku: SpecSudoku| grid_of(sudoku.dimensions, CELL_SIZE),
            ),
        }
    }

    /// The page after `action` was carried out.
    pub open spec fn applied(self, action: PageAction) -> SpecHomePage {
        match action {
            PageAction::Increment => SpecHomePage { sudokus: self.sudokus, count: self.count + 1 },
        }
    }

    /// The page after each of `actions` was carried out, first to last.
    pub open spec fn applied_all(self, actions: Seq<PageAction>) -> SpecHomePage
        decreases actions.len(),
    {
        if actions.len() == 0 {
            self
        } else {
            self.applied_all(actions.drop_last()).applied(actions.last())
        }
    }

    /// The page after `event` reached its button: every handler that the
    /// button names for the event was run.
    pub open spec fn after_event(self, event: ControlEvent) -> SpecHomePage {
        self.applied_all(self.button().invocations(event))
    }

    /// The page after a whole session of events, first to last.
    pub open spec fn after_events(self, events: Seq<ControlEvent>) -> SpecHomePage
        decreases events.len(),
    {
        if events.len() == 0 {
            self
        } else {
            self.after_events(events.drop_last()).after_event(events.last())
        }
    }
}

/// An activation changes the page exactly as one run of the button's handler
/// does, and a rendering leaves the page as it was.
pub proof fn lemma_event_runs_handler_once(page: SpecHomePage, event: ControlEvent)
    ensures
        page.after_event(ControlEvent::Rendered) == page,
        page.after_event(ControlEvent::Activated) == page.applied(PageAction::Increment),
        page.after_event(event).sudokus == page.sudokus,
        page.after_event(event).count == page.count + activations(seq![event]),
{
    reveal_with_fuel(SpecHomePage::applied_all, 2);
    reveal_with_fuel(activations, 2);
    assert(seq![PageAction::Increment].drop_last() =~= Seq::<PageAction>::empty());
    assert(seq![event].drop_last() =~= Seq::<ControlEvent>::empty());
}

/// Over any session of renderings and activations, in any order, the counter
/// grows by exactly the number of activations and the puzzles stay as they
/// were.
pub proof fn lemma_counter_counts_activations(page: SpecHomePage, events: Seq<ControlEvent>)
    ensures
        page.after_events(events).count == page.count + activations(events),
        page.after_events(events).sudokus == page.sudokus,
    decreases events.len(),
{
    if events.len() > 0 {
        lemma_counter_counts_activations(page, events.drop_last());
        lemma_event_runs_handler_once(page.after_events(events.drop_last()), events.last());
    }
}

/// Starting from the page as first shown, the counter equals the number of
/// activations of the session, however many renderings lie between them.
pub proof fn lemma_counter_equals_activations(events: Seq<ControlEvent>)
    ensures
        SpecHomePage::initial().after_events(events).count == activations(events),
{
    lemma_counter_counts_activations(SpecHomePage::initial(), events);
}

/// Rendering alone never changes the page: after a session without an
/// activation the page is what it was before.
pub proof fn lemma_rendering_changes_nothing(page: SpecHomePage, events: Seq<ControlEvent>)
    requires
        forall|i: int| 0 <= i < events.len() ==> events[i] == ControlEvent::Rendered,
    ensures
        page.after_events(events) == page,
        activations(events) == 0,
    decreases events.len(),
{
    if events.len() > 0 {
        lemma_rendering_changes_nothing(page, events.drop_last());
        lemma_event_runs_handler_once(page.after_events(events.drop_last()), events.last());
    }
}

/// A session of `events.len()` activations and nothing else counts up to
/// `events.len()`.
pub proof fn lemma_activations_only(events: Seq<ControlEvent>)
    requires
        forall|i: int| 0 <= i < events.len() ==> events[i] == ControlEvent::Activated,
    ensures
        activations(events) == events.len(),
        SpecHomePage::initial().after_events(events).count == events.len(),
    decreases events.len(),
{
    if events.len() > 0 {
        lemma_activations_only(events.drop_last());
    }
    lemma_counter_equals_activations(events);
}

/// The page as rendered: what a backend has to draw.
#[derive(Debug, PartialEq, Eq)]
pub struct HomePageView {
    pub heading: String,
    pub button: ButtonElement<PageAction>,
    pub grids: Vec<Grid>,
}

impl View for HomePageView {
    type V = SpecHomePageView;

    open spec fn view(&self) -> SpecHomePageView {
        SpecHomePageView {
            heading: self.heading@,
            button: self.button@,
            grids: grids_view(self.grids@),
        }
    }
}

/// State of the home page. The counter is the only part that ever changes.
#[derive(Debug)]
pub struct HomePage {
    sudokus: Vec<Sudoku>,
    count: u64,
}

impl View for HomePage {
    type V = SpecHomePage;

    closed spec fn view(&self) -> SpecHomePage {
        SpecHomePage { sudokus: sudokus_view(self.sudokus@), count: self.count as nat }
    }
}

impl HomePage {
    /// Every puzzle of the page can be laid out.
    #[verifier::type_invariant]
    spec fn well_formed(self) -> bool {
        forall|i: int|
            0 <= i < self.sudokus@.len() ==> (#[trigger] self.sudokus@[i]).dimensions.is_positive()
    }

    /// The page as it is first shown.
    pub fn new() -> (page: HomePage)
        ensures
            page@ == SpecHomePage::initial(),
    {
        let mut sudokus: Vec<Sudoku> = Vec::new();
        sudokus.push(
            Sudoku {
                title: DEFAULT_TITLE.to_owned(),
                description: DEFAULT_DESCRIPTION.to_owned(),
                dimensions: Dimensions { rows: 9, columns: 9 },
            },
        );
        let page = HomePage { sudokus, count: 0 };
        assert(page@.sudokus =~= SpecHomePage::initial().sudokus);
        page
    }

    /// How many activations the page has counted.
    pub fn count(&self) -> (count: u64)
        ensures
            count == self@.count,
    {
        self.count
    }

    /// The puzzles of the page.
    pub fn sudokus(&self) -> (sudokus: &Vec<Sudoku>)
        ensures
            sudokus_view(sudokus@) == self@.sudokus,
    {
        &self.sudokus
    }

    /// The page's button as it stands now.
    pub fn button(&self) -> (button: ButtonElement<PageAction>)
        ensures
            button@ == self@.button(),
    {
        let mut children: Vec<Content> = Vec::new();
        children.push(Content::Text(BUTTON_LABEL.to_owned()));
        children.push(Content::Number(self.count));
        let button = Button(PageAction::Increment, children);
        assert(button@.children =~= self@.button().children);
        button
    }

    /// Carries out `action`. This is the only way the state changes.
    pub fn update(&mut self, action: PageAction)
        requires
            old(self)@.count < u64::MAX,
        ensures
            final(self)@ == old(self)@.applied(action),
    {
        proof {
            use_type_invariant(&*self);
        }
        match action {
            PageAction::Increment => {
                self.count = self.count + 1;
            },
        }
    }

    /// Answers one event on the page's button: an activation runs the button's
    /// handler once, a rendering runs nothing.
    pub fn handle(&mut self, event: ControlEvent)
        requires
            event == ControlEvent::Activated ==> old(self)@.count < u64::MAX,
        ensures
            final(self)@ == old(self)@.after_event(event),
            final(self)@ == match event {
                ControlEvent::Activated => old(self)@.applied(PageAction::Increment),
                ControlEvent::Rendered => old(self)@,
            },
    {
        let button = self.button();
        proof {
            lemma_event_runs_handler_once(self@, event);
        }
        match button.handler_for(event) {
            Some(action) => {
                self.update(*action);
            },
            None => {},
        }
    }

    /// Renders the page. The state is only read.
    pub fn render(&self) -> (view: HomePageView)
        ensures
            view@ == self@.rendered(),
    {
        proof {
            use_type_invariant(self);
        }
        let mut grids: Vec<Grid> = Vec::new();
        let mut i: usize = 0;
        while i < self.sudokus.len()
            invariant
                0 <= i <= self.sudokus@.len(),
                forall|j: int|
                    0 <= j < self.sudokus@.len() ==> (#[trigger] self.sudokus@[j]).dimensions.is_positive(),
                grids@.len() == i,
                forall|j: int|
                    0 <= j < i ==> (#[trigger] grids@[j])@ == grid_of(
                        self.sudokus@[j].dimensions,
                        CELL_SIZE,
                    ),
            decreases self.sudokus@.len() - i,
        {
            let sudoku = self.sudokus[i].clone();
            if let Ok(grid) = SudokuDisplay(sudoku) {
                grids.push(grid);
            }
            i = i + 1;
        }
        let view = HomePageView { heading: HEADING.to_owned(), button: self.button(), grids };
        assert(view@.grids =~= self@.rendered().grids);
        view
    }
}

} // verus!
