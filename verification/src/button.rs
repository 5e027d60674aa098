//! The reusable control: a button that shows what its owner gives it and hands
//! activations back to its owner.
//!
//! The handler is a value of the owner's choosing, typically one variant of an
//! enum of actions. The control never looks inside it: it keeps the handler
//! it was given and names it again for every activation.

use vstd::prelude::*;

verus! {

/// Style class of a button whose owner does not choose another.
pub const DEFAULT_CLASS: &'static str = "rounded bg-red-500 h-10 px-2";

/// One piece of what a control displays.
#[derive(Debug, PartialEq, Eq)]
pub enum Content {
    /// Literal text.
    Text(String),
    /// A number, shown in decimal.
    Number(u64),
}

/// Mathematical content of a [`Content`].
pub enum SpecContent {
    Text(Seq<char>),
    Number(nat),
}

impl View for Content {
    type V = SpecContent;

    open spec fn view(&self) -> SpecContent {
        match self {
            Content::Text(text) => SpecContent::Text(text@),
            Content::Number(number) => SpecContent::Number(*number as nat),
        }
    }
}

/// The view of each piece of a list of contents, in order.
pub open spec fn contents_view(contents: Seq<Content>) -> Seq<SpecContent> {
    contents.map_values(|content: Content| content@)
}

/// What can happen to a control once it is part of a page.
#[derive(Clone, Copy, Debug, PartialEq, Eq, Structural)]
pub enum ControlEvent {
    /// The control was drawn, for the first time or again.
    Rendered,
    /// The user activated the control, for instance by a pointer click.
    Activated,
}

/// How many events of a session are activations.
pub open spec fn activations(events: Seq<ControlEvent>) -> nat
    decreases events.len(),
{
    if events.len() == 0 {
        0
    } else {
        let earlier = activations(events.drop_last());
        match events.last() {
            ControlEvent::Activated => earlier + 1,
            ControlEvent::Rendered => earlier,
        }
    }
}

/// A button as it is to be shown: its style class, the handler to run when it
/// is activated, and the content it displays.
#[derive(Debug, PartialEq, Eq)]
pub struct ButtonElement<H> {
    pub class: String,
    pub on_click: H,
    pub children: Vec<Content>,
}

/// Mathematical content of a [`ButtonElement`].
pub struct SpecButtonElement<H> {
    pub class: Seq<char>,
    pub on_click: H,
    pub children: Seq<SpecContent>,
}

impl<H> View for ButtonElement<H> {
    type V = SpecButtonElement<H>;

    open spec fn view(&self) -> SpecButtonElement<H> {
        SpecButtonElement {
            class: self.class@,
            on_click: self.on_click,
            children: contents_view(self.children@),
        }
    }
}

impl<H> SpecButtonElement<H> {
    /// The handlers that `event` calls for, in order: the button's handler,
    /// once, for an activation; none for a rendering.
    pub open spec fn invocations(self, event: ControlEvent) -> Seq<H> {
        match event {
            ControlEvent::Activated => seq![self.on_click],
            ControlEvent::Rendered => Seq::empty(),
        }
    }

    /// The handlers that a whole session of events calls for, first to last.
    pub open spec fn invocations_during(self, events: Seq<ControlEvent>) -> Seq<H>
        decreases events.len(),
    {
        if events.len() == 0 {
            Seq::empty()
        } else {
            self.invocations_during(events.drop_last()) + self.invocations(events.last())
        }
    }
}

/// Over any session, a button's handler is called for exactly once per
/// activation and never for a rendering: the session calls for as many
/// handlers as it has activations, and each of them is the button's own.
pub proof fn lemma_one_invocation_per_activation<H>(
    button: SpecButtonElement<H>,
    events: Seq<ControlEvent>,
)
    ensures
        button.invocations_during(events).len() == activations(events),
        forall|i: int|
            0 <= i < button.invocations_during(events).len() ==> #[trigger] button.invocations_during(
                events,
            )[i] == button.on_click,
    decreases events.len(),
{
    if events.len() > 0 {
        lemma_one_invocation_per_activation(button, events.drop_last());
    }
}

/// Builds a button that runs `on_click` when activated and displays
/// `children`. The button carries the handler and the content exactly as
/// given, and the default style class.
#[allow(non_snake_case)]
pub fn Button<H>(on_click: H, children: Vec<Content>) -> (button: ButtonElement<H>)
    ensures
        button@ == (SpecButtonElement {
            class: DEFAULT_CLASS@,
            on_click,
            children: contents_view(children@),
        }),
{
    ButtonElement { class: DEFAULT_CLASS.to_owned(), on_click, children }
}

impl<H> ButtonElement<H> {
    /// The same button with `class` in place of its style class.
    pub fn with_class(self, class: String) -> (button: Self)
        ensures
            button@ == (SpecButtonElement {
                class: class@,
                on_click: self@.on_click,
                children: self@.children,
            }),
    {
        let ButtonElement { class: _, on_click, children } = self;
        ButtonElement { class, on_click, children }
    }

    /// The handler to run in answer to `event`: this button's handler when
    /// the button was activated, and none when it was only rendered. The host
    /// runs what it is handed, so every activation runs the handler exactly
    /// once and a rendering runs nothing.
    pub fn handler_for(&self, event: ControlEvent) -> (handler: Option<&H>)
        ensures
            handler == match event {
                ControlEvent::Activated => Some(&self.on_click),
                ControlEvent::Rendered => None,
            },
            match handler {
                Some(handler) => self@.invocations(event) == seq![*handler],
                None => self@.invocations(event) == Seq::<H>::empty(),
            },
    {
        match event {
            ControlEvent::Activated => Some(&self.on_click),
            ControlEvent::Rendered => None,
        }
    }
}

} // verus!
