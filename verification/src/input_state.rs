//! The state of the player's input, as the game understands it.

use vstd::prelude::*;
use crate::geometry::Vector2;

verus! {

/// Number of buttons that have a state.
pub const BUTTON_COUNT: usize = 4;

/// A button of the game.  `Max` is no button: it marks the end of the list.
#[derive(Debug, PartialEq, Eq, Copy, Clone, Structural)]
pub enum GameButton {
    MoveCameraRight,
    MoveCameraLeft,
    MoveCameraUp,
    MoveCameraDown,
    Max,
}

impl GameButton {
    /// The position of the button in the list, `BUTTON_COUNT` for `Max`.
    pub open spec fn spec_index(self) -> int {
        match self {
            GameButton::MoveCameraRight => 0,
            GameButton::MoveCameraLeft => 1,
            GameButton::MoveCameraUp => 2,
            GameButton::MoveCameraDown => 3,
            GameButton::Max => 4,
        }
    }

    /// The position of the button in the list, `BUTTON_COUNT` for `Max`.
    pub fn index(self) -> (index: usize)
        ensures
            index == self.spec_index(),
    {
        match self {
            GameButton::MoveCameraRight => 0,
            GameButton::MoveCameraLeft => 1,
            GameButton::MoveCameraUp => 2,
            GameButton::MoveCameraDown => 3,
            GameButton::Max => 4,
        }
    }
}

/// Something that happened in the window, in the game's terms.
#[derive(Debug, Copy, Clone)]
pub enum FrontendEvent {
    Press(GameButton),
    Release(GameButton),
    MouseMove(Vector2),
    Focus,
    Unfocus,
}

impl FrontendEvent {
    /// The event names a button that has a state, or no button at all.
    pub open spec fn valid(self) -> bool {
        match self {
            FrontendEvent::Press(button) => button != GameButton::Max,
            FrontendEvent::Release(button) => button != GameButton::Max,
            _ => true,
        }
    }
}

/// What an input state holds, as mathematics.
pub struct InputView {
    /// For each button, by its position, whether it is held down.
    pub keys: Seq<bool>,
    /// Where the mouse was seen last, if it was seen.
    pub mouse: Option<Vector2>,
    /// Whether the window has the focus.
    pub focused: bool,
}

impl InputView {
    /// The state before anything happened: no button down, no mouse seen,
    /// the window focused.
    pub open spec fn initial() -> InputView {
        InputView { keys: Seq::new(BUTTON_COUNT as nat, |k: int| false), mouse: None, focused: true }
    }

    /// The state after the button was set.
    pub open spec fn set_key(self, button: GameButton, down: bool) -> InputView {
        InputView { keys: self.keys.update(button.spec_index(), down), ..self }
    }

    /// The state after the event.
    pub open spec fn apply(self, event: FrontendEvent) -> InputView {
        match event {
            FrontendEvent::Press(button) => self.set_key(button, true),
            FrontendEvent::Release(button) => self.set_key(button, false),
            FrontendEvent::MouseMove(position) => InputView { mouse: Some(position), ..self },
            FrontendEvent::Focus => InputView { focused: true, ..self },
            FrontendEvent::Unfocus => InputView { focused: false, ..self },
        }
    }

    /// The state after the events, first to last.
    pub open spec fn apply_all(self, events: Seq<FrontendEvent>) -> InputView
        decreases events.len(),
    {
        if events.len() == 0 {
            self
        } else {
            self.apply_all(events.drop_last()).apply(events.last())
        }
    }

    /// The mouse position that the game may use: none while the window is
    /// out of focus.
    pub open spec fn mouse_position(self) -> Option<Vector2> {
        if self.focused {
            self.mouse
        } else {
            None
        }
    }
}

/// The current state of the player's input.
pub struct InputState {
    keys: Vec<bool>,
    mouse_position: Option<Vector2>,
    focused: bool,
}

impl View for InputState {
    type V = InputView;

    closed spec fn view(&self) -> InputView {
        InputView { keys: self.keys@, mouse: self.mouse_position, focused: self.focused }
    }
}

impl InputState {
    /// Every button has a state.
    pub open spec fn wf(&self) -> bool {
        self@.keys.len() == BUTTON_COUNT
    }

    /// The state before anything happened.
    pub fn new() -> (state: Self)
        ensures
            state.wf(),
            state@ == InputView::initial(),
    {
        let state = InputState {
            keys: vec![false, false, false, false],
            mouse_position: None,
            focused: true,
        };
        assert(state@.keys =~= InputView::initial().keys);
        state
    }

    /// Whether the button is held down.
    pub fn key(&self, key: GameButton) -> (down: bool)
        requires
            self.wf(),
            key != GameButton::Max,
        ensures
            down == self@.keys[key.spec_index()],
    {
        self.keys[key.index()]
    }

    /// Sets whether the button is held down.
    pub fn set_key(&mut self, key: GameButton, state: bool)
        requires
            old(self).wf(),
            key != GameButton::Max,
        ensures
            final(self).wf(),
            final(self)@ == old(self)@.set_key(key, state),
    {
        self.keys.set(key.index(), state);
    }

    /// Where the mouse is, as far as the game may know: where it was seen
    /// last, and nothing while the window is out of focus.
    pub fn mouse_position(&self) -> (position: Option<Vector2>)
        ensures
            position == self@.mouse_position(),
    {
        if self.focused {
            self.mouse_position
        } else {
            None
        }
    }

    /// Records where the mouse is.
    pub fn set_mouse_position(&mut self, value: Vector2)
        ensures
            final(self)@ == (InputView { mouse: Some(value), ..old(self)@ }),
    {
        self.mouse_position = Some(value);
    }

    /// Records whether the window has the focus.
    pub fn set_focused(&mut self, value: bool)
        ensures
            final(self)@ == (InputView { focused: value, ..old(self)@ }),
    {
        self.focused = value;
    }

    /// Takes in what happened since the last update, first to last.
    pub fn update(&mut self, events: &[FrontendEvent])
        requires
            old(self).wf(),
            forall|k: int| 0 <= k < events@.len() ==> (#[trigger] events@[k]).valid(),
        ensures
            final(self).wf(),
            final(self)@ == old(self)@.apply_all(events@),
    {
        let mut k: usize = 0;
        while k < events.len()
            invariant
                self.wf(),
                k <= events@.len(),
                forall|j: int| 0 <= j < events@.len() ==> (#[trigger] events@[j]).valid(),
                self@ == old(self)@.apply_all(events@.take(k as int)),
            decreases events@.len() - k,
        {
            proof {
                let longer = events@.take(k + 1);
                assert(longer.drop_last() =~= events@.take(k as int));
                assert(longer.last() == events@[k as int]);
            }
            match events[k] {
                FrontendEvent::Press(button) => self.set_key(button, true),
                FrontendEvent::Release(button) => self.set_key(button, false),
                FrontendEvent::MouseMove(position) => self.mouse_position = Some(position),
                FrontendEvent::Focus => self.focused = true,
                FrontendEvent::Unfocus => self.focused = false,
            }
            k += 1;
        }
        assert(events@.take(k as int) =~= events@);
    }
}

} // verus!
