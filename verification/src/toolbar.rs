//! Browser toolbar with navigation buttons (back, forward, reload, stop,
//! home, bookmarks).
use vstd::prelude::*;

verus! {

/// Toolbar buttons.
#[derive(Debug, Clone, Copy, PartialEq, Eq, Hash, Structural)]
pub enum ToolbarButton {
    Back,
    Forward,
    Reload,
    Stop,
    Home,
    Bookmarks,
}

/// Actions triggered by toolbar buttons.
#[derive(Debug, Clone, Copy, PartialEq, Eq, Structural)]
pub enum ToolbarAction {
    GoBack,
    GoForward,
    Reload,
    Stop,
    GoHome,
    ShowBookmarks,
}

/// The action of a button.
pub open spec fn button_action(b: ToolbarButton) -> ToolbarAction {
    match b {
        ToolbarButton::Back => ToolbarAction::GoBack,
        ToolbarButton::Forward => ToolbarAction::GoForward,
        ToolbarButton::Reload => ToolbarAction::Reload,
        ToolbarButton::Stop => ToolbarAction::Stop,
        ToolbarButton::Home => ToolbarAction::GoHome,
        ToolbarButton::Bookmarks => ToolbarAction::ShowBookmarks,
    }
}

/// Each button has its own action, named after it: back goes back, forward
/// goes forward, reload reloads, stop stops, home goes home and bookmarks
/// shows the bookmarks; no two buttons share an action.
pub proof fn law_each_button_has_its_own_action(b1: ToolbarButton, b2: ToolbarButton)
    ensures
        b1 != b2 ==> button_action(b1) != button_action(b2),
        (button_action(b1) == ToolbarAction::GoBack) == (b1 == ToolbarButton::Back),
        (button_action(b1) == ToolbarAction::GoForward) == (b1 == ToolbarButton::Forward),
        (button_action(b1) == ToolbarAction::Reload) == (b1 == ToolbarButton::Reload),
        (button_action(b1) == ToolbarAction::Stop) == (b1 == ToolbarButton::Stop),
        (button_action(b1) == ToolbarAction::GoHome) == (b1 == ToolbarButton::Home),
        (button_action(b1) == ToolbarAction::ShowBookmarks) == (b1 == ToolbarButton::Bookmarks),
{
}

/// The slot of a button in the toolbar.
pub open spec fn button_slot(b: ToolbarButton) -> int {
    match b {
        ToolbarButton::Back => 0,
        ToolbarButton::Forward => 1,
        ToolbarButton::Reload => 2,
        ToolbarButton::Stop => 3,
        ToolbarButton::Home => 4,
        ToolbarButton::Bookmarks => 5,
    }
}

fn slot_of(b: ToolbarButton) -> (i: usize)
    ensures
        i == button_slot(b),
{
    match b {
        ToolbarButton::Back => 0,
        ToolbarButton::Forward => 1,
        ToolbarButton::Reload => 2,
        ToolbarButton::Stop => 3,
        ToolbarButton::Home => 4,
        ToolbarButton::Bookmarks => 5,
    }
}

/// The state of one button.
#[derive(Debug, Clone, Copy, PartialEq, Eq, Structural)]
pub struct ButtonState {
    pub enabled: bool,
    pub visible: bool,
}

/// Toolbar widget state.
#[derive(Debug)]
pub struct Toolbar {
    buttons: Vec<ButtonState>,
    is_loading: bool,
}

/// The abstract state of the toolbar.
pub struct ToolbarView {
    pub enabled: Map<ToolbarButton, bool>,
    pub visible: Map<ToolbarButton, bool>,
    pub is_loading: bool,
}

impl View for Toolbar {
    type V = ToolbarView;

    closed spec fn view(&self) -> ToolbarView {
        ToolbarView {
            enabled: Map::new(
                |b: ToolbarButton| true,
                |b: ToolbarButton| self.buttons@[button_slot(b)].enabled,
            ),
            visible: Map::new(
                |b: ToolbarButton| true,
                |b: ToolbarButton| self.buttons@[button_slot(b)].visible,
            ),
            is_loading: self.is_loading,
        }
    }
}

/// A map that holds every button.
pub open spec fn all_buttons(m: Map<ToolbarButton, bool>) -> bool {
    forall|b: ToolbarButton| m.contains_key(b)
}

impl Toolbar {
    /// Every button has a slot.
    pub closed spec fn wf(&self) -> bool {
        self.buttons@.len() == 6
    }

    /// A toolbar with every button visible; reload, home and bookmarks
    /// enabled; back, forward and stop disabled; not loading.
    pub fn new() -> (t: Toolbar)
        ensures
            t.wf(),
            all_buttons(t@.enabled),
            all_buttons(t@.visible),
            forall|b: ToolbarButton| #[trigger] t@.visible[b],
            !t@.enabled[ToolbarButton::Back],
            !t@.enabled[ToolbarButton::Forward],
            t@.enabled[ToolbarButton::Reload],
            !t@.enabled[ToolbarButton::Stop],
            t@.enabled[ToolbarButton::Home],
            t@.enabled[ToolbarButton::Bookmarks],
            !t@.is_loading,
    {
        let mut buttons: Vec<ButtonState> = Vec::new();
        buttons.push(ButtonState { enabled: false, visible: true });
        buttons.push(ButtonState { enabled: false, visible: true });
        buttons.push(ButtonState { enabled: true, visible: true });
        buttons.push(ButtonState { enabled: false, visible: true });
        buttons.push(ButtonState { enabled: true, visible: true });
        buttons.push(ButtonState { enabled: true, visible: true });
        Toolbar { buttons, is_loading: false }
    }

    /// The number of buttons in the toolbar.
    pub fn button_count(&self) -> (n: usize)
        requires
            self.wf(),
        ensures
            n == 6,
    {
        self.buttons.len()
    }

    /// Whether a button is enabled.
    pub fn is_button_enabled(&self, button: ToolbarButton) -> (b: bool)
        requires
            self.wf(),
        ensures
            b == self@.enabled[button],
    {
        self.buttons[slot_of(button)].enabled
    }

    /// Enable or disable a button.
    pub fn set_button_enabled(&mut self, button: ToolbarButton, enabled: bool)
        requires
            old(self).wf(),
        ensures
            final(self).wf(),
            final(self)@.enabled == old(self)@.enabled.insert(button, enabled),
            final(self)@.visible == old(self)@.visible,
            final(self)@.is_loading == old(self)@.is_loading,
    {
        let i = slot_of(button);
        let visible = self.buttons[i].visible;
        self.buttons.set(i, ButtonState { enabled, visible });
        proof {
            assert(final(self)@.enabled =~= old(self)@.enabled.insert(button, enabled)) by {
                assert forall|b: ToolbarButton| button_slot(b) == button_slot(button) implies b
                    == button by {}
            }
            assert(final(self)@.visible =~= old(self)@.visible);
        }
    }

    /// Whether a button is visible.
    pub fn is_button_visible(&self, button: ToolbarButton) -> (b: bool)
        requires
            self.wf(),
        ensures
            b == self@.visible[button],
    {
        self.buttons[slot_of(button)].visible
    }

    /// Show or hide a button.
    pub fn set_button_visible(&mut self, button: ToolbarButton, visible: bool)
        requires
            old(self).wf(),
        ensures
            final(self).wf(),
            final(self)@.visible == old(self)@.visible.insert(button, visible),
            final(self)@.enabled == old(self)@.enabled,
            final(self)@.is_loading == old(self)@.is_loading,
    {
        let i = slot_of(button);
        let enabled = self.buttons[i].enabled;
        self.buttons.set(i, ButtonState { enabled, visible });
        proof {
            assert(final(self)@.visible =~= old(self)@.visible.insert(button, visible)) by {
                assert forall|b: ToolbarButton| button_slot(b) == button_slot(button) implies b
                    == button by {}
            }
            assert(final(self)@.enabled =~= old(self)@.enabled);
        }
    }

    /// The action of a click on a button: none when the button is disabled.
    pub fn handle_click(&self, button: ToolbarButton) -> (r: Option<ToolbarAction>)
        requires
            self.wf(),
        ensures
            r == (if self@.enabled[button] {
                Some(button_action(button))
            } else {
                None::<ToolbarAction>
            }),
            r is Some <==> self@.enabled[button],
            (r == Some(ToolbarAction::GoBack)) <==> (self@.enabled[button] && button
                == ToolbarButton::Back),
            (r == Some(ToolbarAction::GoForward)) <==> (self@.enabled[button] && button
                == ToolbarButton::Forward),
            (r == Some(ToolbarAction::Reload)) <==> (self@.enabled[button] && button
                == ToolbarButton::Reload),
            (r == Some(ToolbarAction::Stop)) <==> (self@.enabled[button] && button
                == ToolbarButton::Stop),
            (r == Some(ToolbarAction::GoHome)) <==> (self@.enabled[button] && button
                == ToolbarButton::Home),
            (r == Some(ToolbarAction::ShowBookmarks)) <==> (self@.enabled[button] && button
                == ToolbarButton::Bookmarks),
    {
        if !self.is_button_enabled(button) {
            return None;
        }
        Some(
            match button {
                ToolbarButton::Back => ToolbarAction::GoBack,
                ToolbarButton::Forward => ToolbarAction::GoForward,
                ToolbarButton::Reload => ToolbarAction::Reload,
                ToolbarButton::Stop => ToolbarAction::Stop,
                ToolbarButton::Home => ToolbarAction::GoHome,
                ToolbarButton::Bookmarks => ToolbarAction::ShowBookmarks,
            },
        )
    }

    /// Update back/forward availability and the loading state.
    pub fn update_navigation_state(
        &mut self,
        can_go_back: bool,
        can_go_forward: bool,
        is_loading: bool,
    )
        requires
            old(self).wf(),
        ensures
            final(self).wf(),
            final(self)@.enabled == old(self)@.enabled.insert(ToolbarButton::Back, can_go_back).insert(
                ToolbarButton::Forward,
                can_go_forward,
            ).insert(ToolbarButton::Stop, is_loading),
            final(self)@.visible == old(self)@.visible.insert(ToolbarButton::Reload, !is_loading).insert(
                ToolbarButton::Stop,
                is_loading,
            ),
            final(self)@.is_loading == is_loading,
    {
        self.set_button_enabled(ToolbarButton::Back, can_go_back);
        self.set_button_enabled(ToolbarButton::Forward, can_go_forward);
        self.set_loading(is_loading);
    }

    /// Set the loading state: while loading, stop is enabled and shown and
    /// reload hidden; otherwise the reverse.
    pub fn set_loading(&mut self, loading: bool)
        requires
            old(self).wf(),
        ensures
            final(self).wf(),
            final(self)@.enabled == old(self)@.enabled.insert(ToolbarButton::Stop, loading),
            final(self)@.visible == old(self)@.visible.insert(ToolbarButton::Reload, !loading).insert(
                ToolbarButton::Stop,
                loading,
            ),
            final(self)@.is_loading == loading,
    {
        self.is_loading = loading;
        if loading {
            self.set_button_enabled(ToolbarButton::Stop, true);
            self.set_button_visible(ToolbarButton::Reload, false);
            self.set_button_visible(ToolbarButton::Stop, true);
        } else {
            self.set_button_enabled(ToolbarButton::Stop, false);
            self.set_button_visible(ToolbarButton::Reload, true);
            self.set_button_visible(ToolbarButton::Stop, false);
        }
    }

    /// The tooltip of a button.
    pub fn get_button_tooltip(&self, button: ToolbarButton) -> (s: &'static str)
        ensures
            s@ == match button {
                ToolbarButton::Back => "Go back"@,
                ToolbarButton::Forward => "Go forward"@,
                ToolbarButton::Reload => "Reload page"@,
                ToolbarButton::Stop => "Stop loading"@,
                ToolbarButton::Home => "Go to home page"@,
                ToolbarButton::Bookmarks => "Show bookmarks"@,
            },
    {
        match button {
            ToolbarButton::Back => "Go back",
            ToolbarButton::Forward => "Go forward",
            ToolbarButton::Reload => "Reload page",
            ToolbarButton::Stop => "Stop loading",
            ToolbarButton::Home => "Go to home page",
            ToolbarButton::Bookmarks => "Show bookmarks",
        }
    }

    /// All toolbar buttons, each once.
    pub fn get_all_buttons(&self) -> (v: Vec<ToolbarButton>)
        ensures
            v@ == seq![
                ToolbarButton::Back,
                ToolbarButton::Forward,
                ToolbarButton::Reload,
                ToolbarButton::Stop,
                ToolbarButton::Home,
                ToolbarButton::Bookmarks,
            ],
    {
        let mut v: Vec<ToolbarButton> = Vec::new();
        v.push(ToolbarButton::Back);
        v.push(ToolbarButton::Forward);
        v.push(ToolbarButton::Reload);
        v.push(ToolbarButton::Stop);
        v.push(ToolbarButton::Home);
        v.push(ToolbarButton::Bookmarks);
        v
    }
}

} // verus!

verus! {

impl Default for Toolbar {
    /// The toolbar that `new` gives.
    fn default() -> (t: Self)
        ensures
            t.wf(),
            all_buttons(t@.enabled),
            all_buttons(t@.visible),
            forall|b: ToolbarButton| #[trigger] t@.visible[b],
            !t@.enabled[ToolbarButton::Back],
            !t@.enabled[ToolbarButton::Forward],
            t@.enabled[ToolbarButton::Reload],
            !t@.enabled[ToolbarButton::Stop],
            t@.enabled[ToolbarButton::Home],
            t@.enabled[ToolbarButton::Bookmarks],
            !t@.is_loading,
    {
        Toolbar::new()
    }
}

} // verus!
