use vstd::prelude::*;
use crate::selector::{moved_next, moved_prev, Selector};
use crate::types::{story_kinds, Item, StoryKind};

verus! {

/// The interaction mode: which view is active and how key input is read.
#[derive(Debug, Clone, Copy, PartialEq, Eq, Structural)]
pub enum Action {
    ViewHelpDialogue,
    NavigateStories,
    ViewStory,
}

/// One key of input, already decoded from the terminal event stream.
#[derive(Debug, Clone, Copy, PartialEq, Eq, Structural)]
pub enum KeyInput {
    Left,
    Right,
    Up,
    Down,
    Enter,
    Backspace,
    Escape,
    Char(char),
    CtrlChar(char),
    Other,
}

/// What the caller must do after a key was handled: nothing, or fetch the
/// active feed anew and hand the resolved items to [`App::replace_stories`].
#[derive(Debug, Clone, Copy, PartialEq, Eq, Structural)]
pub enum Effect {
    Idle,
    RefreshStories,
}

/// The two cursors of the interface: which feed kind is active, and which
/// resolved story is active.
#[derive(Debug)]
pub struct Context {
    pub story_kind_selector: Selector<StoryKind>,
    pub story_selector: Selector<Item>,
}

impl Default for Context {
    /// The feed kinds in their fixed order with the first one active, and no
    /// stories yet.
    fn default() -> (r: Self)
        ensures
            r.story_kind_selector.spec_items() == seq![
                StoryKind::Top,
                StoryKind::Best,
                StoryKind::New,
            ],
            r.story_kind_selector.spec_pos() == 0,
            r.story_selector.spec_items() == Seq::<Item>::empty(),
            r.story_selector.spec_pos() == 0,
    {
        Context {
            story_kind_selector: Selector::new(story_kinds()),
            story_selector: Selector::new(Vec::new()),
        }
    }
}

/// The whole interaction state: both cursors, the active mode, and the mode
/// a reversible switch came from.
#[derive(Debug)]
pub struct App {
    /// Is the interaction loop still running?
    pub running: bool,
    /// Tick counter, advanced by the timer event.
    pub counter: u8,
    pub context: Context,
    pub last_action: Option<Action>,
    pub action: Action,
}

impl Default for App {
    /// Story browsing over the default context, running, with no mode to
    /// return to yet.
    fn default() -> (r: Self)
        ensures
            r.running == true,
            r.counter == 0,
            r.action == Action::NavigateStories,
            r.last_action is None,
            r.context.story_kind_selector.spec_items() == seq![
                StoryKind::Top,
                StoryKind::Best,
                StoryKind::New,
            ],
            r.context.story_kind_selector.spec_pos() == 0,
            r.context.story_selector.spec_items() == Seq::<Item>::empty(),
            r.context.story_selector.spec_pos() == 0,
    {
        App {
            running: true,
            counter: 0,
            context: Context::default(),
            action: Action::NavigateStories,
            last_action: None,
        }
    }
}

// ---------------------------------------------------------------------------
// The transition table, as specification
// ---------------------------------------------------------------------------

/// The keys that stop the interaction loop.
pub open spec fn is_quit_key(key: KeyInput) -> bool {
    ||| key == KeyInput::Escape
    ||| key == KeyInput::Char('q')
    ||| key == KeyInput::CtrlChar('c')
    ||| key == KeyInput::CtrlChar('C')
}

/// The keys that toggle the help view.
pub open spec fn is_help_key(key: KeyInput) -> bool {
    key == KeyInput::Char('h') || key == KeyInput::Char('H')
}

/// The parts of the state a pure mode change keeps.
pub open spec fn same_but_mode(pre: App, post: App) -> bool {
    &&& post.running == pre.running
    &&& post.counter == pre.counter
    &&& post.context == pre.context
}

/// A reversible mode switch: the mode switched away from is remembered.
pub open spec fn switched_to(pre: App, post: App, act: Action) -> bool {
    &&& same_but_mode(pre, post)
    &&& post.action == act
    &&& post.last_action == Some(pre.action)
}

/// The mode a backward switch returns to: the remembered one, or story
/// browsing when nothing was remembered.
pub open spec fn back_mode(pre: App) -> Action {
    match pre.last_action {
        Some(a) => a,
        None => Action::NavigateStories,
    }
}

/// The parts of the state a cursor movement keeps.
pub open spec fn same_but_cursors(pre: App, post: App) -> bool {
    &&& post.running == pre.running
    &&& post.counter == pre.counter
    &&& post.action == pre.action
    &&& post.last_action == pre.last_action
}

/// How a key read while browsing stories changes the state: left and right
/// move the feed-kind cursor and ask for a re-fetch; up and down move the
/// story cursor; confirming a story (when there is one) switches to its
/// detail view.
pub open spec fn navigate_stories_spec(pre: App, key: KeyInput, post: App, eff: Effect) -> bool {
    match key {
        KeyInput::Left => {
            &&& same_but_cursors(pre, post)
            &&& moved_prev(pre.context.story_kind_selector, post.context.story_kind_selector)
            &&& post.context.story_selector == pre.context.story_selector
            &&& eff == Effect::RefreshStories
        },
        KeyInput::Right => {
            &&& same_but_cursors(pre, post)
            &&& moved_next(pre.context.story_kind_selector, post.context.story_kind_selector)
            &&& post.context.story_selector == pre.context.story_selector
            &&& eff == Effect::RefreshStories
        },
        KeyInput::Up => {
            &&& same_but_cursors(pre, post)
            &&& moved_prev(pre.context.story_selector, post.context.story_selector)
            &&& post.context.story_kind_selector == pre.context.story_kind_selector
            &&& eff == Effect::Idle
        },
        KeyInput::Down => {
            &&& same_but_cursors(pre, post)
            &&& moved_next(pre.context.story_selector, post.context.story_selector)
            &&& post.context.story_kind_selector == pre.context.story_kind_selector
            &&& eff == Effect::Idle
        },
        KeyInput::Enter => {
            &&& if pre.context.story_selector.spec_items().len() > 0 {
                switched_to(pre, post, Action::ViewStory)
            } else {
                post == pre
            }
            &&& eff == Effect::Idle
        },
        _ => post == pre && eff == Effect::Idle,
    }
}

/// How a key is routed to the active mode: browsing handles movement and
/// confirmation, the detail view handles stepping back, the help view
/// swallows everything.
pub open spec fn dispatch_spec(pre: App, key: KeyInput, post: App, eff: Effect) -> bool {
    match pre.action {
        Action::NavigateStories => navigate_stories_spec(pre, key, post, eff),
        Action::ViewHelpDialogue => post == pre && eff == Effect::Idle,
        Action::ViewStory => {
            &&& match key {
                KeyInput::Backspace => switched_to(pre, post, back_mode(pre)),
                _ => post == pre,
            }
            &&& eff == Effect::Idle
        },
    }
}

/// The full transition table for one key event: quit keys stop the loop,
/// help keys toggle the help view reversibly, and every other key is routed
/// to the active mode.
pub open spec fn step_spec(pre: App, key: KeyInput, post: App, eff: Effect) -> bool {
    if is_quit_key(key) {
        &&& post.running == false
        &&& post.counter == pre.counter
        &&& post.context == pre.context
        &&& post.action == pre.action
        &&& post.last_action == pre.last_action
        &&& eff == Effect::Idle
    } else if is_help_key(key) {
        &&& if pre.action != Action::ViewHelpDialogue {
            switched_to(pre, post, Action::ViewHelpDialogue)
        } else {
            switched_to(pre, post, back_mode(pre))
        }
        &&& eff == Effect::Idle
    } else {
        dispatch_spec(pre, key, post, eff)
    }
}

// ---------------------------------------------------------------------------
// The executable state machine
// ---------------------------------------------------------------------------

impl App {
    /// Handles the timer tick. Nothing depends on it yet.
    pub fn tick(&self) {
    }

    /// Stops the interaction loop.
    pub fn quit(&mut self)
        ensures
            final(self).running == false,
            final(self).counter == old(self).counter,
            final(self).context == old(self).context,
            final(self).action == old(self).action,
            final(self).last_action == old(self).last_action,
    {
        self.running = false;
    }

    /// Switches mode, remembering the mode switched away from.
    pub fn update_action(&mut self, action: Action)
        ensures
            switched_to(*old(self), *final(self), action),
    {
        self.last_action = Some(self.action);
        self.action = action;
    }

    /// Replaces the resolved stories after a re-fetch; the story cursor
    /// resets to the first story and everything else stays.
    pub fn replace_stories(&mut self, items: Vec<Item>)
        ensures
            final(self).context.story_selector.spec_items() == items@,
            final(self).context.story_selector.spec_pos() == 0,
            final(self).context.story_kind_selector == old(self).context.story_kind_selector,
            same_but_cursors(*old(self), *final(self)),
    {
        self.context.story_selector = Selector::new(items);
    }

    fn navigate_stories(&mut self, key: KeyInput) -> (eff: Effect)
        ensures
            navigate_stories_spec(*old(self), key, *final(self), eff),
    {
        match key {
            KeyInput::Left => {
                self.context.story_kind_selector.previous();
                Effect::RefreshStories
            },
            KeyInput::Right => {
                self.context.story_kind_selector.next();
                Effect::RefreshStories
            },
            KeyInput::Up => {
                self.context.story_selector.previous();
                Effect::Idle
            },
            KeyInput::Down => {
                self.context.story_selector.next();
                Effect::Idle
            },
            KeyInput::Enter => {
                if self.context.story_selector.len() > 0 {
                    self.update_action(Action::ViewStory);
                }
                Effect::Idle
            },
            _ => Effect::Idle,
        }
    }

    fn navigate_story(&mut self, key: KeyInput)
        ensures
            match key {
                KeyInput::Backspace => switched_to(
                    *old(self),
                    *final(self),
                    back_mode(*old(self)),
                ),
                _ => *final(self) == *old(self),
            },
    {
        match key {
            KeyInput::Backspace => {
                let back = match self.last_action {
                    Some(a) => a,
                    None => Action::NavigateStories,
                };
                self.update_action(back);
            },
            _ => {},
        }
    }

    /// Routes one key to the handler of the active mode.
    pub fn dispatch_action(&mut self, key: KeyInput) -> (eff: Effect)
        ensures
            dispatch_spec(*old(self), key, *final(self), eff),
    {
        match self.action {
            Action::NavigateStories => self.navigate_stories(key),
            Action::ViewHelpDialogue => Effect::Idle,
            Action::ViewStory => {
                self.navigate_story(key);
                Effect::Idle
            },
        }
    }
}

/// Handles one key event: quitting and the help toggle work in every mode;
/// everything else goes to the active mode's handler. The returned effect
/// tells the caller whether to fetch the active feed anew.
pub fn handle_key_events(key: KeyInput, app: &mut App) -> (eff: Effect)
    ensures
        step_spec(*old(app), key, *final(app), eff),
{
    match key {
        KeyInput::Escape => {
            app.quit();
        },
        KeyInput::Char(c) => {
            if c == 'q' {
                app.quit();
            } else if c == 'h' || c == 'H' {
                if app.action != Action::ViewHelpDialogue {
                    app.update_action(Action::ViewHelpDialogue);
                } else {
                    let back = match app.last_action {
                        Some(a) => a,
                        None => Action::NavigateStories,
                    };
                    app.update_action(back);
                }
            }
        },
        KeyInput::CtrlChar(c) => {
            if c == 'c' || c == 'C' {
                app.quit();
            }
        },
        _ => {},
    }
    app.dispatch_action(key)
}

// ---------------------------------------------------------------------------
// Laws of the mode machine
// ---------------------------------------------------------------------------

/// Law: the help toggle is reversible — from any mode other than the help
/// view, one toggle enters the help view and a second one returns to the
/// original mode, with both cursors untouched.
pub proof fn lemma_help_toggle_round_trip(
    s0: App,
    s1: App,
    s2: App,
    e1: Effect,
    e2: Effect,
    key: KeyInput,
)
    requires
        is_help_key(key),
        s0.action != Action::ViewHelpDialogue,
        step_spec(s0, key, s1, e1),
        step_spec(s1, key, s2, e2),
    ensures
        s1.action == Action::ViewHelpDialogue,
        s2.action == s0.action,
        s2.context == s0.context,
        s2.running == s0.running,
{
}

/// Law: confirming a story and stepping back round-trips — from story
/// browsing with at least one story, confirm enters the detail view and
/// back returns to browsing, with both cursors untouched.
pub proof fn lemma_confirm_back_round_trip(s0: App, s1: App, s2: App, e1: Effect, e2: Effect)
    requires
        s0.action == Action::NavigateStories,
        s0.context.story_selector.spec_items().len() > 0,
        step_spec(s0, KeyInput::Enter, s1, e1),
        step_spec(s1, KeyInput::Backspace, s2, e2),
    ensures
        s1.action == Action::ViewStory,
        s2.action == Action::NavigateStories,
        s2.context == s0.context,
        s2.running == s0.running,
{
}

} // verus!
