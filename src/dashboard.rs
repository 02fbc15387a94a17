use crate::peer::{
    display_of, read_view, resolve_base_node, resolved_peer, status_of, BaseNodePeer,
    ResolvedBaseNode, StoreError,
};
use crate::tabs::{next_index, previous_index, Tabs};
use vstd::prelude::*;

verus! {

/// Key that, typed as a plain key, makes the next tab active.
pub const TAB_ADVANCE_KEY: char = '\t';

/// Whether `c`, delivered with the control modifier, asks the session to quit.
pub open spec fn is_quit_key(c: char) -> bool {
    c == 'q' || c == 'c'
}

/// Work that the embedding loop carries out for the controller, in order.
#[derive(PartialEq, Eq, Structural, Clone, Copy, Debug)]
pub enum Effect {
    /// Refresh the cached application state from the backend, to completion.
    RefreshState,
    /// Hand a key to the tab at this index.
    Key { tab: usize, key: char },
    /// Hand "up" to the tab at this index.
    Up { tab: usize },
    /// Hand "down" to the tab at this index.
    Down { tab: usize },
    /// Hand "escape" to the tab at this index.
    Esc { tab: usize },
    /// Hand "backspace" to the tab at this index.
    Backspace { tab: usize },
    /// Hand the timer tick to the tab at this index.
    Tick { tab: usize },
}

/// An input or timer event delivered by the embedding loop.
#[derive(PartialEq, Eq, Structural, Clone, Copy, Debug)]
pub enum InputEvent {
    /// A character typed with the control modifier.
    Control(char),
    /// A plain character.
    Key(char),
    Up,
    Down,
    Left,
    Right,
    Esc,
    Backspace,
    /// The periodic timer.
    Tick,
}

/// What dispatch reads and changes of a session.
pub struct Session {
    pub should_quit: bool,
    pub active: int,
    pub count: int,
}

/// One dispatch step: the session after `ev` and the effects it asks for.
/// Once the quit flag is set, nothing changes and nothing is asked for.
pub open spec fn step(s: Session, ev: InputEvent) -> (Session, Seq<Effect>) {
    if s.should_quit {
        (s, seq![])
    } else {
        let tab = s.active as usize;
        match ev {
            InputEvent::Control(c) => (Session { should_quit: is_quit_key(c), ..s }, seq![]),
            InputEvent::Key(c) => if c == TAB_ADVANCE_KEY {
                (Session { active: next_index(s.active, s.count), ..s }, seq![])
            } else {
                (s, seq![Effect::Key { tab, key: c }])
            },
            InputEvent::Up => (s, seq![Effect::Up { tab }]),
            InputEvent::Down => (s, seq![Effect::Down { tab }]),
            InputEvent::Right => (Session { active: next_index(s.active, s.count), ..s }, seq![]),
            InputEvent::Left => (Session { active: previous_index(s.active, s.count), ..s }, seq![]),
            InputEvent::Esc => (s, seq![Effect::Esc { tab }]),
            InputEvent::Backspace => (s, seq![Effect::Backspace { tab }]),
            InputEvent::Tick => (s, seq![Effect::RefreshState, Effect::Tick { tab }]),
        }
    }
}

/// The session after each of `evs` has been dispatched in turn.
pub open spec fn run(s: Session, evs: Seq<InputEvent>) -> Session
    decreases evs.len(),
{
    if evs.len() == 0 {
        s
    } else {
        run(step(s, evs[0]).0, evs.drop_first())
    }
}

/// All effects asked for while `evs` are dispatched in turn, in order.
pub open spec fn run_effects(s: Session, evs: Seq<InputEvent>) -> Seq<Effect>
    decreases evs.len(),
{
    if evs.len() == 0 {
        seq![]
    } else {
        step(s, evs[0]).1 + run_effects(step(s, evs[0]).0, evs.drop_first())
    }
}

/// Once the quit flag is set, no sequence of further events changes the
/// session or asks for any effect; and a quit key sets the flag from any
/// state.
pub proof fn lemma_quit_is_final(s: Session, c: char, evs: Seq<InputEvent>)
    ensures
        is_quit_key(c) ==> step(s, InputEvent::Control(c)).0.should_quit,
        s.should_quit ==> run(s, evs) == s && run_effects(s, evs) == Seq::<Effect>::empty(),
    decreases evs.len(),
{
    if evs.len() > 0 {
        lemma_quit_is_final(s, c, evs.drop_first());
    }
}

/// A tick, until the session quits, asks first for the state refresh and only
/// then hands the tick to the active tab, and asks for nothing else.
pub proof fn lemma_tick_refreshes_first(s: Session)
    requires
        !s.should_quit,
    ensures
        step(s, InputEvent::Tick).1 == seq![Effect::RefreshState, Effect::Tick { tab: s.active as usize }],
        step(s, InputEvent::Tick).0 == s,
{
}

/// The dashboard session: its title, quit flag, tabs, and the base node peer
/// it was started with.
pub struct App {
    pub title: String,
    pub should_quit: bool,
    pub tabs: Tabs,
    pub base_node: ResolvedBaseNode,
}

impl App {
    pub open spec fn wf(&self) -> bool {
        self.tabs.wf() && self.base_node.peer.wf()
    }

    pub open spec fn session(&self) -> Session {
        Session { should_quit: self.should_quit, active: self.tabs.active(), count: self.tabs.count() }
    }

    /// Everything but the quit flag and the active tab is as in `other`.
    pub open spec fn same_content(&self, other: &App) -> bool {
        self.title == other.title && self.base_node == other.base_node
            && self.tabs.titles_spec() == other.tabs.titles_spec() && self.tabs.count() == other.tabs.count()
    }

    /// Starts a session: chooses the base node peer from the two reads of the
    /// persisted override and the configured peer, and opens the transactions,
    /// send/receive and network tabs, the first one active.
    pub fn new(
        title: String,
        pk_read: Result<Option<String>, StoreError>,
        addr_read: Result<Option<String>, StoreError>,
        base_node_config: BaseNodePeer,
    ) -> (r: App)
        requires
            base_node_config.wf(),
        ensures
            r.wf(),
            r.title == title,
            !r.should_quit,
            r.tabs.count() == 3,
            r.tabs.active() == 0,
            r.tabs.titles_spec()[0]@ == "Transactions"@,
            r.tabs.titles_spec()[1]@ == "Send/Receive"@,
            r.tabs.titles_spec()[2]@ == "Network"@,
            r.base_node.status == status_of(read_view(pk_read), read_view(addr_read)),
            r.base_node.peer@ == resolved_peer(
                read_view(pk_read),
                read_view(addr_read),
                base_node_config@,
            ),
            (r.base_node.public_key_hex@, r.base_node.address@) == display_of(r.base_node.peer@),
    {
        let base_node = resolve_base_node(pk_read, addr_read, base_node_config);
        let titles = vec!["Transactions".to_owned(), "Send/Receive".to_owned(), "Network".to_owned()];
        let tabs = Tabs::new(titles);
        App { title, should_quit: false, tabs, base_node }
    }

    /// A control character: `q` or `c` sets the quit flag, any other is ignored.
    pub fn on_control_key(&mut self, c: char)
        requires
            old(self).wf(),
        ensures
            final(self).wf(),
            final(self).same_content(old(self)),
            final(self).tabs == old(self).tabs,
            final(self).should_quit == (old(self).should_quit || is_quit_key(c)),
    {
        if c == 'q' || c == 'c' {
            self.should_quit = true;
        }
    }

    /// A plain key: the tab-advance key makes the next tab active; any other
    /// key goes to the active tab.
    pub fn on_key(&mut self, c: char) -> (r: Option<Effect>)
        requires
            old(self).wf(),
        ensures
            final(self).wf(),
            final(self).same_content(old(self)),
            final(self).should_quit == old(self).should_quit,
            c == TAB_ADVANCE_KEY ==> r is None && final(self).tabs.active() == next_index(
                old(self).tabs.active(),
                old(self).tabs.count(),
            ),
            c != TAB_ADVANCE_KEY ==> r == Some(Effect::Key { tab: old(self).tabs.active() as usize, key: c })
                && final(self).tabs == old(self).tabs,
    {
        if c == TAB_ADVANCE_KEY {
            self.tabs.next();
            None
        } else {
            Some(Effect::Key { tab: self.tabs.selected(), key: c })
        }
    }

    /// "Up" goes to the active tab.
    pub fn on_up(&self) -> (r: Effect)
        ensures
            r == (Effect::Up { tab: self.tabs.active() as usize }),
    {
        Effect::Up { tab: self.tabs.selected() }
    }

    /// "Down" goes to the active tab.
    pub fn on_down(&self) -> (r: Effect)
        ensures
            r == (Effect::Down { tab: self.tabs.active() as usize }),
    {
        Effect::Down { tab: self.tabs.selected() }
    }

    /// "Right" makes the next tab active, wrapping from the last to the first.
    pub fn on_right(&mut self)
        requires
            old(self).wf(),
        ensures
            final(self).wf(),
            final(self).same_content(old(self)),
            final(self).should_quit == old(self).should_quit,
            final(self).tabs.active() == next_index(old(self).tabs.active(), old(self).tabs.count()),
    {
        self.tabs.next();
    }

    /// "Left" makes the previous tab active, wrapping from the first to the last.
    pub fn on_left(&mut self)
        requires
            old(self).wf(),
        ensures
            final(self).wf(),
            final(self).same_content(old(self)),
            final(self).should_quit == old(self).should_quit,
            final(self).tabs.active() == previous_index(old(self).tabs.active(), old(self).tabs.count()),
    {
        self.tabs.previous();
    }

    /// "Escape" goes to the active tab.
    pub fn on_esc(&self) -> (r: Effect)
        ensures
            r == (Effect::Esc { tab: self.tabs.active() as usize }),
    {
        Effect::Esc { tab: self.tabs.selected() }
    }

    /// "Backspace" goes to the active tab.
    pub fn on_backspace(&self) -> (r: Effect)
        ensures
            r == (Effect::Backspace { tab: self.tabs.active() as usize }),
    {
        Effect::Backspace { tab: self.tabs.selected() }
    }

    /// The timer tick: first the cached state is refreshed to completion, then
    /// the tick goes to the active tab.
    pub fn on_tick(&self) -> (r: Vec<Effect>)
        ensures
            r@ == seq![Effect::RefreshState, Effect::Tick { tab: self.tabs.active() as usize }],
    {
        vec![Effect::RefreshState, Effect::Tick { tab: self.tabs.selected() }]
    }

    /// Dispatches one event and returns the effects to carry out, in order.
    /// Once the quit flag is set, events change nothing and ask for nothing.
    pub fn handle(&mut self, ev: InputEvent) -> (r: Vec<Effect>)
        requires
            old(self).wf(),
        ensures
            final(self).wf(),
            final(self).same_content(old(self)),
            final(self).session() == step(old(self).session(), ev).0,
            r@ == step(old(self).session(), ev).1,
    {
        if self.should_quit {
            return Vec::new();
        }
        match ev {
            InputEvent::Control(c) => {
                self.on_control_key(c);
                Vec::new()
            },
            InputEvent::Key(c) => match self.on_key(c) {
                Some(e) => vec![e],
                None => Vec::new(),
            },
            InputEvent::Up => vec![self.on_up()],
            InputEvent::Down => vec![self.on_down()],
            InputEvent::Left => {
                self.on_left();
                Vec::new()
            },
            InputEvent::Right => {
                self.on_right();
                Vec::new()
            },
            InputEvent::Esc => vec![self.on_esc()],
            InputEvent::Backspace => vec![self.on_backspace()],
            InputEvent::Tick => self.on_tick(),
        }
    }
}

} // verus!
