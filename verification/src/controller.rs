//! The controller behind the tray application.
//!
//! One object owns all mutable state: the settings window's visibility,
//! the recurring timer, the "repeat last quote" availability, the last
//! quote shown, and the modelled settings store. The event loop at the
//! process edge translates toolkit callbacks into [`AppEvent`] values,
//! hands them to [`Controller::handle_event`], and carries out the
//! returned [`AppAction`] — the one HTTP fetch per attempt, showing a
//! notification, or ending the dispatch loop. Every transition of the
//! state machine is stated in the contracts here.

use vstd::prelude::*;
use vstd::string::StrSliceExecFns;

use crate::catalog::{catalog_value, duration_model, CATALOG_LEN};
use crate::settings::{
    read_notification_interval, spec_notification_interval, spec_write_interval,
    write_notification_interval, SettingsStore,
};

verus! {

/// Longest quote, in characters, that a desktop notification can show.
pub const MAX_QUOTE_CHARS: usize = 150;

/// How many times an over-length quote is re-fetched before the cycle is
/// given up, so that a run of long quotes cannot hold the fetch loop
/// forever.
pub const MAX_FETCH_ATTEMPTS: u32 = 5;

/// The JSON payload of the joke API: one string field with the quote text.
pub struct ChuckFact {
    pub value: String,
}

/// What the event loop must do after a fetch outcome is handled.
pub enum FetchDecision {
    /// The quote was stored; show it as a notification.
    Accept(String),
    /// The quote was over-length and discarded; fetch again.
    Retry,
    /// Nothing to show this cycle: the fetch failed, or the retry budget
    /// ran out.
    Skip,
}

/// A toolkit callback or fetch outcome, as the event loop reports it.
pub enum AppEvent {
    /// The tray icon was left-clicked.
    TrayLeftClick,
    /// The "Settings..." menu item was selected.
    SettingsSelected,
    /// The OK button of the settings window was clicked.
    OkSelected,
    /// The dropdown selection changed; the toolkit's current selection
    /// index, if any.
    IntervalChanged(Option<usize>),
    /// A new quote was asked for: a timer tick or the "Next quote" menu
    /// item.
    NextQuoteRequested,
    /// One fetch attempt finished; its parsed payload, or nothing on a
    /// network or parse failure.
    FetchResult(Option<ChuckFact>),
    /// The "Repeat last quote" menu item was selected.
    RepeatSelected,
    /// The "Exit" menu item was selected.
    ExitSelected,
}

/// What the event loop must carry out after an event is handled.
pub enum AppAction {
    /// Nothing beyond syncing the window and timer to the new state.
    Nothing,
    /// Perform one blocking HTTP fetch and report it as a fetch result.
    Fetch,
    /// Show this text as a desktop notification.
    ShowNotification(String),
    /// End the event dispatch loop; the process exits.
    StopDispatch,
}

/// The whole mutable state of the application.
pub struct Controller {
    /// Modelled contents of the persistent settings store.
    pub store: SettingsStore,
    /// Current refresh interval in milliseconds, as the timer runs it.
    pub interval_ms: u32,
    /// Whether the settings window is shown.
    pub settings_visible: bool,
    /// Whether the recurring timer runs; it is paused while a fetch
    /// cycle is under way.
    pub timer_running: bool,
    /// Whether "Repeat last quote" is enabled; set once a quote has been
    /// shown and never cleared again.
    pub repeat_enabled: bool,
    /// The last quote shown, absent until the first successful fetch.
    pub last_quote: Option<String>,
    /// Retries left in the current fetch cycle.
    pub attempts_left: u32,
    /// Whether the event dispatch loop still runs.
    pub running: bool,
}

/// The parts of the state the event loop must mirror into the toolkit
/// after each event: window visibility and the timer.
pub open spec fn same_window(pre: Controller, post: Controller) -> bool {
    post.settings_visible == pre.settings_visible
}

/// The timer state, including the retry budget of the current cycle.
pub open spec fn same_timer(pre: Controller, post: Controller) -> bool {
    post.timer_running == pre.timer_running && post.attempts_left == pre.attempts_left
}

/// The persisted configuration and the interval derived from it.
pub open spec fn same_config(pre: Controller, post: Controller) -> bool {
    post.store == pre.store && post.interval_ms == pre.interval_ms
}

/// The quote state: the stored text and the repeat availability.
pub open spec fn same_quote(pre: Controller, post: Controller) -> bool {
    post.repeat_enabled == pre.repeat_enabled && post.last_quote == pre.last_quote
}

/// Whether the dispatch loop keeps running.
pub open spec fn same_run(pre: Controller, post: Controller) -> bool {
    post.running == pre.running
}

/// The transition relation of the state machine: what one handled event
/// does to the state, and which action it hands the event loop.
/// [`Controller::handle_event`] ensures exactly this relation.
pub open spec fn spec_transition(
    pre: Controller,
    post: Controller,
    event: AppEvent,
    action: AppAction,
) -> bool {
    match event {
        AppEvent::TrayLeftClick => {
            &&& action is Nothing
            &&& post.settings_visible == !pre.settings_visible
            &&& same_timer(pre, post)
            &&& same_config(pre, post)
            &&& same_quote(pre, post)
            &&& same_run(pre, post)
        },
        AppEvent::SettingsSelected => {
            &&& action is Nothing
            &&& post.settings_visible
            &&& same_timer(pre, post)
            &&& same_config(pre, post)
            &&& same_quote(pre, post)
            &&& same_run(pre, post)
        },
        AppEvent::OkSelected => {
            &&& action is Nothing
            &&& !post.settings_visible
            &&& same_timer(pre, post)
            &&& same_config(pre, post)
            &&& same_quote(pre, post)
            &&& same_run(pre, post)
        },
        AppEvent::IntervalChanged(sel) => {
            &&& action is Nothing
            &&& same_window(pre, post)
            &&& same_quote(pre, post)
            &&& same_run(pre, post)
            &&& post.attempts_left == pre.attempts_left
            &&& (match sel {
                Some(idx) => if idx < CATALOG_LEN {
                    &&& post.store == spec_write_interval(pre.store, catalog_value(idx as int))
                    &&& post.interval_ms == catalog_value(idx as int)
                    &&& post.timer_running
                } else {
                    &&& same_config(pre, post)
                    &&& post.timer_running == pre.timer_running
                },
                None => {
                    &&& same_config(pre, post)
                    &&& post.timer_running == pre.timer_running
                },
            })
        },
        AppEvent::NextQuoteRequested => {
            &&& action is Fetch
            &&& !post.timer_running
            &&& post.attempts_left == MAX_FETCH_ATTEMPTS
            &&& same_window(pre, post)
            &&& same_config(pre, post)
            &&& same_quote(pre, post)
            &&& same_run(pre, post)
        },
        AppEvent::FetchResult(fetched) => {
            &&& same_window(pre, post)
            &&& same_config(pre, post)
            &&& same_run(pre, post)
            &&& (match fetched {
                None => {
                    &&& action is Nothing
                    &&& same_quote(pre, post)
                    &&& post.timer_running
                },
                Some(f) => if f.value@.len() <= MAX_QUOTE_CHARS {
                    &&& action == AppAction::ShowNotification(f.value)
                    &&& post.last_quote == Some(f.value)
                    &&& post.repeat_enabled
                    &&& post.timer_running
                } else if pre.attempts_left > 0 {
                    &&& action is Fetch
                    &&& same_quote(pre, post)
                    &&& post.timer_running == pre.timer_running
                    &&& post.attempts_left == pre.attempts_left - 1
                } else {
                    &&& action is Nothing
                    &&& same_quote(pre, post)
                    &&& post.timer_running
                },
            })
        },
        AppEvent::RepeatSelected => {
            &&& post.timer_running
            &&& same_window(pre, post)
            &&& same_config(pre, post)
            &&& same_quote(pre, post)
            &&& same_run(pre, post)
            &&& (match pre.last_quote {
                Some(q) => action == AppAction::ShowNotification(q),
                None => action is Nothing,
            })
        },
        AppEvent::ExitSelected => {
            &&& action is StopDispatch
            &&& !post.running
            &&& same_window(pre, post)
            &&& same_timer(pre, post)
            &&& same_config(pre, post)
            &&& same_quote(pre, post)
        },
    }
}

impl Controller {
    /// The state invariant: "Repeat last quote" is enabled exactly when a
    /// quote is stored, every stored quote fits a notification, and the
    /// retry budget never exceeds its cap.
    pub open spec fn wf(self) -> bool {
        &&& self.repeat_enabled <==> self.last_quote is Some
        &&& (self.last_quote matches Some(q) ==> q@.len() <= MAX_QUOTE_CHARS)
        &&& self.attempts_left <= MAX_FETCH_ATTEMPTS
    }

    /// The startup state: settings window hidden, timer running with the
    /// interval read from the store, no quote yet, repeat disabled.
    pub fn new(store: SettingsStore) -> (c: Controller)
        ensures
            c.wf(),
            c.store == store,
            c.interval_ms == spec_notification_interval(store),
            !c.settings_visible,
            c.timer_running,
            !c.repeat_enabled,
            c.last_quote is None,
            c.attempts_left == 0,
            c.running,
    {
        let interval = read_notification_interval(&store);
        Controller {
            store,
            interval_ms: interval,
            settings_visible: false,
            timer_running: true,
            repeat_enabled: false,
            last_quote: None,
            attempts_left: 0,
            running: true,
        }
    }

    /// A left-click on the tray icon: the settings window changes from
    /// hidden to visible or back.
    pub fn toggle_settings_visible(&mut self) -> (visible: bool)
        requires
            old(self).wf(),
        ensures
            final(self).wf(),
            final(self).settings_visible == !old(self).settings_visible,
            visible == final(self).settings_visible,
            same_timer(*old(self), *final(self)),
            same_config(*old(self), *final(self)),
            same_quote(*old(self), *final(self)),
            same_run(*old(self), *final(self)),
    {
        self.settings_visible = !self.settings_visible;
        self.settings_visible
    }

    /// The "Settings..." menu item: the settings window becomes visible.
    pub fn show_settings_window(&mut self)
        requires
            old(self).wf(),
        ensures
            final(self).wf(),
            final(self).settings_visible,
            same_timer(*old(self), *final(self)),
            same_config(*old(self), *final(self)),
            same_quote(*old(self), *final(self)),
            same_run(*old(self), *final(self)),
    {
        self.settings_visible = true;
    }

    /// The OK button: the settings window is hidden again.
    pub fn hide_settings_window(&mut self)
        requires
            old(self).wf(),
        ensures
            final(self).wf(),
            !final(self).settings_visible,
            same_timer(*old(self), *final(self)),
            same_config(*old(self), *final(self)),
            same_quote(*old(self), *final(self)),
            same_run(*old(self), *final(self)),
    {
        self.settings_visible = false;
    }

    /// The "Repeat last quote" menu item: the stored quote, if any, is
    /// handed back to be shown again, and the timer is restarted.
    pub fn repeat_last_quote(&mut self) -> (quote: Option<String>)
        requires
            old(self).wf(),
        ensures
            final(self).wf(),
            quote == old(self).last_quote,
            (quote matches Some(q) ==> q@.len() <= MAX_QUOTE_CHARS),
            final(self).timer_running,
            final(self).attempts_left == old(self).attempts_left,
            same_window(*old(self), *final(self)),
            same_config(*old(self), *final(self)),
            same_quote(*old(self), *final(self)),
            same_run(*old(self), *final(self)),
    {
        let quote = match &self.last_quote {
            Some(q) => Some(q.clone()),
            None => None,
        };
        self.timer_running = true;
        quote
    }

    /// A new quote was asked for: the timer is paused for the length of
    /// the fetch cycle and the retry budget is reset.
    pub fn begin_fetch_cycle(&mut self)
        requires
            old(self).wf(),
        ensures
            final(self).wf(),
            !final(self).timer_running,
            final(self).attempts_left == MAX_FETCH_ATTEMPTS,
            same_window(*old(self), *final(self)),
            same_config(*old(self), *final(self)),
            same_quote(*old(self), *final(self)),
            same_run(*old(self), *final(self)),
    {
        self.timer_running = false;
        self.attempts_left = MAX_FETCH_ATTEMPTS;
    }

    /// Handles the outcome of one fetch attempt.
    ///
    /// A failed fetch ends the cycle with nothing shown. A quote that
    /// fits a notification is stored as the last quote, enables repeat,
    /// and is handed back to be shown. An over-length quote is never
    /// stored: it costs one retry, or ends the cycle when the budget is
    /// spent. Whenever the cycle ends, the timer is restarted.
    pub fn next_quote(&mut self, fetched: Option<ChuckFact>) -> (decision: FetchDecision)
        requires
            old(self).wf(),
        ensures
            final(self).wf(),
            old(self).repeat_enabled ==> final(self).repeat_enabled,
            (decision matches FetchDecision::Accept(q) ==> q@.len() <= MAX_QUOTE_CHARS),
            same_window(*old(self), *final(self)),
            same_config(*old(self), *final(self)),
            same_run(*old(self), *final(self)),
            match fetched {
                None => {
                    &&& decision is Skip
                    &&& same_quote(*old(self), *final(self))
                    &&& final(self).timer_running
                },
                Some(f) => if f.value@.len() <= MAX_QUOTE_CHARS {
                    &&& decision == FetchDecision::Accept(f.value)
                    &&& final(self).last_quote == Some(f.value)
                    &&& final(self).repeat_enabled
                    &&& final(self).timer_running
                } else if old(self).attempts_left > 0 {
                    &&& decision is Retry
                    &&& same_quote(*old(self), *final(self))
                    &&& final(self).timer_running == old(self).timer_running
                    &&& final(self).attempts_left == old(self).attempts_left - 1
                } else {
                    &&& decision is Skip
                    &&& same_quote(*old(self), *final(self))
                    &&& final(self).timer_running
                },
            },
    {
        match fetched {
            None => {
                self.timer_running = true;
                FetchDecision::Skip
            },
            Some(fact) => {
                if fact.value.as_str().unicode_len() > MAX_QUOTE_CHARS {
                    if self.attempts_left > 0 {
                        self.attempts_left = self.attempts_left - 1;
                        FetchDecision::Retry
                    } else {
                        self.timer_running = true;
                        FetchDecision::Skip
                    }
                } else {
                    self.repeat_enabled = true;
                    self.last_quote = Some(fact.value.clone());
                    self.timer_running = true;
                    FetchDecision::Accept(fact.value)
                }
            },
        }
    }

    /// A dropdown selection: a valid index picks its catalog entry, whose
    /// duration is persisted and becomes the period of the restarted
    /// timer; anything else changes nothing.
    pub fn change_timer_duration(&mut self, selected_index: Option<usize>) -> (new_interval:
        Option<u32>)
        requires
            old(self).wf(),
        ensures
            final(self).wf(),
            same_window(*old(self), *final(self)),
            same_quote(*old(self), *final(self)),
            same_run(*old(self), *final(self)),
            final(self).attempts_left == old(self).attempts_left,
            match selected_index {
                Some(idx) => if idx < CATALOG_LEN {
                    &&& new_interval == Some(catalog_value(idx as int))
                    &&& final(self).store == spec_write_interval(
                        old(self).store,
                        catalog_value(idx as int),
                    )
                    &&& final(self).interval_ms == catalog_value(idx as int)
                    &&& final(self).timer_running
                } else {
                    &&& new_interval is None
                    &&& same_config(*old(self), *final(self))
                    &&& final(self).timer_running == old(self).timer_running
                },
                None => {
                    &&& new_interval is None
                    &&& same_config(*old(self), *final(self))
                    &&& final(self).timer_running == old(self).timer_running
                },
            },
    {
        match selected_index {
            Some(idx) => {
                let model = duration_model();
                if idx < model.len() {
                    let value = model[idx].value;
                    write_notification_interval(&mut self.store, value);
                    self.interval_ms = value;
                    self.timer_running = true;
                    Some(value)
                } else {
                    None
                }
            },
            None => None,
        }
    }

    /// The "Exit" menu item: the dispatch loop is told to end.
    pub fn exit(&mut self)
        requires
            old(self).wf(),
        ensures
            final(self).wf(),
            !final(self).running,
            same_window(*old(self), *final(self)),
            same_timer(*old(self), *final(self)),
            same_config(*old(self), *final(self)),
            same_quote(*old(self), *final(self)),
    {
        self.running = false;
    }

    /// The dispatch table: maps each event to its handler and hands back
    /// what the event loop must do. Whatever the event, the invariant is
    /// kept, an enabled "Repeat last quote" stays enabled, and any text
    /// handed back for display fits a notification.
    pub fn handle_event(&mut self, event: AppEvent) -> (action: AppAction)
        requires
            old(self).wf(),
        ensures
            final(self).wf(),
            old(self).repeat_enabled ==> final(self).repeat_enabled,
            (action matches AppAction::ShowNotification(q) ==> q@.len() <= MAX_QUOTE_CHARS),
            spec_transition(*old(self), *final(self), event, action),
    {
        match event {
            AppEvent::TrayLeftClick => {
                let _ = self.toggle_settings_visible();
                AppAction::Nothing
            },
            AppEvent::SettingsSelected => {
                self.show_settings_window();
                AppAction::Nothing
            },
            AppEvent::OkSelected => {
                self.hide_settings_window();
                AppAction::Nothing
            },
            AppEvent::IntervalChanged(sel) => {
                self.change_timer_duration(sel);
                AppAction::Nothing
            },
            AppEvent::NextQuoteRequested => {
                self.begin_fetch_cycle();
                AppAction::Fetch
            },
            AppEvent::FetchResult(fetched) => {
                match self.next_quote(fetched) {
                    FetchDecision::Accept(quote) => AppAction::ShowNotification(quote),
                    FetchDecision::Retry => AppAction::Fetch,
                    FetchDecision::Skip => AppAction::Nothing,
                }
            },
            AppEvent::RepeatSelected => {
                match self.repeat_last_quote() {
                    Some(quote) => AppAction::ShowNotification(quote),
                    None => AppAction::Nothing,
                }
            },
            AppEvent::ExitSelected => {
                self.exit();
                AppAction::StopDispatch
            },
        }
    }
}

/// Law: a fetch that succeeds with a quote that fits a notification
/// enables "Repeat last quote" and stores that quote.
pub proof fn lemma_successful_fetch_enables_repeat(
    pre: Controller,
    post: Controller,
    f: ChuckFact,
    action: AppAction,
)
    requires
        spec_transition(pre, post, AppEvent::FetchResult(Some(f)), action),
        f.value@.len() <= MAX_QUOTE_CHARS,
    ensures
        post.repeat_enabled,
        post.last_quote == Some(f.value),
{
}

/// Law: no transition disables "Repeat last quote": once it is enabled,
/// it is still enabled after any event whatever.
pub proof fn lemma_step_keeps_repeat_enabled(
    pre: Controller,
    post: Controller,
    event: AppEvent,
    action: AppAction,
)
    requires
        spec_transition(pre, post, event, action),
        pre.repeat_enabled,
    ensures
        post.repeat_enabled,
{
}

/// Law: "Repeat last quote" stays enabled for the rest of the session.
/// Along any chain of states joined by transitions — failed fetches,
/// over-length quotes and all — every state after one with the item
/// enabled has it enabled too.
pub proof fn lemma_repeat_enabled_for_session(
    states: Seq<Controller>,
    events: Seq<AppEvent>,
    actions: Seq<AppAction>,
)
    requires
        states.len() == events.len() + 1,
        actions.len() == events.len(),
        forall|i: int|
            0 <= i < events.len() ==> spec_transition(
                states[i],
                states[i + 1],
                events[i],
                actions[i],
            ),
        states[0].repeat_enabled,
    ensures
        forall|k: int| 0 <= k < states.len() ==> #[trigger] states[k].repeat_enabled,
{
    assert forall|k: int| 0 <= k < states.len() implies #[trigger] states[k].repeat_enabled by {
        lemma_repeat_enabled_up_to(states, events, actions, k);
    }
}

/// Induction step for [`lemma_repeat_enabled_for_session`]: the item is
/// enabled at step `k` of the chain.
proof fn lemma_repeat_enabled_up_to(
    states: Seq<Controller>,
    events: Seq<AppEvent>,
    actions: Seq<AppAction>,
    k: int,
)
    requires
        states.len() == events.len() + 1,
        actions.len() == events.len(),
        forall|i: int|
            0 <= i < events.len() ==> spec_transition(
                states[i],
                states[i + 1],
                events[i],
                actions[i],
            ),
        states[0].repeat_enabled,
        0 <= k < states.len(),
    ensures
        states[k].repeat_enabled,
    decreases k,
{
    if k > 0 {
        lemma_repeat_enabled_up_to(states, events, actions, k - 1);
        lemma_step_keeps_repeat_enabled(states[k - 1], states[k], events[k - 1], actions[k - 1]);
    }
}

/// Law: every text a transition hands out for display fits a
/// notification: at most 150 characters, whichever event produced it.
pub proof fn lemma_shown_text_fits(
    pre: Controller,
    post: Controller,
    event: AppEvent,
    action: AppAction,
    q: String,
)
    requires
        pre.wf(),
        spec_transition(pre, post, event, action),
        action == AppAction::ShowNotification(q),
    ensures
        q@.len() <= MAX_QUOTE_CHARS,
{
}

} // verus!
