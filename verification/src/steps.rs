//! Carrying out what is planned, and going on with replies.

use std::sync::Arc;

use vstd::prelude::*;

use crate::app::{
    complain, first_do, say, visible_ids, with_error, App, AppModel, Background, Shown,
};
use crate::arrivals::{navigation_arrived, update_arrived};
use crate::browsing::{
    ask, cache_browsed, cache_warning_text, cached_note_shown, fetched_note_shown,
    folder_followed, go_on, navigation_started, notes_loading, notes_shown, selected_loading,
    store_reported,
};
use crate::editing::{document_checked, note_created};
use crate::folders::new_folder_shown;
use crate::keyboard::{begun_for, foreground_run, pressed};
use crate::model::{Note, NoteId};
use crate::refreshing::{
    bootstrapped, bootstrapping, fine_snapshot_replacing, live_shown, refresh_arrived,
    refresh_asked, selected_storing, snapshot_replacing, view_restored,
};
use crate::returning::{
    draft_removed, draft_written, recovery_clearing, recovery_persisting, session_persisting,
    session_written,
};
use crate::settings::config_edited;
use crate::text::{cat, cat3, occurs, starts_with, text_occurs, text_starts_with};
use crate::workflow::{message_text, Await, Effect, Message, Progress, Reply, Step};

verus! {

// ---------------------------------------------------------------------------
// Keeping notes in the cache
// ---------------------------------------------------------------------------

/// A note is to be kept in the cache. A warning of an earlier change is forgotten.
#[verifier::opaque]
pub open spec fn note_keeping(v: AppModel, note: Arc<Note>) -> (AppModel, Option<Effect>) {
    let next = AppModel { background: Background { cache_warning: None, ..v.background }, ..v };
    if v.prefs.has_cache {
        ask(next, Await::NoteKept, Effect::StoreNote(note))
    } else {
        go_on(next)
    }
}

/// A note is to be removed from the cache. A warning of an earlier change is forgotten.
#[verifier::opaque]
pub open spec fn note_forgetting(v: AppModel, id: NoteId) -> (AppModel, Option<Effect>) {
    let next = AppModel { background: Background { cache_warning: None, ..v.background }, ..v };
    if v.prefs.has_cache {
        ask(next, Await::NoteForgotten, Effect::RemoveNote(id))
    } else {
        go_on(next)
    }
}

/// The client with the warning of the cache, if it has one.
#[verifier::opaque]
pub open spec fn cache_answered(v: AppModel, done: Result<(), String>) -> AppModel {
    match done {
        Ok(_) => v,
        Err(e) => AppModel {
            background: Background { cache_warning: Some(e), ..v.background },
            ..v
        },
    }
}

/// The client with what was done told, unless the cache had a warning.
#[verifier::opaque]
pub open spec fn concluded(v: AppModel, message: Message) -> AppModel {
    match v.background.cache_warning {
        Some(e) => say(AppModel {
            background: Background { cache_warning: None, ..v.background },
            ..v
        }, cache_warning_text(e@)),
        None => if occurs(v.status.text, "cache warning"@) {
            v
        } else {
            say(v, message_text(message))
        },
    }
}

/// The client with what was done in front of a warning of the cache.
#[verifier::opaque]
pub open spec fn warning_prefixed(v: AppModel, message: Message) -> AppModel {
    if starts_with(v.status.text, "Live · cache warning:"@) {
        say(v, message_text(message) + " · "@ + v.status.text)
    } else {
        v
    }
}

/// The client with the note at a place selected, or the last where there are fewer.
#[verifier::opaque]
pub open spec fn reselected_at(v: AppModel, index: usize) -> AppModel {
    let count = visible_ids(v).len();
    first_do(
        AppModel {
            shown: Shown {
                selected_note_index: if index < count {
                    index
                } else if count > 0 {
                    (count - 1) as usize
                } else {
                    0
                },
                ..v.shown
            },
            ..v
        },
        Step::LoadSelected { persist: false },
    )
}

impl App {
    fn keep_note(&mut self, note: Arc<Note>) -> (r: Option<Effect>)
        ensures
            (final(self)@, r) == note_keeping(old(self)@, note),
            old(self).wf() ==> final(self).wf(),
    {
        proof {
            reveal(note_keeping);
        }
        self.background.cache_warning = None;
        if self.prefs.has_cache {
            return self.ask(Await::NoteKept, Effect::StoreNote(note));
        }
        None
    }

    fn forget_note(&mut self, id: NoteId) -> (r: Option<Effect>)
        ensures
            (final(self)@, r) == note_forgetting(old(self)@, id),
            old(self).wf() ==> final(self).wf(),
    {
        proof {
            reveal(note_forgetting);
        }
        self.background.cache_warning = None;
        if self.prefs.has_cache {
            return self.ask(Await::NoteForgotten, Effect::RemoveNote(id));
        }
        None
    }

    fn end_keeping(&mut self, done: Result<(), String>)
        ensures
            final(self)@ == cache_answered(old(self)@, done),
            old(self).wf() ==> final(self).wf(),
    {
        proof {
            reveal(cache_answered);
        }
        if let Err(e) = done {
            self.background.cache_warning = Some(e);
        }
    }

    fn conclude(&mut self, message: Message)
        ensures
            final(self)@ == concluded(old(self)@, message),
            old(self).wf() ==> final(self).wf(),
    {
        proof {
            reveal(concluded);
        }
        let mut taken: Option<String> = None;
        std::mem::swap(&mut taken, &mut self.background.cache_warning);
        match taken {
            Some(e) => self.say(cat("Live · cache warning: ", e.as_str())),
            None => {
                if !text_occurs(self.status.text.as_str(), "cache warning") {
                    self.say(message.words());
                }
            },
        }
    }

    fn prefix_warning(&mut self, message: Message)
        ensures
            final(self)@ == warning_prefixed(old(self)@, message),
            old(self).wf() ==> final(self).wf(),
    {
        proof {
            reveal(warning_prefixed);
        }
        if text_starts_with(self.status.text.as_str(), "Live · cache warning:") {
            let words = message.words();
            let text = cat3(words.as_str(), " · ", self.status.text.as_str());
            self.say(text);
        }
    }

    fn reselect(&mut self, index: usize)
        ensures
            final(self)@ == reselected_at(old(self)@, index),
            old(self).wf() ==> final(self).wf(),
    {
        proof {
            reveal(reselected_at);
        }
        let count = self.visible_note_count();
        self.shown.selected_note_index = if index < count {
            index
        } else if count > 0 {
            count - 1
        } else {
            0
        };
        self.first_do(Step::LoadSelected { persist: false });
    }
}

// ---------------------------------------------------------------------------
// Steps
// ---------------------------------------------------------------------------

/// The client with a step carried out, as far as it goes without a reply.
#[verifier::opaque]
pub open spec fn step_taken(v: AppModel, step: Step) -> (AppModel, Option<Effect>) {
    match step {
        Step::Bootstrap => bootstrapping(v),
        Step::Refresh => refresh_asked(v),
        Step::LoadSelected { persist } => selected_loading(v, persist),
        Step::LoadNotes { persist, browse } => notes_loading(v, persist, browse),
        Step::FollowFolder => go_on(folder_followed(v)),
        Step::StartNavigation => go_on(navigation_started(v)),
        Step::RestoreView => go_on(view_restored(v)),
        Step::PersistSession => session_persisting(v),
        Step::StoreSelected => selected_storing(v),
        Step::SnapshotUnlessError => fine_snapshot_replacing(v),
        Step::Snapshot => snapshot_replacing(v),
        Step::KeepNote(note) => note_keeping(v, note),
        Step::ForgetNote(id) => note_forgetting(v, id),
        Step::Conclude(message) => go_on(concluded(v, message)),
        Step::Say(message) => go_on(say(v, message_text(message))),
        Step::PrefixWarning(message) => go_on(warning_prefixed(v, message)),
        Step::Reselect(index) => go_on(reselected_at(v, index)),
        Step::ClearRecovery => recovery_clearing(v),
        Step::PersistRecovery => recovery_persisting(v),
        Step::Press(key) => pressed(v, key),
        Step::Quit => go_on(AppModel { shown: Shown { should_quit: true, ..v.shown }, ..v }),
        Step::Begin(intent) => go_on(begun_for(v, intent)),
        Step::RunForeground => go_on(foreground_run(v)),
        Step::Report(problem) => ask(v, Await::ProblemWorded, Effect::Describe(problem)),
        Step::RefuseFeature(feature) => ask(v, Await::FeatureNamed, Effect::NameFeature(feature)),
        Step::NavigationArrived(arrival) => navigation_arrived(v, arrival),
        Step::UpdateArrived(result) => update_arrived(v, result),
        Step::RefreshArrived(result) => go_on(refresh_arrived(v, result)),
    }
}

/// The client with the next step carried out. While a reply is awaited there is none.
#[verifier::opaque]
pub open spec fn advanced(v: AppModel) -> (AppModel, Option<Effect>) {
    if v.background.awaiting is Some || v.steps.len() == 0 {
        go_on(v)
    } else {
        step_taken(AppModel { steps: v.steps.drop_last(), ..v }, v.steps.last())
    }
}

/// Whether a client has nothing to do.
pub open spec fn idle(v: AppModel) -> bool {
    v.background.awaiting is Some || v.steps.len() == 0
}

impl App {
    fn take_step(&mut self, step: Step) -> (r: Option<Effect>)
        requires
            old(self).wf(),
        ensures
            final(self).wf(),
            (final(self)@, r) == step_taken(old(self)@, step),
    {
        proof {
            reveal(step_taken);
        }
        match step {
            Step::Bootstrap => self.begin_bootstrap(),
            Step::Refresh => self.begin_refresh(),
            Step::LoadSelected { persist } => self.load_selected_note(persist),
            Step::LoadNotes { persist, browse } => self.load_notes(persist, browse),
            Step::FollowFolder => {
                self.follow_folder();
                None
            },
            Step::StartNavigation => {
                self.start_pending_navigation();
                None
            },
            Step::RestoreView => {
                self.restore_view();
                None
            },
            Step::PersistSession => self.persist_session_selection(),
            Step::StoreSelected => self.store_selected_note(),
            Step::SnapshotUnlessError => self.persist_fine_snapshot(),
            Step::Snapshot => self.persist_cache_snapshot(),
            Step::KeepNote(note) => self.keep_note(note),
            Step::ForgetNote(id) => self.forget_note(id),
            Step::Conclude(message) => {
                self.conclude(message);
                None
            },
            Step::Say(message) => {
                self.say(message.words());
                None
            },
            Step::PrefixWarning(message) => {
                self.prefix_warning(message);
                None
            },
            Step::Reselect(index) => {
                self.reselect(index);
                None
            },
            Step::ClearRecovery => self.clear_editor_recovery(),
            Step::PersistRecovery => self.persist_editor_recovery_if_dirty(),
            Step::Press(key) => self.handle_key(key),
            Step::Quit => {
                self.shown.should_quit = true;
                None
            },
            Step::Begin(intent) => {
                self.begin_intent(intent);
                None
            },
            Step::RunForeground => {
                self.run_pending_foreground_intent();
                None
            },
            Step::Report(problem) => self.ask(Await::ProblemWorded, Effect::Describe(problem)),
            Step::RefuseFeature(feature) => self.ask(
                Await::FeatureNamed,
                Effect::NameFeature(feature),
            ),
            Step::NavigationArrived(arrival) => self.end_navigation(arrival),
            Step::UpdateArrived(result) => self.end_update(result),
            Step::RefreshArrived(result) => {
                self.end_refresh(result);
                None
            },
        }
    }

    /// Carries out the next step of what is planned.
    pub fn advance(&mut self) -> (r: Progress)
        requires
            old(self).wf(),
        ensures
            final(self).wf(),
            final(self)@ == advanced(old(self)@).0,
            match r {
                Progress::Idle => idle(old(self)@),
                Progress::Continue => !idle(old(self)@) && advanced(old(self)@).1 is None,
                Progress::Ask(effect) => !idle(old(self)@) && advanced(old(self)@).1 == Some(
                    effect,
                ),
            },
    {
        proof {
            reveal(advanced);
        }
        if self.background.awaiting.is_some() {
            return Progress::Idle;
        }
        match self.steps.pop() {
            None => Progress::Idle,
            Some(step) => {
                match self.take_step(step) {
                    Some(effect) => Progress::Ask(effect),
                    None => Progress::Continue,
                }
            },
        }
    }
}

// ---------------------------------------------------------------------------
// Replies
// ---------------------------------------------------------------------------

/// The refusal of a part of rich text with a name.
pub open spec fn refusal_text(name: Seq<char>) -> Seq<char> {
    "ERROR: "@ + name + " is disabled because this backend cannot save it losslessly"@
}

/// The client with a reply to what it was waiting for.
#[verifier::opaque]
pub open spec fn replied(v: AppModel, what: Await, reply: Reply) -> (AppModel, Option<Effect>) {
    match (what, reply) {
        (Await::SessionWritten, Reply::Done(done)) => go_on(session_written(v, done)),
        (Await::DraftWritten, Reply::Done(done)) => go_on(draft_written(v, done)),
        (Await::DraftRemoved, Reply::Done(done)) => go_on(draft_removed(v, done)),
        (Await::ConfigEdited, Reply::Done(done)) => go_on(config_edited(v, done)),
        (Await::CachedNote { id }, Reply::Cached(found)) => go_on(
            cached_note_shown(v, id, found),
        ),
        (Await::FetchedNote { persist }, Reply::Note(found)) => fetched_note_shown(
            v,
            persist,
            found,
        ),
        (Await::NoteStored, Reply::Done(done)) => go_on(store_reported(v, done)),
        (Await::NoteKept, Reply::Done(done)) => go_on(cache_answered(v, done)),
        (Await::NoteForgotten, Reply::Done(done)) => go_on(cache_answered(v, done)),
        (Await::SnapshotReplaced, Reply::Done(done)) => go_on(store_reported(v, done)),
        (Await::BrowsedCache, Reply::Bootstrap(listed)) => go_on(cache_browsed(v, listed)),
        (Await::NotesLoaded { persist }, Reply::Notes(found)) => go_on(
            notes_shown(v, persist, found),
        ),
        (Await::Bootstrapped, Reply::Bootstrap(listed)) => go_on(bootstrapped(v, listed)),
        (Await::FoldersFetched { folder }, Reply::Folders(found)) => go_on(
            new_folder_shown(v, folder, found),
        ),
        (Await::LiveRead, Reply::Live(result)) => go_on(live_shown(v, result)),
        (Await::ProblemWorded, Reply::Text(text)) => go_on(with_error(v, text)),
        (Await::FeatureNamed, Reply::Text(name)) => go_on(complain(v, refusal_text(name@))),
        (Await::DocumentChecked { mode }, Reply::Features(features)) => document_checked(
            v,
            mode,
            features,
        ),
        (Await::NoteCreated, Reply::Note(result)) => go_on(note_created(v, result)),
        _ => go_on(v),
    }
}

/// The client with a reply.
#[verifier::opaque]
pub open spec fn resumed(v: AppModel, reply: Reply) -> (AppModel, Option<Effect>) {
    match v.background.awaiting {
        Some(what) => replied(AppModel {
            background: Background { awaiting: None, ..v.background },
            ..v
        }, what, reply),
        None => go_on(v),
    }
}

impl App {
    fn go_on_with(&mut self, what: Await, reply: Reply) -> (r: Option<Effect>)
        ensures
            old(self).wf() ==> final(self).wf(),
            (final(self)@, r) == replied(old(self)@, what, reply),
    {
        proof {
            reveal(replied);
        }
        match (what, reply) {
            (Await::SessionWritten, Reply::Done(done)) => self.end_session_write(done),
            (Await::DraftWritten, Reply::Done(done)) => self.end_draft_write(done),
            (Await::DraftRemoved, Reply::Done(done)) => self.end_draft_removal(done),
            (Await::ConfigEdited, Reply::Done(done)) => self.end_config_edit(done),
            (Await::CachedNote { id }, Reply::Cached(found)) => self.show_cached_note(id, found),
            (Await::FetchedNote { persist }, Reply::Note(found)) => return self.show_fetched_note(
                persist,
                found,
            ),
            (Await::NoteStored, Reply::Done(done)) => self.report_store(done),
            (Await::NoteKept, Reply::Done(done)) => self.end_keeping(done),
            (Await::NoteForgotten, Reply::Done(done)) => self.end_keeping(done),
            (Await::SnapshotReplaced, Reply::Done(done)) => self.report_store(done),
            (Await::BrowsedCache, Reply::Bootstrap(listed)) => self.browse_cache(listed),
            (Await::NotesLoaded { persist }, Reply::Notes(found)) => self.show_notes(
                persist,
                found,
            ),
            (Await::Bootstrapped, Reply::Bootstrap(listed)) => self.end_bootstrap(listed),
            (Await::FoldersFetched { folder }, Reply::Folders(found)) => self.show_new_folder(
                folder,
                found,
            ),
            (Await::LiveRead, Reply::Live(result)) => self.show_live(result),
            (Await::ProblemWorded, Reply::Text(text)) => self.set_error(text),
            (Await::FeatureNamed, Reply::Text(name)) => self.complain(
                cat3(
                    "ERROR: ",
                    name.as_str(),
                    " is disabled because this backend cannot save it losslessly",
                ),
            ),
            (Await::DocumentChecked { mode }, Reply::Features(features)) =>
                return self.end_document_check(mode, features),
            (Await::NoteCreated, Reply::Note(result)) => self.end_create(result),
            _ => {},
        }
        None
    }

    /// Goes on with the reply to what was asked last.
    pub fn resume(&mut self, reply: Reply) -> (r: Option<Effect>)
        ensures
            old(self).wf() ==> final(self).wf(),
            (final(self)@, r) == resumed(old(self)@, reply),
    {
        proof {
            reveal(resumed);
        }
        let mut taken: Option<Await> = None;
        std::mem::swap(&mut taken, &mut self.background.awaiting);
        match taken {
            Some(what) => self.go_on_with(what, reply),
            None => None,
        }
    }
}

} // verus!
