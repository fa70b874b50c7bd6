//! The mutable session state and its operations: profile selection,
//! view switching, cursor navigation, and the non-blocking fetch
//! engine around a single-slot result channel.
//!
//! The background unit of work that performs the HTTP round trips
//! lives outside the library; it owns its inputs by value and sends
//! exactly one [`FetchResult`] back through the channel held here. The
//! main loop never blocks: [`App::start_fetch`] only flips the
//! in-flight flag and tells the caller whether to launch a unit, and
//! [`App::poll_fetch_result`] is a try-receive.

use vstd::prelude::*;

use crate::config::{config_wf, find_by_name, spec_find_profile, Config, Profile};
use crate::fetch::FetchResult;
use crate::models::{metadata_empty, status_empty, Metadata, Status};
use vstd::string::StringExecFns;

verus! {

/// Which screen the operator is on: the main table, or the profile
/// switcher overlay.
#[derive(Debug, PartialEq, Eq, Structural)]
pub enum CurrentView {
    Main,
    ProfileSwitcher,
}

/// Declares the receiving half of std's bounded channel.
#[verifier::external_type_specification]
#[verifier::external_body]
#[verifier::reject_recursive_types(T)]
pub struct ExReceiver<T>(std::sync::mpsc::Receiver<T>);

/// Declares the sending half of std's bounded channel.
#[verifier::external_type_specification]
#[verifier::external_body]
#[verifier::reject_recursive_types(T)]
pub struct ExSyncSender<T>(std::sync::mpsc::SyncSender<T>);

/// What one non-blocking look at the result channel found.
pub enum PollEvent {
    /// No result is waiting.
    Empty,
    /// Every sender is gone; no result can ever arrive.
    Disconnected,
    /// A background unit delivered its result.
    Delivered(FetchResult),
}

/// Relies on std::sync::mpsc::sync_channel: a fresh channel whose
/// buffer holds one message.
#[verifier::external_body]
fn new_fetch_channel() -> (r: (
    std::sync::mpsc::SyncSender<FetchResult>,
    std::sync::mpsc::Receiver<FetchResult>,
))
{
    std::sync::mpsc::sync_channel(1)
}

/// Relies on std::sync::mpsc::Receiver::try_recv: non-blocking; which
/// of the three outcomes comes back depends on the channel's state at
/// the moment of the call, so nothing more is promised of it.
#[verifier::external_body]
fn poll_channel(rx: &std::sync::mpsc::Receiver<FetchResult>) -> (r: PollEvent)
{
    match rx.try_recv() {
        Ok(res) => PollEvent::Delivered(res),
        Err(std::sync::mpsc::TryRecvError::Empty) => PollEvent::Empty,
        Err(std::sync::mpsc::TryRecvError::Disconnected) => PollEvent::Disconnected,
    }
}

/// Why the session could not be constructed.
#[derive(Debug)]
pub enum ConfigError {
    /// No profile carries the configured default name.
    DefaultProfileNotFound,
}

impl ConfigError {
    pub fn message(&self) -> (r: String)
        ensures
            r@ == "default profile not found in configuration"@,
    {
        "default profile not found in configuration".to_owned()
    }
}

/// Why a profile switch by name was refused.
#[derive(Debug)]
pub enum ProfileError {
    /// No profile carries the requested name; carries that name.
    ProfileNotFound(String),
}

impl ProfileError {
    pub fn message(&self) -> (r: String)
        ensures
            self matches ProfileError::ProfileNotFound(n) ==> r@ == "profile '"@ + n@
                + "' not found"@,
    {
        match self {
            ProfileError::ProfileNotFound(n) => {
                let mut s = "profile '".to_owned();
                s.append(n.as_str());
                s.append("' not found");
                s
            },
        }
    }
}

/// The mutable session: the latest snapshots, the configuration, the
/// selections and cursors, and the fetch engine's flag, stamp and
/// channel. Timestamps are milliseconds of wall-clock time, supplied
/// by the caller on each tick.
#[derive(Debug)]
pub struct App {
    pub status: Status,
    pub metadata: Metadata,
    pub config: Config,
    pub current_profile: usize,
    pub should_quit: bool,
    pub version: String,
    pub error_message: String,
    /// Selection cursor over the status rows.
    pub collection_cursor: usize,
    pub current_view: CurrentView,
    /// Selection cursor over the profile list.
    pub profile_cursor: usize,
    pub last_fetch: i64,
    pub is_fetching: bool,
    /// The sending half handed to each background unit; the library
    /// itself never sends.
    pub fetch_tx: std::sync::mpsc::SyncSender<FetchResult>,
    /// The receiving half; only [`App::poll_fetch_result`] reads it.
    pub fetch_rx: std::sync::mpsc::Receiver<FetchResult>,
}

/// Switching to the profile at `idx` clears both snapshots and the
/// error line — stale data of the old profile must never show as
/// current — and moves both the selection and the cursor; everything
/// else stays.
pub open spec fn profile_switched(pre: App, post: App, idx: int) -> bool {
    &&& post.current_profile == idx
    &&& post.profile_cursor == idx
    &&& status_empty(post.status)
    &&& metadata_empty(post.metadata)
    &&& post.error_message@.len() == 0
    &&& post.config == pre.config
    &&& post.should_quit == pre.should_quit
    &&& post.version == pre.version
    &&& post.collection_cursor == pre.collection_cursor
    &&& post.current_view == pre.current_view
    &&& post.is_fetching == pre.is_fetching
    &&& post.last_fetch == pre.last_fetch
    &&& post.fetch_tx == pre.fetch_tx
    &&& post.fetch_rx == pre.fetch_rx
}

/// Applying a delivered result: both snapshots replaced wholesale and
/// the error line cleared on success; on failure only the error line
/// changes and the stale snapshots are kept. Either way the in-flight
/// flag drops and the stamp is set.
pub open spec fn applied_result(pre: App, post: App, r: FetchResult, now_ms: i64) -> bool {
    &&& !post.is_fetching
    &&& post.last_fetch == now_ms
    &&& (match r.error {
        Some(msg) => post.error_message@ == msg@ && post.status == pre.status && post.metadata
            == pre.metadata,
        None => post.error_message@.len() == 0 && post.status == r.status && post.metadata
            == r.metadata,
    })
    &&& post.config == pre.config
    &&& post.current_profile == pre.current_profile
    &&& post.should_quit == pre.should_quit
    &&& post.version == pre.version
    &&& post.collection_cursor == pre.collection_cursor
    &&& post.profile_cursor == pre.profile_cursor
    &&& post.current_view == pre.current_view
    &&& post.fetch_tx == pre.fetch_tx
    &&& post.fetch_rx == pre.fetch_rx
}

/// What one poll of the result channel may do to the state: nothing
/// on an empty channel; apply the result on a delivery; only drop the
/// in-flight flag on a dead channel (a defensive recovery, not a
/// normal path).
pub open spec fn poll_transition(pre: App, post: App, ev: PollEvent, now_ms: i64) -> bool {
    match ev {
        PollEvent::Empty => post == pre,
        PollEvent::Disconnected => post == App { is_fetching: false, ..pre },
        PollEvent::Delivered(r) => applied_result(pre, post, r, now_ms),
    }
}

/// A fetch is due when more than the configured interval has passed
/// since the last stamp.
pub open spec fn fetch_due(last_ms: i64, now_ms: i64, interval_secs: i64) -> bool {
    now_ms - last_ms > interval_secs * 1000
}

impl App {
    /// The selection always points at a profile, and profiles sit at
    /// their own index.
    pub open spec fn wf(self) -> bool {
        &&& config_wf(self.config)
        &&& self.config.profiles@.len() > 0
        &&& (self.current_profile as int) < self.config.profiles@.len()
    }

    /// Builds the session from a loaded configuration: succeeds
    /// exactly when some profile carries the default name, and selects
    /// the first such profile.
    pub fn new(config: Config, version: String, now_ms: i64) -> (r: Result<App, ConfigError>)
        requires
            config_wf(config),
        ensures
            (r is Ok) == (spec_find_profile(config.profiles@, config.default@) is Some),
            r matches Ok(app) ==> {
                &&& spec_find_profile(config.profiles@, config.default@) matches Some(i)
                    && app.current_profile == i && app.profile_cursor == i
                &&& app.wf()
                &&& app.config == config
                &&& app.version == version
                &&& status_empty(app.status)
                &&& metadata_empty(app.metadata)
                &&& app.error_message@.len() == 0
                &&& !app.should_quit
                &&& !app.is_fetching
                &&& app.collection_cursor == 0
                &&& app.current_view == CurrentView::Main
                &&& app.last_fetch == now_ms
            },
            r matches Err(e) ==> e == ConfigError::DefaultProfileNotFound,
    {
        let idx = match find_by_name(&config.profiles, &config.default) {
            Some(i) => i,
            None => {
                return Err(ConfigError::DefaultProfileNotFound);
            },
        };
        let (tx, rx) = new_fetch_channel();
        Ok(
            App {
                status: Status::default(),
                metadata: Metadata::default(),
                config,
                current_profile: idx,
                should_quit: false,
                version,
                error_message: String::new(),
                collection_cursor: 0,
                current_view: CurrentView::Main,
                profile_cursor: idx,
                last_fetch: now_ms,
                is_fetching: false,
                fetch_tx: tx,
                fetch_rx: rx,
            },
        )
    }

    /// The profile the session is pointed at.
    pub fn current_profile(&self) -> (r: Profile)
        requires
            self.wf(),
        ensures
            r.deep_view() == self.config.profiles@[self.current_profile as int].deep_view(),
    {
        self.config.profiles[self.current_profile].clone()
    }

    pub fn toggle_profile_selector(&mut self)
        ensures
            old(self).current_view == CurrentView::Main ==> *final(self) == (App {
                current_view: CurrentView::ProfileSwitcher,
                ..*old(self)
            }),
            old(self).current_view == CurrentView::ProfileSwitcher ==> *final(self) == (App {
                current_view: CurrentView::Main,
                ..*old(self)
            }),
    {
        self.current_view = match self.current_view {
            CurrentView::Main => CurrentView::ProfileSwitcher,
            CurrentView::ProfileSwitcher => CurrentView::Main,
        };
    }

    pub fn show_profile_selector(&self) -> (r: bool)
        ensures
            r == (self.current_view == CurrentView::ProfileSwitcher),
    {
        self.current_view == CurrentView::ProfileSwitcher
    }

    /// Selects the first profile of the given name; refused, with the
    /// state untouched, when no profile carries it. A successful
    /// switch always resets the snapshots and the error line.
    pub fn set_profile(&mut self, profile: String) -> (r: Result<(), ProfileError>)
        ensures
            old(self).wf() ==> final(self).wf(),
            (r is Ok) == (spec_find_profile(old(self).config.profiles@, profile@) is Some),
            r is Ok ==> (spec_find_profile(old(self).config.profiles@, profile@)
                matches Some(i) && profile_switched(*old(self), *final(self), i)),
            r matches Err(e) ==> (*final(self) == *old(self) && (
            e matches ProfileError::ProfileNotFound(n) && n@ == profile@)),
    {
        let idx = match find_by_name(&self.config.profiles, &profile) {
            Some(i) => i,
            None => {
                return Err(ProfileError::ProfileNotFound(profile));
            },
        };
        self.current_profile = idx;
        self.profile_cursor = idx;
        self.clear_state();
        Ok(())
    }

    pub fn quit(&mut self)
        ensures
            *final(self) == (App { should_quit: true, ..*old(self) }),
    {
        self.should_quit = true;
    }

    /// Moves the profile selection down one, clearing the snapshots;
    /// a no-op at the last profile — the selection never wraps.
    pub fn profile_down(&mut self)
        requires
            old(self).wf(),
        ensures
            final(self).wf(),
            old(self).current_profile + 1 < old(self).config.profiles@.len()
                ==> profile_switched(*old(self), *final(self), old(self).current_profile + 1),
            old(self).current_profile + 1 >= old(self).config.profiles@.len() ==> *final(self)
                == *old(self),
    {
        let len = self.config.profiles.len();
        if self.current_profile + 1 < len {
            self.current_profile = self.current_profile + 1;
            self.profile_cursor = self.current_profile;
            self.clear_state();
        }
    }

    /// Moves the profile selection up one, clearing the snapshots; a
    /// no-op at the first profile.
    pub fn profile_up(&mut self)
        requires
            old(self).wf(),
        ensures
            final(self).wf(),
            old(self).current_profile > 0 ==> profile_switched(
                *old(self),
                *final(self),
                old(self).current_profile - 1,
            ),
            old(self).current_profile == 0 ==> *final(self) == *old(self),
    {
        if self.current_profile > 0 {
            self.current_profile = self.current_profile - 1;
            self.profile_cursor = self.current_profile;
            self.clear_state();
        }
    }

    /// Moves the row cursor up one; a no-op at the top.
    pub fn collection_up(&mut self)
        ensures
            old(self).collection_cursor > 0 ==> *final(self) == (App {
                collection_cursor: (old(self).collection_cursor - 1) as usize,
                ..*old(self)
            }),
            old(self).collection_cursor == 0 ==> *final(self) == *old(self),
    {
        if self.collection_cursor > 0 {
            self.collection_cursor = self.collection_cursor - 1;
        }
    }

    /// Moves the row cursor down one; a no-op once the cursor rests at
    /// the row count (the cursor may sit one past the last row; that
    /// boundary is kept as the existing behaviour).
    pub fn collection_down(&mut self)
        ensures
            old(self).collection_cursor < old(self).status.results@.len() ==> *final(self)
                == (App {
                collection_cursor: (old(self).collection_cursor + 1) as usize,
                ..*old(self)
            }),
            old(self).collection_cursor >= old(self).status.results@.len() ==> *final(self)
                == *old(self),
    {
        if self.collection_cursor < self.status.results.len() {
            self.collection_cursor = self.collection_cursor + 1;
        }
    }

    fn clear_state(&mut self)
        ensures
            status_empty(final(self).status),
            metadata_empty(final(self).metadata),
            final(self).error_message@.len() == 0,
            final(self).config == old(self).config,
            final(self).current_profile == old(self).current_profile,
            final(self).should_quit == old(self).should_quit,
            final(self).version == old(self).version,
            final(self).collection_cursor == old(self).collection_cursor,
            final(self).profile_cursor == old(self).profile_cursor,
            final(self).current_view == old(self).current_view,
            final(self).is_fetching == old(self).is_fetching,
            final(self).last_fetch == old(self).last_fetch,
            final(self).fetch_tx == old(self).fetch_tx,
            final(self).fetch_rx == old(self).fetch_rx,
    {
        self.status = Status::default();
        self.metadata = Metadata::default();
        self.error_message = String::new();
    }

    /// Marks a fetch as in flight and says whether the caller should
    /// launch a background unit: while one is already in flight this
    /// is a no-op and no second unit is launched.
    pub fn start_fetch(&mut self) -> (launch: bool)
        ensures
            launch == !old(self).is_fetching,
            old(self).is_fetching ==> *final(self) == *old(self),
            !old(self).is_fetching ==> *final(self) == (App {
                is_fetching: true,
                ..*old(self)
            }),
    {
        if self.is_fetching {
            false
        } else {
            self.is_fetching = true;
            true
        }
    }

    /// Applies one delivered fetch result to the state.
    pub fn apply_fetch_result(&mut self, r: FetchResult, now_ms: i64)
        ensures
            applied_result(*old(self), *final(self), r, now_ms),
    {
        let FetchResult { status, metadata, error } = r;
        match error {
            Some(msg) => {
                self.error_message = msg;
            },
            None => {
                self.status = status;
                self.metadata = metadata;
                self.error_message = String::new();
            },
        }
        self.is_fetching = false;
        self.last_fetch = now_ms;
    }

    /// One non-blocking look at the result channel: whatever the
    /// channel held, the state changes by [`poll_transition`] for that
    /// event — in particular, an empty channel changes nothing.
    pub fn poll_fetch_result(&mut self, now_ms: i64)
        ensures
            exists|ev: PollEvent| poll_transition(*old(self), *final(self), ev, now_ms),
    {
        let ev = poll_channel(&self.fetch_rx);
        let ghost gev = ev;
        match ev {
            PollEvent::Empty => {
            },
            PollEvent::Disconnected => {
                self.is_fetching = false;
            },
            PollEvent::Delivered(r) => {
                self.apply_fetch_result(r, now_ms);
            },
        }
        proof {
            assert(poll_transition(*old(self), *self, gev, now_ms));
        }
    }

    /// The periodic-polling policy, driven by an outside tick: starts
    /// a fetch exactly when more than the configured interval has
    /// passed and none is in flight.
    pub fn maybe_start_fetch(&mut self, now_ms: i64) -> (launch: bool)
        ensures
            launch == (fetch_due(old(self).last_fetch, now_ms, old(self).config.fetch_interval)
                && !old(self).is_fetching),
            launch ==> *final(self) == (App { is_fetching: true, ..*old(self) }),
            !launch ==> *final(self) == *old(self),
    {
        let due = (now_ms as i128 - self.last_fetch as i128) > (
        self.config.fetch_interval as i128) * 1000;
        if due && !self.is_fetching {
            self.start_fetch()
        } else {
            false
        }
    }
}

} // verus!
