//! Process-wide state: the hot-swappable configuration holder and the two
//! resource services.
use vstd::prelude::*;

use crate::posts::{InMemoryPostService, PostService};
use crate::settings::{Settings, SettingsView};
use crate::users::{InMemoryUserService, UserService};

verus! {

/// Lock-free-readable holder of the current configuration snapshot. Readers
/// always observe a complete snapshot, never a partially updated one; a
/// reader in flight keeps the snapshot it already loaded when a store
/// replaces it. The holder lives for the process's duration.
///
/// The replaceable cell inside cannot be named in a type declaration (its
/// strategy parameter is private to its crate), so the whole holder is opaque
/// to verification: `holder_snapshot` names its contents, and the accessors
/// below are trusted to maintain it.
#[verifier::external_body]
pub struct ConfigHolder {
    inner: arc_swap::ArcSwap<Settings>,
}

/// The configuration snapshot a holder currently holds.
pub uninterp spec fn holder_snapshot(h: ConfigHolder) -> SettingsView;

impl ConfigHolder {
    /// Relies on arc_swap::ArcSwap::from_pointee: a fresh holder holds
    /// exactly the snapshot it was constructed from.
    #[verifier::external_body]
    pub fn new(s: Settings) -> (r: ConfigHolder)
        ensures
            holder_snapshot(r) == s@,
    {
        ConfigHolder { inner: arc_swap::ArcSwap::from_pointee(s) }
    }

    /// Relies on arc_swap::ArcSwapAny::load_full: returns the snapshot most
    /// recently stored, fully constructed, without blocking a concurrent
    /// store.
    #[verifier::external_body]
    pub fn load(&self) -> (r: Settings)
        ensures
            r@ == holder_snapshot(*self),
    {
        (*self.inner.load_full()).clone()
    }

    /// Relies on arc_swap::ArcSwapAny::store: atomically replaces the held
    /// snapshot; readers in flight keep the snapshot they already loaded.
    #[verifier::external_body]
    pub fn store(&mut self, s: Settings)
        ensures
            holder_snapshot(*final(self)) == s@,
    {
        self.inner.store(std::sync::Arc::new(s));
    }
}

/// Everything a running service needs: the configuration holder and the two
/// resource services.
pub struct ApplicationState {
    pub settings: ConfigHolder,
    pub post_service: InMemoryPostService,
    pub user_service: InMemoryUserService,
}

impl ApplicationState {
    /// Fresh state over empty stores, holding a copy of `settings`.
    pub fn new(settings: &Settings) -> (r: Self)
        ensures
            holder_snapshot(r.settings) == settings@,
            r.post_service.wf(),
            r.post_service.counter() == 0,
            r.post_service.posts() == Seq::<crate::model::Post>::empty(),
            r.user_service.wf(),
            r.user_service.counter() == 0,
            r.user_service.users() == Seq::<crate::model::User>::empty(),
    {
        ApplicationState {
            settings: ConfigHolder::new(settings.clone()),
            post_service: InMemoryPostService::new(),
            user_service: InMemoryUserService::new(),
        }
    }

    /// Atomically replaces the configuration snapshot at runtime (a reload).
    /// The resource stores are untouched; requests already holding the
    /// previous snapshot keep it.
    pub fn reload_settings(&mut self, new_settings: Settings)
        ensures
            holder_snapshot(final(self).settings) == new_settings@,
            final(self).post_service == old(self).post_service,
            final(self).user_service == old(self).user_service,
    {
        self.settings.store(new_settings);
    }
}

} // verus!
