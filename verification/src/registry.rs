//! The registry: the list of definitions and the table of running processes.

use crate::definition::{
    has_id, ids_distinct, lemma_position, lookup, position, AppConfig, AppView, RegisteredApp,
};
use crate::error::{ErrorView, RegistryError};
use crate::ident::{fresh_id, is_generated_id};
use vstd::hash_map::StringHashMap;
use vstd::prelude::*;

verus! {

/// The state that all operations share: the definitions, and for each
/// application that was started the key it is tracked under with the
/// identifier of its process.
pub struct AppState {
    pub config: AppConfig,
    pub running_processes: StringHashMap<u32>,
}

/// The test that a definition has another id than `id`.
pub open spec fn other_than(id: Seq<char>) -> spec_fn(AppView) -> bool {
    |a: AppView| a.id != id
}

/// The definitions without those whose id is `id`.
pub open spec fn without_id(apps: Seq<AppView>, id: Seq<char>) -> Seq<AppView> {
    apps.filter(other_than(id))
}

/// The key under which an application that is tracked by name is recorded.
pub open spec fn name_key(app_id: Seq<char>) -> Seq<char> {
    app_id + ":name"@
}

/// Whether the application is tracked by name: whether its definition asks
/// that it never be started twice. An id without a definition is not.
pub open spec fn tracks_by_name(apps: Seq<AppView>, app_id: Seq<char>) -> bool {
    match lookup(apps, app_id) {
        Some(app) => app.prevent_duplicate,
        None => false,
    }
}

/// The key under which a running process of the application is recorded:
/// `name_key` of its id where it is tracked by name, its id otherwise.
pub open spec fn tracking_key(apps: Seq<AppView>, app_id: Seq<char>) -> Seq<char> {
    if tracks_by_name(apps, app_id) {
        name_key(app_id)
    } else {
        app_id
    }
}

/// Whether a running process is recorded for the application.
pub open spec fn is_running(
    apps: Seq<AppView>,
    processes: Map<Seq<char>, u32>,
    app_id: Seq<char>,
) -> bool {
    processes.contains_key(tracking_key(apps, app_id))
}

/// The definitions with every field but the id of the first one whose id is
/// `replacement.id` taken from `replacement`.
pub open spec fn with_update(apps: Seq<AppView>, replacement: AppView) -> Seq<AppView> {
    match position(apps, replacement.id) {
        Some(i) => apps.update(i, replacement),
        None => apps,
    }
}

impl AppState {
    /// The definitions, as the contracts speak of them.
    pub open spec fn apps(&self) -> Seq<AppView> {
        self.config@
    }

    /// The table of running processes, as the contracts speak of it.
    pub open spec fn processes(&self) -> Map<Seq<char>, u32> {
        self.running_processes@
    }

    /// A registry with the given definitions and no running process.
    pub fn new(config: AppConfig) -> (state: Self)
        ensures
            state.apps() == config@,
            state.processes() == Map::<Seq<char>, u32>::empty(),
    {
        AppState { config, running_processes: StringHashMap::new() }
    }

    /// A copy of all definitions, in order.
    pub fn get_registered_apps(&self) -> (apps: Vec<RegisteredApp>)
        ensures
            apps@.map_values(|a: RegisteredApp| a@) == self.apps(),
    {
        self.config.get_registered_apps()
    }

    /// Removes every definition. The running processes stay tracked.
    pub fn reset_config(&mut self)
        ensures
            final(self).apps() == Seq::<AppView>::empty(),
            final(self).processes() == old(self).processes(),
    {
        self.config.registered_apps.clear();
        assert(self.apps() =~= Seq::<AppView>::empty());
    }

    /// Appends a definition with the given id and fields, and returns a copy
    /// of it. Whether the id is already in use is not looked at.
    pub fn add_registered_app_with_id(
        &mut self,
        id: String,
        name: String,
        path: String,
        arguments: String,
        description: String,
        enabled: bool,
        delay: u64,
        prevent_duplicate: bool,
        auto_start: bool,
    ) -> (added: RegisteredApp)
        ensures
            added@ == (AppView {
                id: id@,
                name: name@,
                path: path@,
                arguments: arguments@,
                description: description@,
                enabled,
                delay,
                prevent_duplicate,
                auto_start,
            }),
            final(self).apps() == old(self).apps().push(added@),
            final(self).processes() == old(self).processes(),
            ids_distinct(old(self).apps()) && !has_id(old(self).apps(), id@) ==> ids_distinct(
                final(self).apps(),
            ),
    {
        let new_app = RegisteredApp {
            id,
            name,
            path,
            arguments,
            description,
            enabled,
            delay,
            prevent_duplicate,
            auto_start,
        };
        let added = new_app.clone();
        self.config.registered_apps.push(new_app);
        assert(self.apps() =~= old(self).apps().push(added@));
        proof {
            if ids_distinct(old(self).apps()) && !has_id(old(self).apps(), id@) {
                lemma_push_keeps_ids_distinct(old(self).apps(), added@);
            }
        }
        added
    }

    /// Appends a definition with the given fields under a freshly drawn id,
    /// and returns a copy of it.
    pub fn add_registered_app(
        &mut self,
        name: String,
        path: String,
        arguments: String,
        description: String,
        enabled: bool,
        delay: u64,
        prevent_duplicate: bool,
        auto_start: bool,
    ) -> (added: RegisteredApp)
        ensures
            is_generated_id(added@.id),
            added@ == (AppView {
                id: added@.id,
                name: name@,
                path: path@,
                arguments: arguments@,
                description: description@,
                enabled,
                delay,
                prevent_duplicate,
                auto_start,
            }),
            final(self).apps() == old(self).apps().push(added@),
            final(self).processes() == old(self).processes(),
            ids_distinct(old(self).apps()) && !has_id(old(self).apps(), added@.id)
                ==> ids_distinct(final(self).apps()),
    {
        self.add_registered_app_with_id(
            fresh_id(),
            name,
            path,
            arguments,
            description,
            enabled,
            delay,
            prevent_duplicate,
            auto_start,
        )
    }

    /// Replaces every field but the id of the first definition whose id is
    /// `id`. Fails with `NotFound`, changing nothing, where there is none.
    pub fn update_registered_app(
        &mut self,
        id: &str,
        name: String,
        path: String,
        arguments: String,
        description: String,
        enabled: bool,
        delay: u64,
        prevent_duplicate: bool,
        auto_start: bool,
    ) -> (outcome: Result<(), RegistryError>)
        ensures
            has_id(old(self).apps(), id@) ==> outcome is Ok,
            !has_id(old(self).apps(), id@) ==> outcome is Err && outcome->Err_0@
                == ErrorView::NotFound,
            final(self).apps() == with_update(
                old(self).apps(),
                AppView {
                    id: id@,
                    name: name@,
                    path: path@,
                    arguments: arguments@,
                    description: description@,
                    enabled,
                    delay,
                    prevent_duplicate,
                    auto_start,
                },
            ),
            final(self).processes() == old(self).processes(),
    {
        proof {
            lemma_position(self.apps(), id@);
        }
        match self.config.find(id) {
            Some(i) => {
                let replacement = RegisteredApp {
                    id: self.config.registered_apps[i].id.clone(),
                    name,
                    path,
                    arguments,
                    description,
                    enabled,
                    delay,
                    prevent_duplicate,
                    auto_start,
                };
                self.config.registered_apps[i] = replacement;
                assert(self.apps() =~= old(self).apps().update(i as int, replacement@));
                Ok(())
            },
            None => Err(RegistryError::NotFound),
        }
    }

    /// Removes every definition whose id is `id`. Where there is none, the
    /// list stays as it is.
    pub fn remove_registered_app(&mut self, id: &str)
        ensures
            final(self).apps() == without_id(old(self).apps(), id@),
            !has_id(old(self).apps(), id@) ==> final(self).apps() == old(self).apps(),
            !has_id(final(self).apps(), id@),
            final(self).processes() == old(self).processes(),
    {
        let wanted = id.to_owned();
        let ghost before = self.apps();
        let ghost keep = other_than(id@);
        let ghost mut seen: int = 0;
        let mut i: usize = 0;
        proof {
            reveal(Seq::filter);
            assert(before.take(0) =~= Seq::<AppView>::empty());
            assert(before.skip(0) =~= before);
            assert(before.take(0).filter(keep) + before.skip(0) =~= before);
        }
        while i < self.config.registered_apps.len()
            invariant
                wanted@ == id@,
                before == old(self).apps(),
                keep == other_than(id@),
                0 <= seen <= before.len(),
                i == before.take(seen).filter(keep).len(),
                i <= self.config.registered_apps.len(),
                self.apps() == before.take(seen).filter(keep) + before.skip(seen),
                self.processes() == old(self).processes(),
            decreases self.config.registered_apps.len() - i,
        {
            let ghost current = self.apps();
            proof {
                assert(current[i as int] == before.skip(seen)[0]);
                assert(before.take(seen + 1) =~= before.take(seen).push(before[seen]));
                before.take(seen).lemma_filter_push(before[seen], keep);
            }
            if self.config.registered_apps[i].id == wanted {
                self.config.registered_apps.remove(i);
                proof {
                    let kept = before.take(seen).filter(keep);
                    assert(self.apps() =~= current.remove(i as int));
                    assert(!keep(before[seen]));
                    assert(current.remove(i as int) =~= kept + before.skip(seen + 1));
                }
            } else {
                assert(current =~= before.take(seen + 1).filter(keep) + before.skip(seen + 1));
                i += 1;
            }
            proof {
                seen = seen + 1;
            }
        }
        proof {
            assert(before.take(seen) =~= before);
            assert(self.apps() =~= without_id(before, id@));
            lemma_without_id(before, id@);
        }
    }

    /// Tells whether a running process is recorded for the application,
    /// under the key that its way of tracking calls for.
    pub fn is_application_running(&self, app_id: &str) -> (running: bool)
        ensures
            running == is_running(self.apps(), self.processes(), app_id@),
    {
        let key = self.key_of(app_id);
        self.running_processes.contains_key(key.as_str())
    }

    /// Whether the definition of the application asks that it be tracked by
    /// name.
    pub fn is_tracked_by_name(&self, app_id: &str) -> (by_name: bool)
        ensures
            by_name == tracks_by_name(self.apps(), app_id@),
    {
        match self.config.find(app_id) {
            Some(i) => self.config.registered_apps[i].prevent_duplicate,
            None => false,
        }
    }

    /// The key under which a running process of the application is recorded.
    pub fn key_of(&self, app_id: &str) -> (key: String)
        ensures
            key@ == tracking_key(self.apps(), app_id@),
    {
        let mut key = app_id.to_owned();
        if self.is_tracked_by_name(app_id) {
            key.append(":name");
        }
        key
    }
}

/// Removing an id leaves no definition with it, and leaves a list without
/// it as it is.
pub proof fn lemma_without_id(apps: Seq<AppView>, id: Seq<char>)
    ensures
        !has_id(without_id(apps, id), id),
        !has_id(apps, id) ==> without_id(apps, id) == apps,
    decreases apps.len(),
{
    let keep = other_than(id);
    reveal(Seq::filter);
    if apps.len() > 0 {
        let init = apps.drop_last();
        lemma_without_id(init, id);
        assert(apps =~= init.push(apps.last()));
        init.lemma_filter_push(apps.last(), keep);
        let rest = without_id(init, id);
        let all = without_id(apps, id);
        assert forall|i: int| 0 <= i < all.len() implies (#[trigger] all[i]).id != id by {
            if i < rest.len() {
                assert(all[i] == rest[i]);
            }
        }
        if !has_id(apps, id) {
            assert forall|i: int| 0 <= i < init.len() implies (#[trigger] init[i]).id != id by {
                assert(init[i] == apps[i]);
            }
            assert(apps[apps.len() - 1].id != id);
        }
    }
}

/// The key of an application tracked by name is never its plain id.
pub proof fn lemma_key_forms_differ(app_id: Seq<char>)
    ensures
        name_key(app_id) != app_id,
{
    reveal_strlit(":name");
    assert(name_key(app_id).len() == app_id.len() + 5);
}

/// The name key of one generated id is never another generated id: among
/// applications with generated ids, an entry made for one tracked by name
/// is never taken for the entry of one tracked by its process identifier.
pub proof fn lemma_generated_ids_keep_key_forms_apart(first: Seq<char>, second: Seq<char>)
    requires
        is_generated_id(first),
        is_generated_id(second),
    ensures
        name_key(first) != second,
{
    reveal_strlit(":name");
    assert(name_key(first).len() == first.len() + 5);
}

/// Whether an application counts as running depends on the entry under its
/// own key alone: an entry under the plain id says nothing of an
/// application tracked by name, and an entry under the name key says
/// nothing of one tracked by its process identifier.
pub proof fn lemma_running_reflects_own_key(
    apps: Seq<AppView>,
    processes: Map<Seq<char>, u32>,
    app_id: Seq<char>,
    pid: u32,
)
    ensures
        tracks_by_name(apps, app_id) ==> {
            &&& is_running(apps, processes, app_id) == processes.contains_key(name_key(app_id))
            &&& is_running(apps, processes.insert(app_id, pid), app_id) == is_running(
                apps,
                processes,
                app_id,
            )
            &&& is_running(apps, processes.remove(app_id), app_id) == is_running(
                apps,
                processes,
                app_id,
            )
        },
        !tracks_by_name(apps, app_id) ==> {
            &&& is_running(apps, processes, app_id) == processes.contains_key(app_id)
            &&& is_running(apps, processes.insert(name_key(app_id), pid), app_id) == is_running(
                apps,
                processes,
                app_id,
            )
            &&& is_running(apps, processes.remove(name_key(app_id)), app_id) == is_running(
                apps,
                processes,
                app_id,
            )
        },
{
    lemma_key_forms_differ(app_id);
}

/// After any run of additions, each under an id that no definition had at
/// the time, no two definitions share an id.
pub proof fn lemma_additions_keep_ids_distinct(apps: Seq<AppView>, added: Seq<AppView>)
    requires
        ids_distinct(apps),
        forall|k: int|
            0 <= k < added.len() ==> !has_id(apps + added.take(k), (#[trigger] added[k]).id),
    ensures
        ids_distinct(apps + added),
    decreases added.len(),
{
    if added.len() == 0 {
        assert(apps + added =~= apps);
    } else {
        let init = added.drop_last();
        assert forall|k: int| 0 <= k < init.len() implies !has_id(
            apps + init.take(k),
            (#[trigger] init[k]).id,
        ) by {
            assert(init.take(k) =~= added.take(k));
            assert(init[k] == added[k]);
        }
        lemma_additions_keep_ids_distinct(apps, init);
        assert(added.take(added.len() - 1) =~= init);
        assert(added[added.len() - 1] == added.last());
        lemma_push_keeps_ids_distinct(apps + init, added.last());
        assert((apps + init).push(added.last()) =~= apps + added);
    }
}

/// Appending a definition whose id is not in use keeps the ids distinct.
pub proof fn lemma_push_keeps_ids_distinct(apps: Seq<AppView>, app: AppView)
    requires
        ids_distinct(apps),
        !has_id(apps, app.id),
    ensures
        ids_distinct(apps.push(app)),
{
    let after = apps.push(app);
    assert forall|i: int, j: int| 0 <= i < j < after.len() implies (#[trigger] after[i]).id != (
    #[trigger] after[j]).id by {
        if j == apps.len() {
            assert(apps[i].id != app.id);
        } else {
            assert(apps[i].id != apps[j].id);
        }
    }
}

} // verus!
