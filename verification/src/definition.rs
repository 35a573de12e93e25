//! Application definitions and the ordered list that holds them.

use vstd::prelude::*;

verus! {

/// The description of one launchable program.
#[derive(Debug, PartialEq, Eq)]
pub struct RegisteredApp {
    /// Identifier given at creation and never changed afterwards.
    pub id: String,
    /// Display name; also the process name used to stop the program by name.
    pub name: String,
    /// Path of the executable.
    pub path: String,
    /// Arguments as one string, split at whitespace when the program starts.
    pub arguments: String,
    /// Free text.
    pub description: String,
    /// Whether the definition takes part in the startup sequence.
    pub enabled: bool,
    /// Seconds to wait before the program is started at startup.
    pub delay: u64,
    /// Whether the program is tracked by name and never started twice.
    pub prevent_duplicate: bool,
    /// Reserved.
    pub auto_start: bool,
}

/// What a `RegisteredApp` holds, with its strings as sequences of characters.
pub struct AppView {
    pub id: Seq<char>,
    pub name: Seq<char>,
    pub path: Seq<char>,
    pub arguments: Seq<char>,
    pub description: Seq<char>,
    pub enabled: bool,
    pub delay: u64,
    pub prevent_duplicate: bool,
    pub auto_start: bool,
}

impl View for RegisteredApp {
    type V = AppView;

    open spec fn view(&self) -> AppView {
        AppView {
            id: self.id@,
            name: self.name@,
            path: self.path@,
            arguments: self.arguments@,
            description: self.description@,
            enabled: self.enabled,
            delay: self.delay,
            prevent_duplicate: self.prevent_duplicate,
            auto_start: self.auto_start,
        }
    }
}

impl Clone for RegisteredApp {
    fn clone(&self) -> (copy: Self)
        ensures
            copy == *self,
    {
        RegisteredApp {
            id: self.id.clone(),
            name: self.name.clone(),
            path: self.path.clone(),
            arguments: self.arguments.clone(),
            description: self.description.clone(),
            enabled: self.enabled,
            delay: self.delay,
            prevent_duplicate: self.prevent_duplicate,
            auto_start: self.auto_start,
        }
    }
}

/// The index of the first definition at or after `start` whose id is `id`.
pub open spec fn first_match_from(apps: Seq<AppView>, id: Seq<char>, start: int) -> Option<int>
    decreases apps.len() - start,
{
    if start < 0 || start >= apps.len() {
        None
    } else if apps[start].id == id {
        Some(start)
    } else {
        first_match_from(apps, id, start + 1)
    }
}

/// The index of the first definition whose id is `id`.
pub open spec fn position(apps: Seq<AppView>, id: Seq<char>) -> Option<int> {
    first_match_from(apps, id, 0)
}

/// The first definition whose id is `id`.
pub open spec fn lookup(apps: Seq<AppView>, id: Seq<char>) -> Option<AppView> {
    match position(apps, id) {
        Some(i) => Some(apps[i]),
        None => None,
    }
}

/// Whether some definition has the id `id`.
pub open spec fn has_id(apps: Seq<AppView>, id: Seq<char>) -> bool {
    exists|i: int| 0 <= i < apps.len() && (#[trigger] apps[i]).id == id
}

/// Whether no two definitions share an id.
pub open spec fn ids_distinct(apps: Seq<AppView>) -> bool {
    forall|i: int, j: int|
        0 <= i < j < apps.len() ==> (#[trigger] apps[i]).id != (#[trigger] apps[j]).id
}

/// `first_match_from` finds a definition with the id, the earliest one, and
/// finds none only where there is none.
pub proof fn lemma_first_match_from(apps: Seq<AppView>, id: Seq<char>, start: int)
    requires
        0 <= start,
    ensures
        match first_match_from(apps, id, start) {
            Some(i) => {
                &&& start <= i < apps.len()
                &&& apps[i].id == id
                &&& forall|j: int| start <= j < i ==> (#[trigger] apps[j]).id != id
            },
            None => forall|j: int| start <= j < apps.len() ==> (#[trigger] apps[j]).id != id,
        },
    decreases apps.len() - start,
{
    if start < apps.len() && apps[start].id != id {
        lemma_first_match_from(apps, id, start + 1);
    }
}

/// `position` is the index of the earliest definition with the id, and is
/// `None` exactly where no definition has it.
pub proof fn lemma_position(apps: Seq<AppView>, id: Seq<char>)
    ensures
        position(apps, id) is Some <==> has_id(apps, id),
        match position(apps, id) {
            Some(i) => {
                &&& 0 <= i < apps.len()
                &&& apps[i].id == id
                &&& forall|j: int| 0 <= j < i ==> (#[trigger] apps[j]).id != id
            },
            None => true,
        },
{
    lemma_first_match_from(apps, id, 0);
}

/// The ordered list of definitions.
#[derive(Debug, PartialEq, Eq)]
pub struct AppConfig {
    pub registered_apps: Vec<RegisteredApp>,
}

impl View for AppConfig {
    type V = Seq<AppView>;

    open spec fn view(&self) -> Seq<AppView> {
        self.registered_apps@.map_values(|a: RegisteredApp| a@)
    }
}

/// What reading the stored configuration came to.
#[derive(Debug, PartialEq, Eq)]
pub enum Loaded {
    /// Nothing was stored.
    Missing,
    /// Something was stored and could not be understood.
    Corrupt,
    /// The stored list.
    Parsed(AppConfig),
}

impl Default for AppConfig {
    fn default() -> (config: Self)
        ensures
            config@ == Seq::<AppView>::empty(),
    {
        AppConfig::new()
    }
}

impl Clone for AppConfig {
    fn clone(&self) -> (copy: Self)
        ensures
            copy@ == self@,
    {
        AppConfig { registered_apps: self.get_registered_apps() }
    }
}

impl AppConfig {
    /// The empty list.
    pub fn new() -> (config: Self)
        ensures
            config@ == Seq::<AppView>::empty(),
    {
        let config = AppConfig { registered_apps: Vec::new() };
        assert(config@ =~= Seq::<AppView>::empty());
        config
    }

    /// The list to start with: the stored one where it could be read, the
    /// empty one otherwise.
    pub fn recover(loaded: Loaded) -> (config: Self)
        ensures
            config@ == match loaded {
                Loaded::Parsed(stored) => stored@,
                _ => Seq::<AppView>::empty(),
            },
    {
        match loaded {
            Loaded::Parsed(stored) => stored,
            _ => AppConfig::new(),
        }
    }

    /// The index of the first definition with the given id.
    pub fn find(&self, id: &str) -> (found: Option<usize>)
        ensures
            match found {
                Some(i) => i < self.registered_apps.len() && position(self@, id@) == Some(i as int),
                None => position(self@, id@) is None,
            },
    {
        let wanted = id.to_owned();
        let mut i: usize = 0;
        while i < self.registered_apps.len()
            invariant
                i <= self.registered_apps.len(),
                wanted@ == id@,
                position(self@, id@) == first_match_from(self@, id@, i as int),
            decreases self.registered_apps.len() - i,
        {
            if self.registered_apps[i].id == wanted {
                return Some(i);
            }
            i += 1;
        }
        None
    }

    /// A copy of all definitions, in order.
    pub fn get_registered_apps(&self) -> (apps: Vec<RegisteredApp>)
        ensures
            apps@ == self.registered_apps@,
    {
        let mut apps: Vec<RegisteredApp> = Vec::new();
        let mut i: usize = 0;
        while i < self.registered_apps.len()
            invariant
                i <= self.registered_apps.len(),
                apps@ == self.registered_apps@.take(i as int),
            decreases self.registered_apps.len() - i,
        {
            apps.push(self.registered_apps[i].clone());
            assert(apps@ =~= self.registered_apps@.take(i + 1));
            i += 1;
        }
        assert(apps@ =~= self.registered_apps@);
        apps
    }
}

} // verus!
