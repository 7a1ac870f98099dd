//! The registry of loaded plugins and its lifecycle discipline.
//!
//! The manager owns a registry mapping each plugin name to the live
//! instance and the library that produced it. Both are foreign objects
//! that only the unverified shell can touch, so the registry holds them
//! as handles; every mutation of the registry states which cleanup
//! actions the shell now owes, as an ordered list of [`TeardownStep`]s.
//! The invariant of the whole design is that an instance is destroyed
//! through its own library's destructor before that library is
//! released, and the step lists produced here always say so.

use vstd::prelude::*;

use crate::errors::PluginError;
use crate::metadata::PluginMetadata;

verus! {

/// One registry entry: a plugin's reported metadata, the handle of its
/// live instance, the handle of the library that owns the instance, and
/// the destroy capability recorded from the library's descriptor at
/// load time. Retiring the entry must use exactly this capability.
pub struct PluginEntry {
    /// The snapshot the instance reported when it was loaded.
    pub metadata: PluginMetadata,
    /// Handle of the live instance.
    pub instance: u64,
    /// Handle of the library that owns the instance.
    pub library: u64,
    /// Handle of the destructor from the descriptor validated at load.
    pub destroy: u64,
}

/// One cleanup action the unverified shell owes after a registry
/// mutation. Steps must be performed in the order they are listed.
#[derive(Clone, Copy, Debug, PartialEq, Eq, Structural)]
pub enum TeardownStep {
    /// Destroy the instance by passing it to the destroy capability of
    /// its own library.
    DestroyInstance { destroy: u64, instance: u64 },
    /// Release the library itself. Always listed after the destruction
    /// of every instance the library still owned.
    ReleaseLibrary { library: u64 },
}

/// A routed invocation: which live instance is to run, and the input to
/// hand it verbatim.
pub struct PluginCall {
    /// Handle of the instance that owns the requested name.
    pub instance: u64,
    /// The caller's input, passed through unchanged.
    pub input: String,
}

/// Whether some entry of `s` is registered under `name`.
pub open spec fn has_name(s: Seq<PluginEntry>, name: Seq<char>) -> bool {
    exists|i: int| 0 <= i < s.len() && s[i].metadata.name@ == name
}

/// The index of the entry registered under `name`. Meaningful only
/// where `has_name` holds; unique where the names of `s` are unique.
pub open spec fn index_of_name(s: Seq<PluginEntry>, name: Seq<char>) -> int {
    choose|i: int| 0 <= i < s.len() && s[i].metadata.name@ == name
}

/// The entry registered under `name`.
pub open spec fn entry_of(s: Seq<PluginEntry>, name: Seq<char>) -> PluginEntry {
    s[index_of_name(s, name)]
}

/// No two entries share a name, so lookups by name are unambiguous.
pub open spec fn unique_names(s: Seq<PluginEntry>) -> bool {
    forall|i: int, j: int|
        0 <= i < s.len() && 0 <= j < s.len() && i != j ==> s[i].metadata.name@
            != s[j].metadata.name@
}

/// The registry after registering `e`: the entry under the same name,
/// if one exists, leaves the registry, and `e` is appended.
pub open spec fn register(s: Seq<PluginEntry>, e: PluginEntry) -> Seq<PluginEntry> {
    if has_name(s, e.metadata.name@) {
        remove_name(s, e.metadata.name@).push(e)
    } else {
        s.push(e)
    }
}

/// The registry after removing the entry under `name`. Meaningful only
/// where `has_name` holds.
pub open spec fn remove_name(s: Seq<PluginEntry>, name: Seq<char>) -> Seq<PluginEntry> {
    s.remove(index_of_name(s, name))
}

/// The cleanup owed for retiring one entry: destroy the instance
/// through the capability recorded at load, then release the library.
pub open spec fn retire_steps(e: PluginEntry) -> Seq<TeardownStep> {
    seq![
        TeardownStep::DestroyInstance { destroy: e.destroy, instance: e.instance },
        TeardownStep::ReleaseLibrary { library: e.library },
    ]
}

/// The cleanup owed for retiring every entry of `s`, entry by entry in
/// registry order, each instance destroyed immediately before its
/// library is released.
pub open spec fn full_teardown(s: Seq<PluginEntry>) -> Seq<TeardownStep> {
    Seq::new(
        2 * s.len(),
        |k: int|
            if k % 2 == 0 {
                TeardownStep::DestroyInstance {
                    destroy: s[k / 2].destroy,
                    instance: s[k / 2].instance,
                }
            } else {
                TeardownStep::ReleaseLibrary { library: s[k / 2].library }
            },
    )
}

/// An index that matches `name` in a registry with unique names is the
/// index every name-based spec speaks of.
pub proof fn lemma_index_of_name(s: Seq<PluginEntry>, name: Seq<char>, i: int)
    requires
        unique_names(s),
        0 <= i < s.len(),
        s[i].metadata.name@ == name,
    ensures
        has_name(s, name),
        index_of_name(s, name) == i,
        entry_of(s, name) == s[i],
{
    assert(has_name(s, name));
    let j = index_of_name(s, name);
    assert(0 <= j < s.len() && s[j].metadata.name@ == name);
    if i != j {
        assert(s[i].metadata.name@ != s[j].metadata.name@);
    }
}

/// Pushing an entry whose name is fresh registers it and touches no
/// other entry.
proof fn lemma_push_fresh(s: Seq<PluginEntry>, e: PluginEntry)
    requires
        unique_names(s),
        !has_name(s, e.metadata.name@),
    ensures
        unique_names(s.push(e)),
        has_name(s.push(e), e.metadata.name@),
        entry_of(s.push(e), e.metadata.name@) == e,
        forall|n: Seq<char>| #![trigger has_name(s.push(e), n)]
            n != e.metadata.name@ ==> has_name(s.push(e), n) == has_name(s, n),
        forall|n: Seq<char>| #![trigger entry_of(s.push(e), n)]
            n != e.metadata.name@ && has_name(s, n) ==> entry_of(s.push(e), n) == entry_of(s, n),
{
    let t = s.push(e);
    let name = e.metadata.name@;
    assert(forall|k: int|
        0 <= k < t.len() ==> t[k] == (if k < s.len() {
            s[k]
        } else {
            e
        }));
    assert(unique_names(t));
    lemma_index_of_name(t, name, s.len() as int);
    assert forall|n: Seq<char>| #![trigger has_name(t, n)]
        n != name implies has_name(t, n) == has_name(s, n) by {
        if has_name(t, n) {
            let k = choose|k: int| 0 <= k < t.len() && t[k].metadata.name@ == n;
            assert(k < s.len() && s[k].metadata.name@ == n);
        }
        if has_name(s, n) {
            let k = choose|k: int| 0 <= k < s.len() && s[k].metadata.name@ == n;
            assert(t[k].metadata.name@ == n);
        }
    }
    assert forall|n: Seq<char>| #![trigger entry_of(t, n)]
        n != name && has_name(s, n) implies entry_of(t, n) == entry_of(s, n) by {
        let j = index_of_name(s, n);
        assert(0 <= j < s.len() && s[j].metadata.name@ == n);
        lemma_index_of_name(t, n, j);
        lemma_index_of_name(s, n, j);
    }
}

/// Law: unloading a plugin removes exactly that plugin. Afterward
/// nothing is registered under its name any more, and every other
/// plugin is still registered with its entry unchanged.
pub proof fn lemma_remove_name(s: Seq<PluginEntry>, name: Seq<char>)
    requires
        unique_names(s),
        has_name(s, name),
    ensures
        unique_names(remove_name(s, name)),
        remove_name(s, name).len() == s.len() - 1,
        !has_name(remove_name(s, name), name),
        forall|n: Seq<char>| #![trigger has_name(remove_name(s, name), n)]
            n != name ==> has_name(remove_name(s, name), n) == has_name(s, n),
        forall|n: Seq<char>| #![trigger entry_of(remove_name(s, name), n)]
            n != name && has_name(s, n) ==> entry_of(remove_name(s, name), n) == entry_of(s, n),
{
    let i = index_of_name(s, name);
    assert(0 <= i < s.len() && s[i].metadata.name@ == name);
    let t = s.remove(i);
    assert(t.len() == s.len() - 1);
    assert(forall|k: int|
        0 <= k < t.len() ==> t[k] == (if k < i {
            s[k]
        } else {
            s[k + 1]
        }));
    assert(unique_names(t));
    assert forall|k: int| 0 <= k < t.len() implies t[k].metadata.name@ != name by {
        if k < i {
            assert(t[k] == s[k]);
        } else {
            assert(t[k] == s[k + 1]);
        }
    }
    assert forall|n: Seq<char>| #![trigger has_name(t, n)]
        n != name implies has_name(t, n) == has_name(s, n) by {
        if has_name(t, n) {
            let k = choose|k: int| 0 <= k < t.len() && t[k].metadata.name@ == n;
            if k < i {
                assert(s[k].metadata.name@ == n);
            } else {
                assert(s[k + 1].metadata.name@ == n);
            }
        }
        if has_name(s, n) {
            let j = choose|j: int| 0 <= j < s.len() && s[j].metadata.name@ == n;
            if j < i {
                assert(t[j].metadata.name@ == n);
            } else {
                assert(j != i);
                assert(t[j - 1].metadata.name@ == n);
            }
        }
    }
    assert forall|n: Seq<char>| #![trigger entry_of(t, n)]
        n != name && has_name(s, n) implies entry_of(t, n) == entry_of(s, n) by {
        let j = index_of_name(s, n);
        assert(0 <= j < s.len() && s[j].metadata.name@ == n);
        lemma_index_of_name(s, n, j);
        assert(j != i);
        if j < i {
            lemma_index_of_name(t, n, j);
        } else {
            lemma_index_of_name(t, n, j - 1);
        }
    }
}

/// Law: loading a plugin registers it under exactly the name its
/// metadata reports, and its entry is retrievable unchanged afterward.
/// Every other plugin keeps its entry. If the name was already taken,
/// the registry replaces the old entry and does not grow: it holds
/// exactly one entry under that name either way.
pub proof fn lemma_register(s: Seq<PluginEntry>, e: PluginEntry)
    requires
        unique_names(s),
    ensures
        unique_names(register(s, e)),
        has_name(register(s, e), e.metadata.name@),
        entry_of(register(s, e), e.metadata.name@) == e,
        register(s, e).len() == if has_name(s, e.metadata.name@) {
            s.len()
        } else {
            s.len() + 1
        },
        forall|n: Seq<char>| #![trigger has_name(register(s, e), n)]
            n != e.metadata.name@ ==> has_name(register(s, e), n) == has_name(s, n),
        forall|n: Seq<char>| #![trigger entry_of(register(s, e), n)]
            n != e.metadata.name@ && has_name(s, n) ==> entry_of(register(s, e), n) == entry_of(
                s,
                n,
            ),
{
    let name = e.metadata.name@;
    if has_name(s, name) {
        lemma_remove_name(s, name);
        lemma_push_fresh(remove_name(s, name), e);
        assert(register(s, e) == remove_name(s, name).push(e));
    } else {
        lemma_push_fresh(s, e);
    }
}

/// Law: the full teardown retires every remaining entry. For each, the
/// instance is destroyed through the destroy capability recorded at
/// load, and the owning library is released in the very next step,
/// never before the destruction.
pub proof fn lemma_full_teardown_covers(s: Seq<PluginEntry>, i: int)
    requires
        0 <= i < s.len(),
    ensures
        full_teardown(s).len() == 2 * s.len(),
        full_teardown(s)[2 * i] == (TeardownStep::DestroyInstance {
            destroy: s[i].destroy,
            instance: s[i].instance,
        }),
        full_teardown(s)[2 * i + 1] == (TeardownStep::ReleaseLibrary { library: s[i].library }),
{
    assert((2 * i) % 2 == 0 && (2 * i) / 2 == i) by (nonlinear_arith)
        requires i >= 0;
    assert((2 * i + 1) % 2 == 1 && (2 * i + 1) / 2 == i) by (nonlinear_arith)
        requires i >= 0;
}

/// The registry: plugin name -> (live instance, owning library), plus
/// the destroy capability each retirement must go through.
pub struct PluginManager {
    plugins: Vec<PluginEntry>,
}

impl View for PluginManager {
    type V = Seq<PluginEntry>;

    closed spec fn view(&self) -> Seq<PluginEntry> {
        self.plugins@
    }
}

impl PluginManager {
    /// The registry invariant: names are unique.
    pub open spec fn wf(&self) -> bool {
        unique_names(self@)
    }

    /// A fresh manager with an empty registry.
    pub fn new() -> (m: PluginManager)
        ensures
            m.wf(),
            m@ =~= Seq::<PluginEntry>::empty(),
    {
        PluginManager { plugins: Vec::new() }
    }

    /// How many plugins are currently registered.
    pub fn plugin_count(&self) -> (n: usize)
        ensures
            n == self@.len(),
    {
        self.plugins.len()
    }

    /// The position of the entry registered under `name`, if any.
    fn find_index(&self, name: &str) -> (r: Option<usize>)
        requires
            self.wf(),
        ensures
            match r {
                Some(i) => i < self@.len() && self@[i as int].metadata.name@ == name@
                    && has_name(self@, name@) && index_of_name(self@, name@) == i,
                None => !has_name(self@, name@),
            },
    {
        let key: String = name.to_owned();
        let n = self.plugins.len();
        let mut i: usize = 0;
        while i < n
            invariant
                self.wf(),
                n == self@.len(),
                i <= n,
                key@ == name@,
                forall|j: int| 0 <= j < i ==> self@[j].metadata.name@ != name@,
            decreases n - i,
        {
            if self.plugins[i].metadata.name == key {
                proof {
                    lemma_index_of_name(self@, name@, i as int);
                }
                return Some(i);
            }
            i += 1;
        }
        None
    }

    /// Commit a fully loaded plugin to the registry under the name its
    /// metadata reports. An entry already registered under that name is
    /// evicted and handed back without any teardown step: the caller
    /// receives the evicted entry still live, its destructor not run.
    ///
    /// This is the only registry mutation of the whole load path; every
    /// failure on the way to it leaves the registry untouched.
    pub fn load_plugin(&mut self, plugin: PluginEntry) -> (replaced: Option<PluginEntry>)
        requires
            old(self).wf(),
        ensures
            final(self).wf(),
            final(self)@ =~= register(old(self)@, plugin),
            match replaced {
                Some(prev) => has_name(old(self)@, plugin.metadata.name@) && prev == entry_of(
                    old(self)@,
                    plugin.metadata.name@,
                ),
                None => !has_name(old(self)@, plugin.metadata.name@),
            },
    {
        proof {
            lemma_register(old(self)@, plugin);
        }
        let r = self.find_index(plugin.metadata.name.as_str());
        match r {
            Some(i) => {
                let prev = self.plugins.remove(i);
                self.plugins.push(plugin);
                Some(prev)
            },
            None => {
                self.plugins.push(plugin);
                None
            },
        }
    }

    /// Remove the plugin registered under `name` and say how to retire
    /// it: destroy the instance through the destroy capability recorded
    /// at load time, then — and only then — release its library.
    pub fn unload_plugin(&mut self, name: &str) -> (r: Result<Vec<TeardownStep>, PluginError>)
        requires
            old(self).wf(),
        ensures
            final(self).wf(),
            match r {
                Ok(steps) => has_name(old(self)@, name@) && final(self)@ =~= remove_name(
                    old(self)@,
                    name@,
                ) && steps@ =~= retire_steps(entry_of(old(self)@, name@)),
                Err(e) => e == PluginError::NotFound && !has_name(old(self)@, name@)
                    && final(self)@ =~= old(self)@,
            },
    {
        match self.find_index(name) {
            Some(i) => {
                proof {
                    lemma_remove_name(self@, name@);
                }
                let e = self.plugins.remove(i);
                let mut steps: Vec<TeardownStep> = Vec::new();
                steps.push(TeardownStep::DestroyInstance {
                    destroy: e.destroy,
                    instance: e.instance,
                });
                steps.push(TeardownStep::ReleaseLibrary { library: e.library });
                Ok(steps)
            },
            None => Err(PluginError::NotFound),
        }
    }

    /// Route an invocation: find the instance registered under `name`
    /// and hand it the caller's input verbatim. The registry is not
    /// changed. The plugin's own computation is foreign code, so the
    /// host forwards the call and returns whatever the plugin produced,
    /// without interpretation.
    pub fn execute_plugin(&self, name: &str, input: &str) -> (r: Result<PluginCall, PluginError>)
        requires
            self.wf(),
        ensures
            match r {
                Ok(call) => has_name(self@, name@) && call.instance == entry_of(
                    self@,
                    name@,
                ).instance && call.input@ == input@,
                Err(e) => e == PluginError::NotFound && !has_name(self@, name@),
            },
    {
        match self.find_index(name) {
            Some(i) => Ok(
                PluginCall { instance: self.plugins[i].instance, input: input.to_owned() },
            ),
            None => Err(PluginError::NotFound),
        }
    }

    /// A copy of the metadata the plugin under `name` reported when it
    /// was loaded, or nothing if no plugin is registered under `name`.
    pub fn get_metadata(&self, name: &str) -> (r: Option<PluginMetadata>)
        requires
            self.wf(),
        ensures
            match r {
                Some(m) => has_name(self@, name@) && m == entry_of(self@, name@).metadata,
                None => !has_name(self@, name@),
            },
    {
        match self.find_index(name) {
            Some(i) => Some(self.plugins[i].metadata.clone()),
            None => None,
        }
    }

    /// Empty the registry and say how to retire every remaining entry:
    /// for each, destroy its instance through its own library's destroy
    /// capability, then release that library, in the order listed. The
    /// manager must be torn down through this before it is discarded,
    /// so that no instance outlives its library and none is abandoned.
    pub fn teardown(&mut self) -> (steps: Vec<TeardownStep>)
        requires
            old(self).wf(),
        ensures
            final(self).wf(),
            final(self)@ =~= Seq::<PluginEntry>::empty(),
            steps@ =~= full_teardown(old(self)@),
    {
        let mut steps: Vec<TeardownStep> = Vec::new();
        let n = self.plugins.len();
        let mut i: usize = 0;
        while i < n
            invariant
                self@ == old(self)@,
                n == self@.len(),
                i <= n,
                steps@ =~= full_teardown(self@.take(i as int)),
            decreases n - i,
        {
            steps.push(TeardownStep::DestroyInstance {
                destroy: self.plugins[i].destroy,
                instance: self.plugins[i].instance,
            });
            steps.push(TeardownStep::ReleaseLibrary { library: self.plugins[i].library });
            i += 1;
        }
        self.plugins.clear();
        steps
    }
}

} // verus!
