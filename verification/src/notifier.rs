//! A registry of named responders.
//!
//! A notifier keeps responders under names and remembers which names are
//! switched off. It never calls a responder itself: `notify` hands out the
//! responders that are due, and the caller calls them.

use vstd::hash_set::StringHashSet;
use vstd::prelude::*;

verus! {

/// A callback as a notifier stores it.
pub struct Responder<F> {
    f: F,
}

impl<F> View for Responder<F> {
    type V = F;

    closed spec fn view(&self) -> F {
        self.f
    }
}

impl<F> Responder<F> {
    /// Creates a new `Responder` that holds the given function.
    pub fn new(f: F) -> (r: Self)
        ensures
            r@ == f,
    {
        Responder { f }
    }

    /// The function held.
    pub fn get(&self) -> (f: &F)
        ensures
            *f == self@,
    {
        &self.f
    }
}

/// Manages responders by name.
pub struct Notifier<R> {
    responders: Vec<(String, R)>,
    disable: StringHashSet,
}

/// The state of a notifier as the contracts see it.
pub struct Registry<R> {
    /// The registered names with their responders, in the order in which
    /// the names were first registered.
    pub entries: Seq<(Seq<char>, R)>,
    /// The names that are switched off, registered or not.
    pub disabled: Set<Seq<char>>,
}

/// The position of the entry for `name` at or after `start`.
pub open spec fn entry_from<R>(entries: Seq<(Seq<char>, R)>, name: Seq<char>, start: int) -> Option<
    int,
>
    decreases entries.len() - start,
{
    if start < 0 || start >= entries.len() {
        None
    } else if entries[start].0 == name {
        Some(start)
    } else {
        entry_from(entries, name, start + 1)
    }
}

impl<R> Registry<R> {
    /// The position of the entry for `name`.
    pub open spec fn position(self, name: Seq<char>) -> Option<int> {
        entry_from(self.entries, name, 0)
    }

    /// A responder is registered under `name`.
    pub open spec fn has(self, name: Seq<char>) -> bool {
        self.position(name) is Some
    }

    /// The registry with `responder` under `name`: in place of the one
    /// that was there, or after all others.
    pub open spec fn with(self, name: Seq<char>, responder: R) -> Registry<R> {
        match self.position(name) {
            Some(i) => Registry { entries: self.entries.update(i, (name, responder)), ..self },
            None => Registry { entries: self.entries.push((name, responder)), ..self },
        }
    }

    /// The registry without the responder under `name`.
    pub open spec fn without(self, name: Seq<char>) -> Registry<R> {
        match self.position(name) {
            Some(i) => Registry { entries: self.entries.remove(i), ..self },
            None => self,
        }
    }

    /// The responders among the first `i` entries whose names are not
    /// switched off.
    pub open spec fn due_upto(self, i: int) -> Seq<R>
        decreases i,
    {
        if i <= 0 {
            Seq::empty()
        } else {
            let before = self.due_upto(i - 1);
            if self.disabled.contains(self.entries[i - 1].0) {
                before
            } else {
                before.push(self.entries[i - 1].1)
            }
        }
    }

    /// The responders whose names are not switched off, in the order of
    /// their registration.
    pub open spec fn due(self) -> Seq<R> {
        self.due_upto(self.entries.len() as int)
    }
}

/// The names of the stored responders as sequences of characters.
pub open spec fn entries_of<R>(responders: Seq<(String, R)>) -> Seq<(Seq<char>, R)> {
    Seq::new(responders.len(), |i: int| (responders[i].0@, responders[i].1))
}

impl<R> View for Notifier<R> {
    type V = Registry<R>;

    closed spec fn view(&self) -> Registry<R> {
        Registry { entries: entries_of(self.responders@), disabled: self.disable@ }
    }
}

impl<R> Notifier<R> {
    /// Creates a new `Notifier` without responders and with no name
    /// switched off.
    pub fn new() -> (notifier: Self)
        ensures
            notifier@ == (Registry::<R> { entries: Seq::empty(), disabled: Set::empty() }),
            distinct(notifier@.entries),
    {
        let notifier = Notifier { responders: Vec::new(), disable: StringHashSet::new() };
        assert(notifier@.entries =~= Seq::empty());
        notifier
    }

    /// No name is registered twice.
    #[verifier::type_invariant]
    spec fn names_distinct(self) -> bool {
        distinct(entries_of(self.responders@))
    }

    /// Hands the responders and the names that are switched off out to be
    /// changed and leaves none behind; who takes them puts them back.
    fn take(&mut self) -> (parts: (Vec<(String, R)>, StringHashSet))
        ensures
            entries_of(parts.0@) == old(self)@.entries,
            parts.1@ == old(self)@.disabled,
            distinct(old(self)@.entries),
    {
        proof {
            use_type_invariant(&*self);
        }
        let mut spare = Notifier { responders: Vec::new(), disable: StringHashSet::new() };
        core::mem::swap(self, &mut spare);
        let Notifier { responders, disable } = spare;
        (responders, disable)
    }

    /// The position of the responder registered under `name`.
    fn find(&self, name: &str) -> (found: Option<usize>)
        ensures
            match found {
                Some(i) => self@.position(name@) == Some(i as int) && i < self.responders@.len(),
                None => self@.position(name@) is None,
            },
    {
        let key = name.to_owned();
        let mut i: usize = 0;
        while i < self.responders.len()
            invariant
                i <= self.responders@.len(),
                key@ == name@,
                self@.position(name@) == entry_from(self@.entries, name@, i as int),
            decreases self.responders.len() - i,
        {
            if self.responders[i].0 == key {
                return Some(i);
            }
            i += 1;
        }
        None
    }

    /// Checks if the `Notifier` has a responder with the given name.
    pub fn has(&self, name: &str) -> (found: bool)
        ensures
            found == self@.has(name@),
    {
        self.find(name).is_some()
    }

    /// Checks if the given name is switched off.
    pub fn disabled(&self, name: &str) -> (off: bool)
        ensures
            off == self@.disabled.contains(name@),
    {
        self.disable.contains(name)
    }

    /// Switches the responder with the given name off. A name under which
    /// nothing is registered is left as it is.
    pub fn disable(&mut self, name: &str)
        ensures
            final(self)@.entries == old(self)@.entries,
            final(self)@.disabled == if old(self)@.has(name@) {
                old(self)@.disabled.insert(name@)
            } else {
                old(self)@.disabled
            },
            distinct(final(self)@.entries),
    {
        let known = self.has(name);
        let (responders, mut disable) = self.take();
        if known {
            disable.insert(name.to_owned());
        }
        *self = Notifier { responders, disable };
    }

    /// Switches the given name on again.
    pub fn enable(&mut self, name: &str)
        ensures
            final(self)@ == (Registry { disabled: old(self)@.disabled.remove(name@), ..old(self)@ }),
            distinct(final(self)@.entries),
    {
        let (responders, mut disable) = self.take();
        disable.remove(name);
        *self = Notifier { responders, disable };
    }

    /// Registers `f` under `name`, in place of a responder that was
    /// registered under that name before.
    pub fn add(&mut self, name: &str, f: R)
        ensures
            final(self)@ == old(self)@.with(name@, f),
            final(self)@.has(name@),
            distinct(final(self)@.entries),
    {
        let found = self.find(name);
        let (mut responders, disable) = self.take();
        proof {
            law_add(old(self)@, name@, f, name@);
        }
        match found {
            Some(i) => {
                responders.set(i, (name.to_owned(), f));
            },
            None => {
                responders.push((name.to_owned(), f));
            },
        }
        assert(entries_of(responders@) =~= old(self)@.with(name@, f).entries);
        *self = Notifier { responders, disable };
    }

    /// Removes the responder registered under `name`, so that the name is
    /// unknown afterwards. Whether the name is switched off does not change.
    pub fn remove(&mut self, name: &str)
        ensures
            final(self)@ == old(self)@.without(name@),
            !final(self)@.has(name@),
            distinct(final(self)@.entries),
    {
        let found = self.find(name);
        let (mut responders, disable) = self.take();
        proof {
            law_remove(old(self)@, name@, name@);
        }
        match found {
            Some(i) => {
                responders.remove(i);
            },
            None => {},
        }
        assert(entries_of(responders@) =~= old(self)@.without(name@).entries);
        *self = Notifier { responders, disable };
    }

    /// The responders to call for a notification: all but those whose
    /// names are switched off.
    pub fn notify(&self) -> (due: Vec<&R>)
        ensures
            due@.len() == self@.due().len(),
            forall|k: int| 0 <= k < due@.len() ==> *(#[trigger] due@[k]) == self@.due()[k],
    {
        let mut due: Vec<&R> = Vec::new();
        let mut i: usize = 0;
        while i < self.responders.len()
            invariant
                i <= self.responders@.len(),
                due@.len() == self@.due_upto(i as int).len(),
                forall|k: int|
                    0 <= k < due@.len() ==> *(#[trigger] due@[k]) == self@.due_upto(i as int)[k],
            decreases self.responders.len() - i,
        {
            if !self.disable.contains(self.responders[i].0.as_str()) {
                due.push(&self.responders[i].1);
            }
            i += 1;
        }
        due
    }
}

/// No name is registered twice.
pub open spec fn distinct<R>(entries: Seq<(Seq<char>, R)>) -> bool {
    forall|i: int, j: int|
        0 <= i < j < entries.len() ==> (#[trigger] entries[i]).0 != (#[trigger] entries[j]).0
}

/// The entry found for a name is an entry of that name, and no entry
/// before it has the name; a name that is not found has no entry.
pub proof fn lemma_entry_from<R>(entries: Seq<(Seq<char>, R)>, name: Seq<char>, start: int)
    requires
        0 <= start,
    ensures
        match entry_from(entries, name, start) {
            Some(i) => start <= i < entries.len() && entries[i].0 == name && forall|j: int|
                start <= j < i ==> (#[trigger] entries[j]).0 != name,
            None => forall|j: int| start <= j < entries.len() ==> (#[trigger] entries[j]).0 != name,
        },
    decreases entries.len() - start,
{
    if start < entries.len() && entries[start].0 != name {
        lemma_entry_from(entries, name, start + 1);
    }
}

/// Registering a responder makes its name known and keeps the names of a
/// registry distinct; every other name is known afterwards exactly if it
/// was known before.
pub proof fn law_add<R>(registry: Registry<R>, name: Seq<char>, responder: R, other: Seq<char>)
    requires
        distinct(registry.entries),
    ensures
        distinct(registry.with(name, responder).entries),
        registry.with(name, responder).has(name),
        other != name ==> registry.with(name, responder).has(other) == registry.has(other),
{
    let after = registry.with(name, responder);
    lemma_entry_from(registry.entries, name, 0);
    lemma_entry_from(after.entries, name, 0);
    lemma_entry_from(registry.entries, other, 0);
    lemma_entry_from(after.entries, other, 0);
    let at = match registry.position(name) {
        Some(i) => i,
        None => registry.entries.len() as int,
    };
    assert(after.entries[at].0 == name);
    if other != name && registry.position(other) is Some {
        let k = registry.position(other)->0;
        assert(after.entries[k].0 == other);
    }
}

/// Removing a name makes it unknown and keeps the names of a registry
/// distinct; every other name is known afterwards exactly if it was known
/// before.
pub proof fn law_remove<R>(registry: Registry<R>, name: Seq<char>, other: Seq<char>)
    requires
        distinct(registry.entries),
    ensures
        distinct(registry.without(name).entries),
        !registry.without(name).has(name),
        other != name ==> registry.without(name).has(other) == registry.has(other),
{
    let after = registry.without(name);
    lemma_entry_from(registry.entries, name, 0);
    lemma_entry_from(after.entries, name, 0);
    lemma_entry_from(registry.entries, other, 0);
    lemma_entry_from(after.entries, other, 0);
    if registry.position(name) is Some {
        let i = registry.position(name)->0;
        assert forall|k: int| 0 <= k < after.entries.len() implies #[trigger] after.entries[k]
            == registry.entries[if k < i { k } else { k + 1 }] by {}
        if other != name && registry.position(other) is Some {
            let k = registry.position(other)->0;
            assert(after.entries[if k < i { k } else { k - 1 }].0 == other);
        }
    }
}

/// A notification reaches no responder whose name is switched off and
/// every responder whose name is not: among the first `i` entries, those
/// due are as many as those whose names are not switched off.
pub proof fn law_due_count<R>(registry: Registry<R>, i: int)
    requires
        0 <= i <= registry.entries.len(),
    ensures
        registry.due_upto(i).len() <= i,
        (forall|j: int| 0 <= j < i ==> registry.disabled.contains((#[trigger] registry.entries[j]).0))
            ==> registry.due_upto(i).len() == 0,
        (forall|j: int| 0 <= j < i ==> !registry.disabled.contains((#[trigger] registry.entries[j]).0))
            ==> registry.due_upto(i).len() == i,
    decreases i,
{
    if i > 0 {
        law_due_count(registry, i - 1);
    }
}

} // verus!
