//! Tool registry: the definitions of the tools the agent may call, each
//! registered under a unique name and enabled or disabled.

use vstd::prelude::*;
use crate::text::str_eq;

verus! {

/// The definition of a tool as offered to the model.
#[derive(Debug)]
pub struct ToolDef {
    pub name: String,
    pub description: String,
    pub parameters: serde_json::Value,
    pub enabled: bool,
}

impl Clone for ToolDef {
    fn clone(&self) -> (r: Self)
        ensures
            r == *self,
    {
        ToolDef {
            name: self.name.clone(),
            description: self.description.clone(),
            parameters: self.parameters.clone(),
            enabled: self.enabled,
        }
    }
}

/// The position of the definition named `name`, or -1.
pub open spec fn name_index(defs: Seq<ToolDef>, name: Seq<char>) -> int
    decreases defs.len(),
{
    if defs.len() == 0 {
        -1
    } else if defs.last().name@ == name {
        defs.len() - 1
    } else {
        name_index(defs.drop_last(), name)
    }
}

/// The definition named `name`, if any.
pub open spec fn lookup(defs: Seq<ToolDef>, name: Seq<char>) -> Option<ToolDef> {
    let i = name_index(defs, name);
    if i >= 0 {
        Some(defs[i])
    } else {
        None
    }
}

/// No two definitions share a name.
pub open spec fn names_unique(defs: Seq<ToolDef>) -> bool {
    forall|i: int, j: int|
        0 <= i < defs.len() && 0 <= j < defs.len() && i != j ==> #[trigger] defs[i].name@
            != #[trigger] defs[j].name@
}

/// `defs` after registering `d`: it replaces the definition of the same name
/// in place, or is added last.
pub open spec fn after_insert(defs: Seq<ToolDef>, d: ToolDef) -> Seq<ToolDef> {
    let i = name_index(defs, d.name@);
    if i >= 0 {
        defs.update(i, d)
    } else {
        defs.push(d)
    }
}

/// `defs` without the definition named `name`.
pub open spec fn after_remove(defs: Seq<ToolDef>, name: Seq<char>) -> Seq<ToolDef> {
    let i = name_index(defs, name);
    if i >= 0 {
        defs.remove(i)
    } else {
        defs
    }
}

/// `defs` with the definition named `name` enabled or disabled.
pub open spec fn after_set_enabled(defs: Seq<ToolDef>, name: Seq<char>, enabled: bool) -> Seq<
    ToolDef,
> {
    let i = name_index(defs, name);
    if i >= 0 {
        defs.update(i, ToolDef { enabled, ..defs[i] })
    } else {
        defs
    }
}

/// The enabled definitions, in order.
pub open spec fn enabled_defs(defs: Seq<ToolDef>) -> Seq<ToolDef> {
    defs.filter(|d: ToolDef| d.enabled)
}

/// `name_index` finds the definition named `name` exactly when there is one.
pub proof fn lemma_name_index(defs: Seq<ToolDef>, name: Seq<char>)
    ensures
        -1 <= name_index(defs, name) < defs.len(),
        name_index(defs, name) >= 0 ==> defs[name_index(defs, name)].name@ == name,
        name_index(defs, name) < 0 ==> forall|k: int| 0 <= k < defs.len() ==> #[trigger] defs[k].name@ != name,
    decreases defs.len(),
{
    if defs.len() > 0 {
        lemma_name_index(defs.drop_last(), name);
        if defs.last().name@ != name {
            assert forall|k: int| 0 <= k < defs.len() - 1 implies #[trigger] defs[k].name@ == defs.drop_last()[k].name@ by {}
        }
    }
}

/// With unique names, the definition named `name` is the only one at its position.
pub proof fn lemma_unique_index(defs: Seq<ToolDef>, name: Seq<char>, k: int)
    requires
        names_unique(defs),
        0 <= k < defs.len(),
        defs[k].name@ == name,
    ensures
        name_index(defs, name) == k,
{
    lemma_name_index(defs, name);
}

/// The registered tool definitions.
pub struct ToolRegistry {
    defs: Vec<ToolDef>,
}

impl ToolRegistry {
    #[verifier::type_invariant]
    spec fn inv(&self) -> bool {
        names_unique(self.defs@)
    }

    /// The definitions, in registration order.
    pub closed spec fn defs(&self) -> Seq<ToolDef> {
        self.defs@
    }

    /// An empty registry.
    pub fn new() -> (r: Self)
        ensures
            r.defs() == Seq::<ToolDef>::empty(),
    {
        ToolRegistry { defs: Vec::new() }
    }

    fn position(&self, name: &str) -> (r: Option<usize>)
        ensures
            r is None ==> name_index(self.defs(), name@) == -1,
            r matches Some(i) ==> i == name_index(self.defs(), name@),
    {
        let mut i = self.defs.len();
        assert(self.defs@.take(i as int) =~= self.defs@);
        while i > 0
            invariant
                i <= self.defs@.len(),
                name_index(self.defs@, name@) == name_index(self.defs@.take(i as int), name@),
            decreases i,
        {
            let d = &self.defs[i - 1];
            assert(self.defs@.take(i as int).last() == *d);
            assert(self.defs@.take(i as int).drop_last() =~= self.defs@.take(i - 1));
            if str_eq(d.name.as_str(), name) {
                return Some(i - 1);
            }
            i -= 1;
        }
        None
    }

    /// Registers `def` under its name, replacing any definition of that name.
    pub fn register_def(&mut self, def: ToolDef)
        ensures
            final(self).defs() == after_insert(old(self).defs(), def),
            names_unique(final(self).defs()),
    {
        proof {
            use_type_invariant(&*self);
            lemma_name_index(self.defs@, def.name@);
        }
        let ghost d = def;
        match self.position(def.name.as_str()) {
            Some(i) => {
                let mut defs: Vec<ToolDef> = Vec::new();
                std::mem::swap(&mut defs, &mut self.defs);
                defs.set(i, def);
                self.defs = defs;
                assert forall|a: int, b: int|
                    0 <= a < self.defs@.len() && 0 <= b < self.defs@.len() && a != b implies #[trigger] self.defs@[a].name@
                    != #[trigger] self.defs@[b].name@ by {
                    assert(old(self).defs@[i as int].name@ == d.name@);
                    if a != i && b != i {
                        assert(self.defs@[a] == old(self).defs@[a]);
                        assert(self.defs@[b] == old(self).defs@[b]);
                    }
                    if a == i {
                        assert(old(self).defs@[b].name@ != old(self).defs@[a].name@);
                    }
                    if b == i {
                        assert(old(self).defs@[a].name@ != old(self).defs@[b].name@);
                    }
                }
            },
            None => {
                let mut defs: Vec<ToolDef> = Vec::new();
                std::mem::swap(&mut defs, &mut self.defs);
                defs.push(def);
                self.defs = defs;
                assert forall|a: int, b: int|
                    0 <= a < self.defs@.len() && 0 <= b < self.defs@.len() && a != b implies #[trigger] self.defs@[a].name@
                    != #[trigger] self.defs@[b].name@ by {
                    let n = old(self).defs@.len() as int;
                    if a < n && b < n {
                        assert(self.defs@[a] == old(self).defs@[a]);
                        assert(self.defs@[b] == old(self).defs@[b]);
                    } else if a == n {
                        assert(self.defs@[b] == old(self).defs@[b]);
                    } else {
                        assert(self.defs@[a] == old(self).defs@[a]);
                    }
                }
            },
        }
    }

    /// Registers a tool from its JSON Schema, enabled; this always succeeds.
    pub fn register_dynamic(&mut self, name: &str, description: &str, parameters: serde_json::Value) -> (r: Result<(), String>)
        ensures
            r is Ok,
            exists|d: ToolDef|
                {
                    &&& #[trigger] d.name@ == name@
                    &&& d.description@ == description@
                    &&& d.parameters == parameters
                    &&& d.enabled
                    &&& final(self).defs() == after_insert(old(self).defs(), d)
                },
    {
        let def = ToolDef {
            name: name.to_owned(),
            description: description.to_owned(),
            parameters,
            enabled: true,
        };
        let ghost d = def;
        self.register_def(def);
        assert(d.name@ == name@);
        Ok(())
    }

    /// The definition named `name`, if any.
    pub fn get_def(&self, name: &str) -> (r: Option<ToolDef>)
        ensures
            r == lookup(self.defs(), name@),
    {
        proof {
            lemma_name_index(self.defs@, name@);
        }
        match self.position(name) {
            Some(i) => Some(self.defs[i].clone()),
            None => None,
        }
    }

    /// Whether a definition is named `name`.
    pub fn contains(&self, name: &str) -> (r: bool)
        ensures
            r == (lookup(self.defs(), name@) is Some),
    {
        self.position(name).is_some()
    }

    /// All definitions, in registration order.
    pub fn list(&self) -> (r: Vec<ToolDef>)
        ensures
            r@ == self.defs(),
            names_unique(r@),
    {
        proof {
            use_type_invariant(self);
        }
        let n = self.defs.len();
        let mut out: Vec<ToolDef> = Vec::new();
        for i in 0..n
            invariant
                n == self.defs@.len(),
                out@ == self.defs@.take(i as int),
        {
            out.push(self.defs[i].clone());
            assert(self.defs@.take(i + 1) =~= self.defs@.take(i as int).push(self.defs@[i as int]));
        }
        assert(self.defs@.take(n as int) =~= self.defs@);
        out
    }

    /// The enabled definitions, in registration order.
    pub fn list_enabled(&self) -> (r: Vec<ToolDef>)
        ensures
            r@ == enabled_defs(self.defs()),
    {
        let n = self.defs.len();
        let mut out: Vec<ToolDef> = Vec::new();
        for i in 0..n
            invariant
                n == self.defs@.len(),
                out@ == enabled_defs(self.defs@.take(i as int)),
        {
            assert(self.defs@.take(i + 1).drop_last() =~= self.defs@.take(i as int));
            reveal_with_fuel(Seq::filter, 1);
            if self.defs[i].enabled {
                out.push(self.defs[i].clone());
            }
        }
        assert(self.defs@.take(n as int) =~= self.defs@);
        out
    }

    fn set_enabled(&mut self, name: &str, enabled: bool)
        ensures
            final(self).defs() == after_set_enabled(old(self).defs(), name@, enabled),
            names_unique(final(self).defs()),
    {
        proof {
            use_type_invariant(&*self);
            lemma_name_index(self.defs@, name@);
        }
        match self.position(name) {
            Some(i) => {
                let mut d = self.defs[i].clone();
                d.enabled = enabled;
                let mut defs: Vec<ToolDef> = Vec::new();
                std::mem::swap(&mut defs, &mut self.defs);
                defs.set(i, d);
                self.defs = defs;
                assert forall|a: int, b: int|
                    0 <= a < self.defs@.len() && 0 <= b < self.defs@.len() && a != b implies #[trigger] self.defs@[a].name@
                    != #[trigger] self.defs@[b].name@ by {
                    assert(self.defs@[a].name@ == old(self).defs@[a].name@);
                    assert(self.defs@[b].name@ == old(self).defs@[b].name@);
                }
            },
            None => {},
        }
    }

    /// Enables the definition named `name`, if any.
    pub fn enable(&mut self, name: &str)
        ensures
            final(self).defs() == after_set_enabled(old(self).defs(), name@, true),
            names_unique(final(self).defs()),
    {
        self.set_enabled(name, true)
    }

    /// Disables the definition named `name`, if any.
    pub fn disable(&mut self, name: &str)
        ensures
            final(self).defs() == after_set_enabled(old(self).defs(), name@, false),
            names_unique(final(self).defs()),
    {
        self.set_enabled(name, false)
    }

    /// Removes the definition named `name`, if any.
    pub fn unregister(&mut self, name: &str)
        ensures
            final(self).defs() == after_remove(old(self).defs(), name@),
            names_unique(final(self).defs()),
    {
        proof {
            use_type_invariant(&*self);
            lemma_name_index(self.defs@, name@);
        }
        match self.position(name) {
            Some(i) => {
                let mut defs: Vec<ToolDef> = Vec::new();
                std::mem::swap(&mut defs, &mut self.defs);
                defs.remove(i);
                self.defs = defs;
                assert forall|a: int, b: int|
                    0 <= a < self.defs@.len() && 0 <= b < self.defs@.len() && a != b implies #[trigger] self.defs@[a].name@
                    != #[trigger] self.defs@[b].name@ by {
                    let oa = if a < i { a } else { a + 1 };
                    let ob = if b < i { b } else { b + 1 };
                    assert(self.defs@[a] == old(self).defs@[oa]);
                    assert(self.defs@[b] == old(self).defs@[ob]);
                }
            },
            None => {},
        }
    }
}

impl Clone for ToolRegistry {
    fn clone(&self) -> (r: Self)
        ensures
            r.defs() == self.defs(),
    {
        proof {
            use_type_invariant(self);
        }
        ToolRegistry { defs: self.list() }
    }
}

impl Default for ToolRegistry {
    fn default() -> (r: Self)
        ensures
            r.defs() == Seq::<ToolDef>::empty(),
    {
        Self::new()
    }
}

// ---------------------------------------------------------------------------
// Laws
// ---------------------------------------------------------------------------

/// A definition just registered is the one found under its name.
pub proof fn law_register_then_lookup(defs: Seq<ToolDef>, d: ToolDef)
    requires
        names_unique(defs),
    ensures
        lookup(after_insert(defs, d), d.name@) == Some(d),
        names_unique(after_insert(defs, d)),
{
    lemma_name_index(defs, d.name@);
    let after = after_insert(defs, d);
    let i = name_index(defs, d.name@);
    if i >= 0 {
        assert(after[i].name@ == d.name@);
        assert forall|a: int, b: int|
            0 <= a < after.len() && 0 <= b < after.len() && a != b implies #[trigger] after[a].name@
            != #[trigger] after[b].name@ by {
            if a != i && b != i {
                assert(after[a] == defs[a] && after[b] == defs[b]);
            } else if a == i {
                assert(defs[b].name@ != defs[i].name@);
            } else {
                assert(defs[a].name@ != defs[i].name@);
            }
        }
        lemma_unique_index(after, d.name@, i);
    } else {
        let n = defs.len() as int;
        assert forall|a: int, b: int|
            0 <= a < after.len() && 0 <= b < after.len() && a != b implies #[trigger] after[a].name@
            != #[trigger] after[b].name@ by {
            if a < n && b < n {
                assert(after[a] == defs[a] && after[b] == defs[b]);
            } else if a == n {
                assert(after[b] == defs[b]);
            } else {
                assert(after[a] == defs[a]);
            }
        }
        lemma_unique_index(after, d.name@, n);
    }
}

/// Once unregistered, a name is found no more.
pub proof fn law_unregister_then_lookup(defs: Seq<ToolDef>, name: Seq<char>)
    requires
        names_unique(defs),
    ensures
        lookup(after_remove(defs, name), name) is None,
{
    lemma_name_index(defs, name);
    let after = after_remove(defs, name);
    let i = name_index(defs, name);
    lemma_name_index(after, name);
    if name_index(after, name) >= 0 {
        let k = name_index(after, name);
        if i >= 0 {
            let ok = if k < i { k } else { k + 1 };
            assert(after[k] == defs[ok]);
            assert(defs[ok].name@ == defs[i].name@);
        } else {
            assert(after[k] == defs[k]);
        }
    }
}

/// Enabling or disabling one tool changes no other definition, and the
/// definition found under its name then has exactly that state.
pub proof fn law_set_enabled_local(defs: Seq<ToolDef>, name: Seq<char>, enabled: bool, other: Seq<char>)
    requires
        names_unique(defs),
    ensures
        lookup(after_set_enabled(defs, name, enabled), name) matches Some(d) ==> d.enabled == enabled,
        lookup(defs, name) is Some <==> lookup(after_set_enabled(defs, name, enabled), name) is Some,
        other != name ==> lookup(after_set_enabled(defs, name, enabled), other) == lookup(defs, other),
{
    lemma_name_index(defs, name);
    lemma_name_index(defs, other);
    let after = after_set_enabled(defs, name, enabled);
    let i = name_index(defs, name);
    assert forall|k: int| 0 <= k < after.len() implies #[trigger] after[k].name@ == defs[k].name@ by {}
    assert forall|a: int, b: int|
        0 <= a < after.len() && 0 <= b < after.len() && a != b implies #[trigger] after[a].name@
        != #[trigger] after[b].name@ by {
        assert(after[a].name@ == defs[a].name@);
        assert(after[b].name@ == defs[b].name@);
    }
    lemma_name_index(after, name);
    lemma_name_index(after, other);
    if i >= 0 {
        lemma_unique_index(after, name, i);
    }
    let j = name_index(defs, other);
    if j >= 0 {
        lemma_unique_index(after, other, j);
    }
    if name_index(after, other) >= 0 {
        lemma_unique_index(defs, other, name_index(after, other));
    }
}

/// The enabled definitions are exactly the registered ones that are enabled.
pub proof fn law_enabled_are_registered(defs: Seq<ToolDef>, d: ToolDef)
    ensures
        enabled_defs(defs).contains(d) <==> (defs.contains(d) && d.enabled),
{
    let f = |x: ToolDef| x.enabled;
    if defs.filter(f).contains(d) {
        defs.lemma_filter_contains_rev(f, d);
        let k = choose|k: int| 0 <= k < defs.filter(f).len() && defs.filter(f)[k] == d;
        defs.lemma_filter_pred(f, k);
    }
    if defs.contains(d) && d.enabled {
        let k = choose|k: int| 0 <= k < defs.len() && defs[k] == d;
        defs.lemma_filter_contains(f, k);
    }
}

/// Registering an enabled definition `d` (as `register_dynamic` does) leaves
/// exactly one definition of its name, `d` itself, among all definitions,
/// and `d` among the enabled ones.
pub proof fn law_registered_listed_once(defs: Seq<ToolDef>, d: ToolDef)
    requires
        names_unique(defs),
        d.enabled,
    ensures
        after_insert(defs, d).contains(d),
        forall|k: int|
            0 <= k < after_insert(defs, d).len() && (#[trigger] after_insert(defs, d)[k]).name@
                == d.name@ ==> after_insert(defs, d)[k] == d,
        enabled_defs(after_insert(defs, d)).contains(d),
{
    law_register_then_lookup(defs, d);
    let after = after_insert(defs, d);
    lemma_name_index(after, d.name@);
    let i = name_index(after, d.name@);
    assert(after[i] == d);
    assert forall|k: int| 0 <= k < after.len() && (#[trigger] after[k]).name@ == d.name@ implies after[k]
        == d by {
        lemma_unique_index(after, d.name@, k);
    }
    after.lemma_filter_contains(|x: ToolDef| x.enabled, i);
}

} // verus!
