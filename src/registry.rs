use vstd::prelude::*;
use wasmer::Function;

verus! {

/// The (namespace, name) pair under which a host function is offered to sandboxed code.
pub struct ImportKey {
    pub namespace: String,
    pub name: String,
}

impl ImportKey {
    pub open spec fn view(&self) -> (Seq<char>, Seq<char>) {
        (self.namespace@, self.name@)
    }

    pub fn new(namespace: &str, name: &str) -> (r: ImportKey)
        ensures
            r@ == (namespace@, name@),
    {
        ImportKey { namespace: namespace.to_owned(), name: name.to_owned() }
    }

    pub fn same_as(&self, other: &ImportKey) -> (r: bool)
        ensures
            r == (self@ == other@),
    {
        self.namespace == other.namespace && self.name == other.name
    }

    pub fn duplicate(&self) -> (r: ImportKey)
        ensures
            r@ == self@,
    {
        ImportKey { namespace: self.namespace.clone(), name: self.name.clone() }
    }
}

pub open spec fn keys_view(keys: Seq<ImportKey>) -> Seq<(Seq<char>, Seq<char>)> {
    keys.map_values(|k: ImportKey| k@)
}

/// No two entries of `s` are equal.
pub open spec fn all_distinct<T>(s: Seq<T>) -> bool {
    forall|i: int, j: int| 0 <= i < s.len() && 0 <= j < s.len() && i != j ==> s[i] != s[j]
}

#[derive(Debug, PartialEq, Eq, Clone, Copy, Structural)]
pub enum RegistryError {
    DuplicateImport,
    FrozenRegistry,
}

/// The finished set of bindings, ready to satisfy a module's imports.
pub struct ImportTable {
    keys: Vec<ImportKey>,
    functions: Vec<Function>,
}

impl ImportTable {
    pub closed spec fn keys_spec(&self) -> Seq<(Seq<char>, Seq<char>)> {
        keys_view(self.keys@)
    }

    pub closed spec fn wf(&self) -> bool {
        &&& self.keys@.len() == self.functions@.len()
        &&& all_distinct(self.keys_spec())
    }

    /// A table with no bindings.
    pub fn empty() -> (r: ImportTable)
        ensures
            r.wf(),
            r.keys_spec() == Seq::<(Seq<char>, Seq<char>)>::empty(),
    {
        let r = ImportTable { keys: Vec::new(), functions: Vec::new() };
        assert(r.keys_spec() =~= Seq::<(Seq<char>, Seq<char>)>::empty());
        r
    }

    pub fn len(&self) -> (r: usize)
        requires
            self.wf(),
        ensures
            r == self.keys_spec().len(),
    {
        self.keys.len()
    }

    /// Position of the binding registered under `key`, if there is one.
    pub fn position_of(&self, key: &ImportKey) -> (r: Option<usize>)
        requires
            self.wf(),
        ensures
            r is None <==> !self.keys_spec().contains(key@),
            r matches Some(i) ==> i < self.keys_spec().len() && self.keys_spec()[i as int] == key@,
    {
        let mut i: usize = 0;
        while i < self.keys.len()
            invariant
                self.wf(),
                i <= self.keys@.len(),
                forall|j: int| 0 <= j < i ==> self.keys_spec()[j] != key@,
            decreases self.keys@.len() - i,
        {
            if self.keys[i].same_as(key) {
                assert(self.keys_spec()[i as int] == self.keys@[i as int]@);
                return Some(i);
            }
            i = i + 1;
        }
        proof {
            if self.keys_spec().contains(key@) {
                let j = choose|j: int| 0 <= j < self.keys_spec().len() && self.keys_spec()[j] == key@;
                assert(self.keys_spec()[j] != key@);
            }
        }
        None
    }

    pub fn key_at(&self, i: usize) -> (r: &ImportKey)
        requires
            self.wf(),
            i < self.keys_spec().len(),
        ensures
            r@ == self.keys_spec()[i as int],
    {
        &self.keys[i]
    }

    pub fn function_at(&self, i: usize) -> (r: &Function)
        requires
            self.wf(),
            i < self.keys_spec().len(),
    {
        &self.functions[i]
    }
}

/// Collects host functions under their (namespace, name) until it is built, then refuses changes.
pub struct ImportRegistry {
    table: ImportTable,
    frozen: bool,
}

impl ImportRegistry {
    pub closed spec fn keys_spec(&self) -> Seq<(Seq<char>, Seq<char>)> {
        self.table.keys_spec()
    }

    pub closed spec fn is_frozen(&self) -> bool {
        self.frozen
    }

    pub closed spec fn wf(&self) -> bool {
        self.table.wf()
    }

    pub fn new() -> (r: ImportRegistry)
        ensures
            r.wf(),
            !r.is_frozen(),
            r.keys_spec() == Seq::<(Seq<char>, Seq<char>)>::empty(),
    {
        ImportRegistry { table: ImportTable::empty(), frozen: false }
    }

    /// Adds one binding; a key that is already present, or a frozen registry, is refused.
    pub fn register(&mut self, namespace: &str, name: &str, function: Function) -> (r: Result<(), RegistryError>)
        requires
            old(self).wf(),
        ensures
            final(self).wf(),
            final(self).is_frozen() == old(self).is_frozen(),
            old(self).is_frozen() ==> r == Err::<(), RegistryError>(RegistryError::FrozenRegistry),
            !old(self).is_frozen() && old(self).keys_spec().contains((namespace@, name@))
                ==> r == Err::<(), RegistryError>(RegistryError::DuplicateImport),
            !old(self).is_frozen() && !old(self).keys_spec().contains((namespace@, name@))
                ==> r is Ok && final(self).keys_spec() == old(self).keys_spec().push((namespace@, name@)),
            r is Ok ==> final(self).keys_spec().contains((namespace@, name@)),
            r is Err ==> final(self).keys_spec() == old(self).keys_spec(),
    {
        if self.frozen {
            return Err(RegistryError::FrozenRegistry);
        }
        let key = ImportKey::new(namespace, name);
        match self.table.position_of(&key) {
            Some(_) => Err(RegistryError::DuplicateImport),
            None => {
                let ghost before = self.table.keys@;
                self.table.keys.push(key);
                self.table.functions.push(function);
                proof {
                    assert(keys_view(self.table.keys@) =~= keys_view(before).push((namespace@, name@)));
                    assert(self.keys_spec()[self.keys_spec().len() - 1] == (namespace@, name@));
                }
                Ok(())
            },
        }
    }

    /// Freezes the registry and hands out its bindings; a second build is refused.
    pub fn build(&mut self) -> (r: Result<ImportTable, RegistryError>)
        requires
            old(self).wf(),
        ensures
            final(self).wf(),
            final(self).is_frozen(),
            old(self).is_frozen() ==> r == Err::<ImportTable, RegistryError>(RegistryError::FrozenRegistry),
            !old(self).is_frozen() ==> (r matches Ok(t) && t.wf() && t.keys_spec() == old(self).keys_spec()),
    {
        if self.frozen {
            return Err(RegistryError::FrozenRegistry);
        }
        self.frozen = true;
        let mut table = ImportTable::empty();
        core::mem::swap(&mut table, &mut self.table);
        Ok(table)
    }
}

} // verus!
