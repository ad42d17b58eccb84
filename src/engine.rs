use vstd::prelude::*;
use crate::registry::{ImportKey, ImportTable, keys_view};
use wasmer::sys::Cranelift;
use wasmer::{AsStoreMut, ExportError, Function, Imports, Instance, Module, Store, StoreMut};

verus! {

#[verifier::external_type_specification]
#[verifier::external_body]
pub struct ExStore(Store);

#[verifier::external_type_specification]
#[verifier::external_body]
pub struct ExStoreMut<'a>(StoreMut<'a>);

#[verifier::external_type_specification]
#[verifier::external_body]
pub struct ExModule(Module);

#[verifier::external_type_specification]
#[verifier::external_body]
pub struct ExInstance(Instance);

#[verifier::external_type_specification]
#[verifier::external_body]
pub struct ExFunction(Function);

#[verifier::external_type_specification]
#[verifier::external_body]
pub struct ExImports(Imports);

/// The export names and the import keys declared by the WebAssembly module that `source`
/// (text or binary form) describes, or `None` where it describes no valid module.
pub uninterp spec fn wasm_interface(source: Seq<u8>) -> Option<(Seq<Seq<char>>, Seq<(Seq<char>, Seq<char>)>)>;

/// The (namespace, name) pairs that an import object offers.
pub uninterp spec fn defined_keys(imports: Imports) -> Set<(Seq<char>, Seq<char>)>;

/// Relies on wasmer's `Store::as_store_mut`: a handle through which host functions are created
/// in the store, which cannot put another store in its place.
#[verifier::external_body]
fn store_handle(store: &mut Store) -> (r: StoreMut<'_>) {
    store.as_store_mut()
}

/// Relies on wasmer's `Store::new` over an engine with the Cranelift compiler.
#[verifier::external_body]
fn cranelift_store() -> (r: Store) {
    Store::new(Cranelift::default())
}

/// Relies on wasmer's `Module::new`, which validates and compiles text or binary WebAssembly;
/// the compiled module's interface is read back with `Module::exports` and `Module::imports`.
/// Whether compiling succeeds also depends on the engine and the host, so only what a
/// compiled module declares is stated.
#[verifier::external_body]
fn module_new(store: &Store, source: &[u8]) -> (r: Result<(Module, Vec<String>, Vec<ImportKey>), String>)
    ensures
        r matches Ok(t) ==> wasm_interface(source@) == Some((names_view(t.1@), keys_view(t.2@))),
{
    let module = Module::new(store, source).map_err(|e| format!("{}", e))?;
    let exports = module.exports().map(|e| e.name().to_string()).collect();
    let imports = module.imports().map(|i| ImportKey { namespace: i.module().to_string(), name: i.name().to_string() }).collect();
    Ok((module, exports, imports))
}

/// Relies on wasmer's `Imports::new`: an import object that offers nothing.
#[verifier::external_body]
fn imports_new() -> (r: Imports)
    ensures
        defined_keys(r) == Set::<(Seq<char>, Seq<char>)>::empty(),
{
    Imports::new()
}

/// Relies on wasmer's `Imports::define`: offers `function` under (`namespace`, `name`).
#[verifier::external_body]
fn imports_define(imports: &mut Imports, namespace: &str, name: &str, function: &Function)
    ensures
        defined_keys(*final(imports)) == defined_keys(*old(imports)).insert((namespace@, name@)),
{
    imports.define(namespace, name, function.clone())
}

/// Relies on wasmer's `Instance::new`: links the module against `imports` and runs its start routine.
#[verifier::external_body]
fn instance_new(store: &mut Store, module: &Module, imports: &Imports) -> (r: Result<Instance, String>) {
    Instance::new(store, module, imports).map_err(|e| format!("{}", e))
}

/// How calling an export as a function without parameters or results failed.
enum CallFailure {
    Missing,
    IncompatibleType,
    Trap(String),
}

/// Relies on wasmer's `Exports::get_typed_function` and `TypedFunction::call` for a function
/// with no parameters and no results. Both run on the instance's own store, which it was
/// created in (see `instantiate`, the only place a `LinkedInstance` is made).
#[verifier::external_body]
fn call_export(linked: &mut LinkedInstance, name: &str) -> (r: Result<(), CallFailure>)
    ensures
        final(linked).exports == old(linked).exports,
        final(linked).usable == old(linked).usable,
{
    let function = linked.instance.exports.get_typed_function::<(), ()>(&linked.store, name).map_err(|e| match e {
        ExportError::Missing(_) => CallFailure::Missing,
        ExportError::IncompatibleType => CallFailure::IncompatibleType,
    })?;
    function.call(&mut linked.store).map_err(|e| CallFailure::Trap(e.message()))
}

pub open spec fn names_view(names: Seq<String>) -> Seq<Seq<char>> {
    names.map_values(|s: String| s@)
}

/// The code-generation backend that modules are compiled with; host functions are created in its store.
pub struct CodegenBackend {
    store: Store,
}

impl CodegenBackend {
    /// The Cranelift compiler under a universal engine.
    pub fn cranelift() -> (r: CodegenBackend) {
        CodegenBackend { store: cranelift_store() }
    }

    /// A handle to the store in which host functions for this backend are created.
    pub fn store_mut(&mut self) -> StoreMut<'_> {
        store_handle(&mut self.store)
    }
}

pub struct CompileError {
    pub reason: String,
}

/// A validated, compiled module together with its declared imports and exports.
pub struct CompiledModule {
    module: Module,
    exports: Vec<String>,
    imports: Vec<ImportKey>,
}

impl CompiledModule {
    pub closed spec fn export_names(&self) -> Seq<Seq<char>> {
        names_view(self.exports@)
    }

    pub closed spec fn import_keys(&self) -> Seq<(Seq<char>, Seq<char>)> {
        keys_view(self.imports@)
    }

    pub fn exports(&self) -> (r: &Vec<String>)
        ensures
            names_view(r@) == self.export_names(),
    {
        &self.exports
    }

    pub fn imports(&self) -> (r: &Vec<ImportKey>)
        ensures
            keys_view(r@) == self.import_keys(),
    {
        &self.imports
    }
}

/// Compiles `source` (text or binary form) with `backend`; nothing is produced on failure.
pub fn compile(backend: &CodegenBackend, source: &[u8]) -> (r: Result<CompiledModule, CompileError>)
    ensures
        r matches Ok(m) ==> wasm_interface(source@) == Some((m.export_names(), m.import_keys())),
{
    match module_new(&backend.store, source) {
        Ok((module, exports, imports)) => Ok(CompiledModule { module, exports, imports }),
        Err(reason) => Err(CompileError { reason }),
    }
}

/// Two modules compiled from one source have the same export names and the same import keys.
pub proof fn compile_is_deterministic(source: Seq<u8>, a: CompiledModule, b: CompiledModule)
    requires
        wasm_interface(source) == Some((a.export_names(), a.import_keys())),
        wasm_interface(source) == Some((b.export_names(), b.import_keys())),
    ensures
        a.export_names() == b.export_names(),
        a.import_keys() == b.import_keys(),
{
}

pub enum LinkError {
    UnsatisfiedImport { namespace: String, name: String },
    Rejected { reason: String },
}

/// A live module linked against a table of host functions.
pub struct LinkedInstance {
    store: Store,
    instance: Instance,
    exports: Vec<String>,
    usable: bool,
}

impl LinkedInstance {
    pub closed spec fn export_names(&self) -> Seq<Seq<char>> {
        names_view(self.exports@)
    }

    pub closed spec fn is_usable(&self) -> bool {
        self.usable
    }

    pub fn usable(&self) -> (r: bool)
        ensures
            r == self.is_usable(),
    {
        self.usable
    }
}

/// Whether some import of `imports` has no binding in `table`.
pub open spec fn has_unsatisfied(
    imports: Seq<(Seq<char>, Seq<char>)>,
    table: Seq<(Seq<char>, Seq<char>)>,
) -> bool {
    exists|i: int| 0 <= i < imports.len() && !table.contains(#[trigger] imports[i])
}

/// A module that declares an import which the table does not bind cannot be linked against it.
pub proof fn missing_binding_is_unsatisfied(
    imports: Seq<(Seq<char>, Seq<char>)>,
    table: Seq<(Seq<char>, Seq<char>)>,
    key: (Seq<char>, Seq<char>),
)
    requires
        imports.contains(key),
        !table.contains(key),
    ensures
        has_unsatisfied(imports, table),
{
    let i = choose|i: int| 0 <= i < imports.len() && imports[i] == key;
    assert(!table.contains(imports[i]));
}

/// The first import of `module` that `table` does not bind, if any.
pub fn first_unsatisfied(module: &CompiledModule, table: &ImportTable) -> (r: Option<usize>)
    requires
        table.wf(),
    ensures
        r is None <==> !has_unsatisfied(module.import_keys(), table.keys_spec()),
        r matches Some(i) ==> i < module.import_keys().len()
            && !table.keys_spec().contains(module.import_keys()[i as int])
            && forall|j: int| 0 <= j < i ==> table.keys_spec().contains(#[trigger] module.import_keys()[j]),
{
    let mut i: usize = 0;
    while i < module.imports.len()
        invariant
            table.wf(),
            i <= module.imports@.len(),
            forall|j: int| 0 <= j < i ==> table.keys_spec().contains(#[trigger] module.import_keys()[j]),
        decreases module.imports@.len() - i,
    {
        if table.position_of(&module.imports[i]).is_none() {
            assert(module.import_keys()[i as int] == module.imports@[i as int]@);
            assert(!table.keys_spec().contains(module.import_keys()[i as int]));
            return Some(i);
        }
        i = i + 1;
    }
    None
}

/// Offers every binding of `table` to the linker.
fn imports_of(table: &ImportTable) -> (r: Imports)
    requires
        table.wf(),
    ensures
        defined_keys(r) == table.keys_spec().to_set(),
{
    let mut imports = imports_new();
    let n = table.len();
    proof {
        assert(table.keys_spec().subrange(0, 0).to_set() =~= Set::<(Seq<char>, Seq<char>)>::empty());
    }
    let mut i: usize = 0;
    while i < n
        invariant
            table.wf(),
            n == table.keys_spec().len(),
            i <= n,
            defined_keys(imports) == table.keys_spec().subrange(0, i as int).to_set(),
        decreases n - i,
    {
        let key = table.key_at(i);
        imports_define(&mut imports, key.namespace.as_str(), key.name.as_str(), table.function_at(i));
        proof {
            let s = table.keys_spec();
            assert(s.subrange(0, i + 1) =~= s.subrange(0, i as int).push(s[i as int]));
            s.subrange(0, i as int).lemma_push_to_set_commute(s[i as int]);
        }
        i = i + 1;
    }
    proof {
        assert(table.keys_spec().subrange(0, n as int) =~= table.keys_spec());
    }
    imports
}

/// Links `module` against `table` in the store of `backend`, which the instance then owns.
/// Every declared import is looked up first, so a missing binding is reported before any
/// sandboxed code exists; the linker is offered exactly the table's bindings.
pub fn instantiate(backend: CodegenBackend, module: &CompiledModule, table: &ImportTable) -> (r: Result<LinkedInstance, LinkError>)
    requires
        table.wf(),
    ensures
        has_unsatisfied(module.import_keys(), table.keys_spec()) <==> r is Err && r->Err_0 is UnsatisfiedImport,
        r matches Err(LinkError::UnsatisfiedImport { namespace, name }) ==> module.import_keys().contains((namespace@, name@))
            && !table.keys_spec().contains((namespace@, name@)),
        r matches Ok(inst) ==> inst.is_usable() && inst.export_names() == module.export_names(),
{
    match first_unsatisfied(module, table) {
        Some(i) => {
            let key = module.imports[i].duplicate();
            proof {
                assert(module.import_keys()[i as int] == key@);
            }
            Err(LinkError::UnsatisfiedImport { namespace: key.namespace, name: key.name })
        },
        None => {
            let imports = imports_of(table);
            let mut store = backend.store;
            match instance_new(&mut store, &module.module, &imports) {
                Ok(instance) => {
                    let exports = module.exports.clone();
                    Ok(LinkedInstance { store, instance, exports, usable: true })
                },
                Err(reason) => Err(LinkError::Rejected { reason }),
            }
        },
    }
}

pub enum InvokeError {
    ExportNotFound,
    SignatureMismatch,
    Trap { reason: String },
    Unusable,
    Unresolved,
}

/// Calls the export `export_name`, a function with no parameters and no results. A trap leaves
/// the instance unusable; an unusable instance runs nothing.
pub fn invoke(instance: &mut LinkedInstance, export_name: &str) -> (r: Result<(), InvokeError>)
    ensures
        final(instance).export_names() == old(instance).export_names(),
        r matches Err(InvokeError::Unusable) <==> !old(instance).is_usable(),
        r matches Err(InvokeError::ExportNotFound) <==> old(instance).is_usable()
            && !old(instance).export_names().contains(export_name@),
        old(instance).is_usable() && !old(instance).export_names().contains(export_name@)
            ==> r matches Err(InvokeError::ExportNotFound),
        r is Ok ==> old(instance).is_usable() && old(instance).export_names().contains(export_name@),
        r matches Err(InvokeError::Trap { .. }) ==> !final(instance).is_usable(),
        !(r matches Err(InvokeError::Trap { .. })) ==> final(instance).is_usable() == old(instance).is_usable(),
{
    if !instance.usable {
        return Err(InvokeError::Unusable);
    }
    let wanted = export_name.to_owned();
    let mut found = false;
    let mut i: usize = 0;
    while i < instance.exports.len()
        invariant
            i <= instance.exports@.len(),
            wanted@ == export_name@,
            found <==> exists|j: int| 0 <= j < i && (#[trigger] instance.exports@[j])@ == export_name@,
        decreases instance.exports@.len() - i,
    {
        if instance.exports[i] == wanted {
            found = true;
        }
        i = i + 1;
    }
    if !found {
        proof {
            if instance.export_names().contains(export_name@) {
                let j = choose|j: int| 0 <= j < instance.export_names().len() && instance.export_names()[j] == export_name@;
                assert(instance.exports@[j]@ == export_name@);
            }
        }
        return Err(InvokeError::ExportNotFound);
    }
    proof {
        let j = choose|j: int| 0 <= j < i && (#[trigger] instance.exports@[j])@ == export_name@;
        assert(instance.export_names()[j] == export_name@);
    }
    match call_export(instance, export_name) {
        Ok(()) => Ok(()),
        Err(CallFailure::Missing) => Err(InvokeError::Unresolved),
        Err(CallFailure::IncompatibleType) => Err(InvokeError::SignatureMismatch),
        Err(CallFailure::Trap(reason)) => {
            instance.usable = false;
            Err(InvokeError::Trap { reason })
        },
    }
}

} // verus!
