//! The descriptor resolver: given a compiled module's import metadata,
//! produce an ordered, owned list of (module name, field name, kind)
//! descriptors naming the imports the module expects.
//!
//! The four import tables are walked in a fixed order — functions, then
//! tables, then globals, then memories — and each entry's namespace and
//! name indices are resolved against the module's two interned string
//! tables into fresh, independent copies, so the list's lifetime is
//! decoupled from the module's.

use vstd::prelude::*;

use crate::bytes::clone_bytes;
use crate::kinds::wasmer_import_export_kind;

verus! {

/// One import-table entry: indices into the module's interned namespace
/// table and name table.
#[derive(Clone, Copy, Debug, PartialEq, Eq, Structural)]
pub struct ImportName {
    pub namespace_index: usize,
    pub name_index: usize,
}

/// The import metadata this resolver consumes from a compiled module: four
/// ordered import tables, and the two interned string tables their entries
/// index. Indices are only meaningful against the tables of the same
/// module.
pub struct ModuleImports {
    pub imported_functions: Vec<ImportName>,
    pub imported_tables: Vec<ImportName>,
    pub imported_globals: Vec<ImportName>,
    pub imported_memories: Vec<ImportName>,
    pub namespace_table: Vec<Vec<u8>>,
    pub name_table: Vec<Vec<u8>>,
}

/// Every entry of `t` indexes within the two string tables.
pub open spec fn table_ok(t: Seq<ImportName>, ns_len: int, nm_len: int) -> bool {
    forall|i: int|
        0 <= i < t.len() ==> (#[trigger] t[i]).namespace_index < ns_len && t[i].name_index < nm_len
}

impl ModuleImports {
    /// The module's invariant: every import entry resolves.
    pub open spec fn wf(&self) -> bool {
        let ns_len = self.namespace_table@.len() as int;
        let nm_len = self.name_table@.len() as int;
        &&& table_ok(self.imported_functions@, ns_len, nm_len)
        &&& table_ok(self.imported_tables@, ns_len, nm_len)
        &&& table_ok(self.imported_globals@, ns_len, nm_len)
        &&& table_ok(self.imported_memories@, ns_len, nm_len)
    }
}

/// One resolved descriptor: owned module-name bytes, owned field-name
/// bytes, and the kind of the expected import.
#[allow(non_camel_case_types)]
pub struct wasmer_import_descriptor_t {
    pub module: Vec<u8>,
    pub name: Vec<u8>,
    pub kind: wasmer_import_export_kind,
}

/// The mathematical value of one descriptor.
pub struct DescV {
    pub module: Seq<u8>,
    pub name: Seq<u8>,
    pub kind: wasmer_import_export_kind,
}

impl View for wasmer_import_descriptor_t {
    type V = DescV;

    open spec fn view(&self) -> DescV {
        DescV { module: self.module@, name: self.name@, kind: self.kind }
    }
}

/// The ordered, owned descriptor list of one module; built and destroyed
/// as a unit.
pub struct NamedImportDescriptors(pub Vec<wasmer_import_descriptor_t>);

/// The descriptor list type the boundary hands out.
#[allow(non_camel_case_types)]
pub type wasmer_import_descriptors_t = NamedImportDescriptors;

impl View for NamedImportDescriptors {
    type V = Seq<DescV>;

    open spec fn view(&self) -> Seq<DescV> {
        Seq::new(self.0@.len(), |i: int| self.0@[i]@)
    }
}

/// The descriptors of one import table, in table order, under one kind.
pub open spec fn resolve_table(
    t: Seq<ImportName>,
    ns_tab: Seq<Vec<u8>>,
    nm_tab: Seq<Vec<u8>>,
    kind: wasmer_import_export_kind,
) -> Seq<DescV> {
    t.map_values(
        |imp: ImportName|
            DescV {
                module: ns_tab[imp.namespace_index as int]@,
                name: nm_tab[imp.name_index as int]@,
                kind,
            },
    )
}

/// The full descriptor list of a module: its four import tables resolved
/// in the fixed order functions, tables, globals, memories.
pub open spec fn descriptors_spec(m: ModuleImports) -> Seq<DescV> {
    resolve_table(
        m.imported_functions@,
        m.namespace_table@,
        m.name_table@,
        wasmer_import_export_kind::WASM_FUNCTION,
    ) + resolve_table(
        m.imported_tables@,
        m.namespace_table@,
        m.name_table@,
        wasmer_import_export_kind::WASM_TABLE,
    ) + resolve_table(
        m.imported_globals@,
        m.namespace_table@,
        m.name_table@,
        wasmer_import_export_kind::WASM_GLOBAL,
    ) + resolve_table(
        m.imported_memories@,
        m.namespace_table@,
        m.name_table@,
        wasmer_import_export_kind::WASM_MEMORY,
    )
}

/// After pushing a descriptor whose value is `t[i]` onto a list whose
/// values so far are `p + t.take(i)`, the values are `p + t.take(i + 1)`.
proof fn lemma_desc_push(
    v: Seq<wasmer_import_descriptor_t>,
    pre: Seq<wasmer_import_descriptor_t>,
    d: wasmer_import_descriptor_t,
    p: Seq<DescV>,
    t: Seq<DescV>,
    i: int,
)
    requires
        v == pre.push(d),
        0 <= i < t.len(),
        p.len() + i == pre.len(),
        Seq::new(pre.len(), |k: int| pre[k]@) == p + t.take(i),
        d@ == t[i],
    ensures
        Seq::new(v.len(), |k: int| v[k]@) == p + t.take(i + 1),
{
    assert forall|k: int| 0 <= k < v.len() implies #[trigger] v[k]@ == (p + t.take(i + 1))[k] by {
        if k < pre.len() {
            assert(v[k] == pre[k]);
            assert(Seq::new(pre.len(), |k2: int| pre[k2]@)[k] == pre[k]@);
            assert(pre[k]@ == (p + t.take(i))[k]);
            if k >= p.len() {
                assert((p + t.take(i))[k] == t.take(i)[k - p.len()]);
                assert(t.take(i)[k - p.len()] == t[k - p.len()]);
                assert((p + t.take(i + 1))[k] == t.take(i + 1)[k - p.len()]);
                assert(t.take(i + 1)[k - p.len()] == t[k - p.len()]);
            }
        } else {
            assert(v[k] == d);
            assert((p + t.take(i + 1))[k] == t.take(i + 1)[k - p.len()]);
            assert(t.take(i + 1)[k - p.len()] == t[i]);
        }
    }
    assert(Seq::new(v.len(), |k: int| v[k]@) =~= p + t.take(i + 1));
}

/// Builds the descriptor list of `module`: one descriptor per import-table
/// entry, with owned string copies, in table-then-entry order. The list
/// holds exactly as many descriptors as the four tables hold entries.
#[allow(non_snake_case)]
#[verifier::loop_isolation(false)]
pub fn wasmer_import_descriptors(module: &ModuleImports) -> (r: NamedImportDescriptors)
    requires
        module.wf(),
        module.imported_functions@.len() + module.imported_tables@.len()
            + module.imported_globals@.len() + module.imported_memories@.len() <= usize::MAX,
    ensures
        r@ == descriptors_spec(*module),
        r@.len() == module.imported_functions@.len() + module.imported_tables@.len()
            + module.imported_globals@.len() + module.imported_memories@.len(),
{
    let ghost ns_tab = module.namespace_table@;
    let ghost nm_tab = module.name_table@;
    let total = module.imported_functions.len() + module.imported_tables.len()
        + module.imported_globals.len() + module.imported_memories.len();
    let mut descriptors: Vec<wasmer_import_descriptor_t> = Vec::with_capacity(total);

    let ghost fns = resolve_table(
        module.imported_functions@,
        ns_tab,
        nm_tab,
        wasmer_import_export_kind::WASM_FUNCTION,
    );
    let ghost tbls = resolve_table(
        module.imported_tables@,
        ns_tab,
        nm_tab,
        wasmer_import_export_kind::WASM_TABLE,
    );
    let ghost glbs = resolve_table(
        module.imported_globals@,
        ns_tab,
        nm_tab,
        wasmer_import_export_kind::WASM_GLOBAL,
    );
    let ghost mems = resolve_table(
        module.imported_memories@,
        ns_tab,
        nm_tab,
        wasmer_import_export_kind::WASM_MEMORY,
    );

    let n1 = module.imported_functions.len();
    proof {
        assert(Seq::new(descriptors@.len(), |k: int| descriptors@[k]@) =~= Seq::<DescV>::empty()
            + fns.take(0));
    }
    let mut i: usize = 0;
    while i < n1
        invariant
            i <= n1,
            descriptors@.len() == i,
            Seq::new(descriptors@.len(), |k: int| descriptors@[k]@) == Seq::<DescV>::empty()
                + fns.take(i as int),
        decreases n1 - i,
    {
        let imp = module.imported_functions[i];
        let d = wasmer_import_descriptor_t {
            module: clone_bytes(&module.namespace_table[imp.namespace_index]),
            name: clone_bytes(&module.name_table[imp.name_index]),
            kind: wasmer_import_export_kind::WASM_FUNCTION,
        };
        proof {
            assert(d@ == fns[i as int]);
        }
        let ghost pre = descriptors@;
        descriptors.push(d);
        proof {
            lemma_desc_push(descriptors@, pre, d, Seq::<DescV>::empty(), fns, i as int);
        }
        i = i + 1;
    }

    let n2 = module.imported_tables.len();
    proof {
        assert(Seq::<DescV>::empty() + fns.take(n1 as int) =~= fns + tbls.take(0));
    }
    let mut i: usize = 0;
    while i < n2
        invariant
            i <= n2,
            descriptors@.len() == n1 + i,
            Seq::new(descriptors@.len(), |k: int| descriptors@[k]@) == fns + tbls.take(i as int),
        decreases n2 - i,
    {
        let imp = module.imported_tables[i];
        let d = wasmer_import_descriptor_t {
            module: clone_bytes(&module.namespace_table[imp.namespace_index]),
            name: clone_bytes(&module.name_table[imp.name_index]),
            kind: wasmer_import_export_kind::WASM_TABLE,
        };
        proof {
            assert(d@ == tbls[i as int]);
        }
        let ghost pre = descriptors@;
        descriptors.push(d);
        proof {
            lemma_desc_push(descriptors@, pre, d, fns, tbls, i as int);
        }
        i = i + 1;
    }

    let n3 = module.imported_globals.len();
    proof {
        assert(fns + tbls.take(n2 as int) =~= (fns + tbls) + glbs.take(0));
    }
    let mut i: usize = 0;
    while i < n3
        invariant
            i <= n3,
            descriptors@.len() == n1 + n2 + i,
            Seq::new(descriptors@.len(), |k: int| descriptors@[k]@) == (fns + tbls) + glbs.take(
                i as int,
            ),
        decreases n3 - i,
    {
        let imp = module.imported_globals[i];
        let d = wasmer_import_descriptor_t {
            module: clone_bytes(&module.namespace_table[imp.namespace_index]),
            name: clone_bytes(&module.name_table[imp.name_index]),
            kind: wasmer_import_export_kind::WASM_GLOBAL,
        };
        proof {
            assert(d@ == glbs[i as int]);
        }
        let ghost pre = descriptors@;
        descriptors.push(d);
        proof {
            lemma_desc_push(descriptors@, pre, d, fns + tbls, glbs, i as int);
        }
        i = i + 1;
    }

    let n4 = module.imported_memories.len();
    proof {
        assert((fns + tbls) + glbs.take(n3 as int) =~= ((fns + tbls) + glbs) + mems.take(0));
    }
    let mut i: usize = 0;
    while i < n4
        invariant
            i <= n4,
            descriptors@.len() == n1 + n2 + n3 + i,
            Seq::new(descriptors@.len(), |k: int| descriptors@[k]@) == ((fns + tbls) + glbs)
                + mems.take(i as int),
        decreases n4 - i,
    {
        let imp = module.imported_memories[i];
        let d = wasmer_import_descriptor_t {
            module: clone_bytes(&module.namespace_table[imp.namespace_index]),
            name: clone_bytes(&module.name_table[imp.name_index]),
            kind: wasmer_import_export_kind::WASM_MEMORY,
        };
        proof {
            assert(d@ == mems[i as int]);
        }
        let ghost pre = descriptors@;
        descriptors.push(d);
        proof {
            lemma_desc_push(descriptors@, pre, d, (fns + tbls) + glbs, mems, i as int);
        }
        i = i + 1;
    }

    let r = NamedImportDescriptors(descriptors);
    proof {
        assert(((fns + tbls) + glbs) + mems.take(n4 as int) =~= descriptors_spec(*module));
        assert(r@ =~= Seq::new(descriptors@.len(), |k: int| descriptors@[k]@));
    }
    r
}

/// The number of descriptors in the list.
#[allow(non_snake_case)]
pub fn wasmer_import_descriptors_len(import_descriptors: &NamedImportDescriptors) -> (r: usize)
    ensures
        r == import_descriptors@.len(),
{
    import_descriptors.0.len()
}

/// The descriptor at position `idx`; positions at or past the length are
/// the caller's responsibility and are excluded here.
#[allow(non_snake_case)]
pub fn wasmer_import_descriptors_get<'a>(
    import_descriptors: &'a NamedImportDescriptors,
    idx: usize,
) -> (r: &'a wasmer_import_descriptor_t)
    requires
        idx < import_descriptors@.len(),
    ensures
        r@ == import_descriptors@[idx as int],
{
    &import_descriptors.0[idx]
}

/// The descriptor's field name, as a borrowed view into the list.
#[allow(non_snake_case)]
pub fn wasmer_import_descriptor_name<'a>(
    import_descriptor: &'a wasmer_import_descriptor_t,
) -> (r: &'a Vec<u8>)
    ensures
        r@ == import_descriptor@.name,
{
    &import_descriptor.name
}

/// The descriptor's module (namespace) name, as a borrowed view into the
/// list.
#[allow(non_snake_case)]
pub fn wasmer_import_descriptor_module_name<'a>(
    import_descriptor: &'a wasmer_import_descriptor_t,
) -> (r: &'a Vec<u8>)
    ensures
        r@ == import_descriptor@.module,
{
    &import_descriptor.module
}

/// The kind of import the descriptor names.
#[allow(non_snake_case)]
pub fn wasmer_import_descriptor_kind(export: &wasmer_import_descriptor_t) -> (r:
    wasmer_import_export_kind)
    ensures
        r == export@.kind,
{
    export.kind
}

/// Releases the descriptor list and every descriptor's strings as a unit.
#[allow(non_snake_case)]
pub fn wasmer_import_descriptors_destroy(import_descriptors: NamedImportDescriptors) {
    let _ = import_descriptors;
}

} // verus!
