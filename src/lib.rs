//! An ownership layer for an IR library reached through raw handles.
//!
//! A `Context` is the root owner; a `Module` borrows the context it was made
//! in and so cannot outlive it; types, values and metadata are typed
//! wrappers around handles, converted uniformly through `Wrapper`.
//!
//! The foreign IR library itself is modelled here, not called: what it would
//! hold for a context or a module (metadata kinds, target and layout strings,
//! the function and global lists, named types and metadata) is kept in plain
//! tables, and handles are handed out by counters, starting above the null
//! handle. `Module::ir_text` is a summary of a module (its header, and one
//! line per global and function, without types), not textual IR.

use vstd::prelude::*;

pub mod wrap;
pub mod ty;
pub mod value;
pub mod process;
pub mod laws;
pub mod text;

use crate::wrap::{Handle, Wrapper};
use crate::ty::{Ty, TypeRef};
use crate::value::ValueRef;
use crate::process::{CoreState, CoreView};

verus! {

/// Raw handle of a context.
pub type ContextRef = Handle;

/// The root owner: every module, and every metadata kind, belongs to exactly
/// one context.
pub struct Context {
    r: ContextRef,
    md_kinds: Vec<String>,
}

/// What a context holds: its handle and its metadata-kind registry, where a
/// kind's id is its position.
pub struct ContextView {
    pub handle: ContextRef,
    pub md_kinds: Seq<Seq<char>>,
}

impl View for Context {
    type V = ContextView;

    closed spec fn view(&self) -> ContextView {
        ContextView { handle: self.r, md_kinds: self.md_kinds@.map_values(|s: String| s@) }
    }
}

/// `id` is the id of kind `name`, and interning `name` into `before` gave
/// `after`: a known name keeps its id, a new one is appended.
pub open spec fn md_kind_interned(
    before: Seq<Seq<char>>,
    name: Seq<char>,
    after: Seq<Seq<char>>,
    id: int,
) -> bool {
    &&& after == (if before.contains(name) {
        before
    } else {
        before.push(name)
    })
    &&& 0 <= id < after.len()
    &&& after[id] == name
    &&& forall|j: int| 0 <= j < id ==> after[j] != name
}

impl Wrapper<ContextRef> for Context {
    closed spec fn handle(&self) -> ContextRef {
        self.r
    }

    fn from_ref(r: ContextRef) -> (w: Context) {
        Context { r, md_kinds: Vec::new() }
    }

    fn to_ref(&self) -> (r: ContextRef) {
        self.r
    }
}

impl Context {
    /// A fresh context with no metadata kinds registered; its handle is one
    /// that `core` never handed out before.
    pub fn new(core: &mut CoreState) -> (c: Context)
        requires
            old(core)@.wf(),
            old(core)@.initialized,
            !old(core)@.shut_down,
            old(core)@.next_context < u64::MAX,
        ensures
            c.handle() == old(core)@.next_context,
            c.handle() != 0,
            c@.handle == c.handle(),
            c@.md_kinds.len() == 0,
            final(core)@.wf(),
            final(core)@ == (CoreView { next_context: (c@.handle + 1) as u64, ..old(core)@ }),
    {
        let r = core.take_context_handle();
        Context { r, md_kinds: Vec::new() }
    }

    /// The handle in the view is the one `to_ref` hands out.
    pub proof fn lemma_view_handle(&self)
        ensures
            self@.handle == self.handle(),
    {
    }

    /// Interns a metadata-kind name and returns its id in this context. It
    /// takes the context mutably because interning a new name extends the
    /// registry, which the context owns.
    pub fn get_md_kind_id(&mut self, name: &str) -> (id: usize)
        ensures
            final(self)@.handle == old(self)@.handle,
            final(self).handle() == old(self).handle(),
            md_kind_interned(old(self)@.md_kinds, name@, final(self)@.md_kinds, id as int),
    {
        let key = name.to_owned();
        let n = self.md_kinds.len();
        let mut i: usize = 0;
        while i < n
            invariant
                n == self.md_kinds.len(),
                key@ == name@,
                0 <= i <= n,
                forall|j: int| 0 <= j < i ==> self@.md_kinds[j] != name@,
            decreases n - i,
        {
            if self.md_kinds[i] == key {
                proof {
                    assert(self@.md_kinds[i as int] == name@);
                }
                return i;
            }
            i = i + 1;
        }
        proof {
            assert(!self@.md_kinds.contains(name@));
        }
        self.md_kinds.push(key);
        proof {
            assert(self@.md_kinds =~= old(self)@.md_kinds.push(name@));
        }
        n
    }
}

/// An IR compilation unit, tied to the context it was created in: it cannot
/// outlive that context.
pub struct Module<'a> {
    ctx: &'a Context,
    name: String,
    data_layout: String,
    target: String,
    inline_asm: String,
    types: Vec<NamedType>,
    named_md: Vec<NamedMd>,
    functions: Vec<FunctionEntry>,
    globals: Vec<GlobalEntry>,
    next_value: ValueRef,
}

struct NamedType {
    name: String,
    ty: ty::Type,
}

struct NamedMd {
    name: String,
    operands: Vec<value::Metadata>,
}

struct FunctionEntry {
    name: String,
    ty: ty::Function,
    value: value::Function,
}

struct GlobalEntry {
    name: String,
    ty: TypeRef,
    value: ValueRef,
}

/// A function of a module: its name, its type and the value that denotes it.
pub struct FunctionDecl {
    pub name: Seq<char>,
    pub ty: ty::Function,
    pub value: value::Function,
}

/// A global variable of a module: its name, the handle of its element type
/// and the handle of the global itself.
pub struct GlobalDecl {
    pub name: Seq<char>,
    pub ty: TypeRef,
    pub value: ValueRef,
}

/// What a module holds.
pub struct ModuleView {
    pub name: Seq<char>,
    pub data_layout: Seq<char>,
    pub target: Seq<char>,
    pub inline_asm: Seq<char>,
    /// The named types, one entry per name.
    pub types: Seq<(Seq<char>, ty::Type)>,
    /// The named metadata nodes, one entry per name, with their operands.
    pub named_md: Seq<(Seq<char>, Seq<value::Metadata>)>,
    /// The functions, in the order they were added.
    pub functions: Seq<FunctionDecl>,
    /// The global variables, in the order they were added.
    pub globals: Seq<GlobalDecl>,
    /// The handle the next created value receives.
    pub next_value: ValueRef,
}

impl<'a> View for Module<'a> {
    type V = ModuleView;

    closed spec fn view(&self) -> ModuleView {
        ModuleView {
            name: self.name@,
            data_layout: self.data_layout@,
            target: self.target@,
            inline_asm: self.inline_asm@,
            types: self.types@.map_values(|e: NamedType| (e.name@, e.ty)),
            named_md: self.named_md@.map_values(|e: NamedMd| (e.name@, e.operands@)),
            functions: self.functions@.map_values(
                |e: FunctionEntry| FunctionDecl { name: e.name@, ty: e.ty, value: e.value },
            ),
            globals: self.globals@.map_values(
                |e: GlobalEntry| GlobalDecl { name: e.name@, ty: e.ty, value: e.value },
            ),
            next_value: self.next_value,
        }
    }
}

/// No two entries of a table share a name.
pub open spec fn names_unique<T>(table: Seq<(Seq<char>, T)>) -> bool {
    forall|i: int, j: int|
        0 <= i < table.len() && 0 <= j < table.len() && i != j ==> table[i].0 != table[j].0
}

/// The entry of `table` under `name`, if there is one.
pub open spec fn lookup<T>(table: Seq<(Seq<char>, T)>, name: Seq<char>) -> Option<T> {
    if exists|i: int| 0 <= i < table.len() && table[i].0 == name {
        Some(table[choose|i: int| 0 <= i < table.len() && table[i].0 == name].1)
    } else {
        None
    }
}

/// The operands of the named metadata node `name`; none where there is no
/// such node.
pub open spec fn md_operands(
    nodes: Seq<(Seq<char>, Seq<value::Metadata>)>,
    name: Seq<char>,
) -> Seq<value::Metadata> {
    match lookup(nodes, name) {
        Some(ops) => ops,
        None => Seq::empty(),
    }
}

/// The node table after appending `m` to node `name`, which is created
/// when absent.
pub open spec fn md_appended(
    nodes: Seq<(Seq<char>, Seq<value::Metadata>)>,
    name: Seq<char>,
    m: value::Metadata,
) -> Seq<(Seq<char>, Seq<value::Metadata>)> {
    if exists|i: int| 0 <= i < nodes.len() && nodes[i].0 == name {
        let i = choose|i: int| 0 <= i < nodes.len() && nodes[i].0 == name;
        nodes.update(i, (name, nodes[i].1.push(m)))
    } else {
        nodes.push((name, seq![m]))
    }
}

/// `visitor` may be handed each function of `fns` once it has accepted every
/// function before it: a walk that stops at the first refusal never calls it
/// on a function it may not take.
pub open spec fn visitor_callable<F: Fn(value::Function) -> bool>(
    fns: Seq<FunctionDecl>,
    visitor: F,
) -> bool {
    forall|i: int|
        0 <= i < fns.len() && (forall|j: int|
            0 <= j < i ==> visitor.ensures((#[trigger] fns[j].value,), true)) ==> visitor.requires(
            (#[trigger] fns[i].value,),
        )
}

/// `r` is what a walk of `fns` that hands each function, in order, to
/// `visitor` reports: `true` when the visitor accepted every function, and
/// `false` when it accepted every function before some position and refused
/// the one there.
pub open spec fn visit_outcome<F: Fn(value::Function) -> bool>(
    fns: Seq<FunctionDecl>,
    visitor: F,
    r: bool,
) -> bool {
    if r {
        forall|j: int| 0 <= j < fns.len() ==> visitor.ensures((#[trigger] fns[j].value,), true)
    } else {
        exists|k: int|
            0 <= k < fns.len() && visitor.ensures((fns[k].value,), false) && forall|j: int|
                0 <= j < k ==> visitor.ensures((#[trigger] fns[j].value,), true)
    }
}

impl ModuleView {
    /// Every value made in the module has a non-null handle below
    /// `next_value`, and names in the type and metadata tables are unique.
    pub open spec fn wf(&self) -> bool {
        &&& self.next_value >= 1
        &&& forall|i: int|
            0 <= i < self.functions.len() ==> 1 <= (#[trigger] self.functions[i]).value.handle()
                < self.next_value
        &&& forall|i: int|
            0 <= i < self.globals.len() ==> 1 <= (#[trigger] self.globals[i]).value
                < self.next_value
        &&& names_unique(self.types)
        &&& names_unique(self.named_md)
    }

    /// A module fresh from `Context::new_module`.
    pub open spec fn fresh(name: Seq<char>) -> ModuleView {
        ModuleView {
            name,
            data_layout: Seq::empty(),
            target: Seq::empty(),
            inline_asm: Seq::empty(),
            types: Seq::empty(),
            named_md: Seq::empty(),
            functions: Seq::empty(),
            globals: Seq::empty(),
            next_value: 1,
        }
    }
}

impl Context {
    /// Creates an empty module in this context; the module borrows the
    /// context and so cannot outlive it.
    pub fn new_module<'r>(&'r self, name: &str) -> (m: Module<'r>)
        ensures
            m@ == ModuleView::fresh(name@),
            m@.wf(),
            m.context()@ == self@,
    {
        let m = Module {
            ctx: self,
            name: name.to_owned(),
            data_layout: String::new(),
            target: String::new(),
            inline_asm: String::new(),
            types: Vec::new(),
            named_md: Vec::new(),
            functions: Vec::new(),
            globals: Vec::new(),
            next_value: 1,
        };
        proof {
            assert(m@.types =~= Seq::empty());
            assert(m@.named_md =~= Seq::empty());
            assert(m@.functions =~= Seq::empty());
            assert(m@.globals =~= Seq::empty());
        }
        m
    }
}

impl<'a> Module<'a> {
    /// The context this module belongs to.
    pub closed spec fn context(&self) -> &'a Context {
        self.ctx
    }

    pub fn get_context(&self) -> (c: &'a Context)
        ensures
            c == self.context(),
    {
        self.ctx
    }

    /// The data-layout string; empty until one is set.
    pub fn get_data_layout(&self) -> (r: String)
        ensures
            r@ == self@.data_layout,
    {
        self.data_layout.clone()
    }

    /// Replaces the data-layout string.
    pub fn set_data_layout(&mut self, triple: &str)
        ensures
            final(self).context() == old(self).context(),
            final(self)@ == (ModuleView { data_layout: triple@, ..old(self)@ }),
    {
        self.data_layout = triple.to_owned();
        proof {
            self.lemma_tables_unchanged(*old(self));
        }
    }

    /// The target triple; empty until one is set.
    pub fn get_target(&self) -> (r: String)
        ensures
            r@ == self@.target,
    {
        self.target.clone()
    }

    /// Replaces the target triple.
    pub fn set_target(&mut self, triple: &str)
        ensures
            final(self).context() == old(self).context(),
            final(self)@ == (ModuleView { target: triple@, ..old(self)@ }),
    {
        self.target = triple.to_owned();
        proof {
            self.lemma_tables_unchanged(*old(self));
        }
    }

    /// Replaces the module-level inline assembly.
    pub fn set_inline_asm(&mut self, code: &str)
        ensures
            final(self).context() == old(self).context(),
            final(self)@ == (ModuleView { inline_asm: code@, ..old(self)@ }),
    {
        self.inline_asm = code.to_owned();
        proof {
            self.lemma_tables_unchanged(*old(self));
        }
    }

    /// Where two modules hold the same tables, their views of them agree.
    proof fn lemma_tables_unchanged(&self, other: Module<'a>)
        requires
            self.types == other.types,
            self.named_md == other.named_md,
            self.functions == other.functions,
            self.globals == other.globals,
        ensures
            self@.types == other@.types,
            self@.named_md == other@.named_md,
            self@.functions == other@.functions,
            self@.globals == other@.globals,
    {
    }

    /// Gives the name `name` to type `t`, unless the name is already in use;
    /// reports whether it was.
    pub fn add_type_name(&mut self, name: &str, t: ty::Type) -> (in_use: bool)
        requires
            old(self)@.wf(),
        ensures
            final(self)@.wf(),
            final(self).context() == old(self).context(),
            in_use == (lookup(old(self)@.types, name@) is Some),
            final(self)@ == (ModuleView {
                types: if in_use {
                    old(self)@.types
                } else {
                    old(self)@.types.push((name@, t))
                },
                ..old(self)@
            }),
    {
        let key = name.to_owned();
        match self.find_type(&key) {
            Some(i) => {
                proof {
                    assert(self@.types[i as int].0 == name@);
                }
                true
            },
            None => {
                self.types.push(NamedType { name: key, ty: t });
                proof {
                    assert(self@.types =~= old(self)@.types.push((name@, t)));
                    assert(self@.functions =~= old(self)@.functions);
                    assert(self@.globals =~= old(self)@.globals);
                    assert(self@.named_md =~= old(self)@.named_md);
                }
                false
            },
        }
    }

    /// The type named `name` in this module; `None` where no type has that
    /// name. Absence is reported as `None` on purpose, rather than as a
    /// wrapper around the null handle, which would look valid but be unusable.
    pub fn get_type(&self, name: &str) -> (r: Option<ty::Type>)
        requires
            self@.wf(),
        ensures
            r == lookup(self@.types, name@),
    {
        let key = name.to_owned();
        match self.find_type(&key) {
            Some(i) => {
                proof {
                    let t = self@.types;
                    let k = choose|k: int| 0 <= k < t.len() && t[k].0 == name@;
                    assert(k == i as int);
                }
                Some(self.types[i].ty)
            },
            None => None,
        }
    }

    /// Position of the type named `name`, if the module has one.
    fn find_type(&self, name: &String) -> (r: Option<usize>)
        ensures
            match r {
                Some(i) => i < self@.types.len() && self@.types[i as int].0 == name@,
                None => forall|i: int|
                    0 <= i < self@.types.len() ==> self@.types[i].0 != name@,
            },
    {
        let n = self.types.len();
        let mut i: usize = 0;
        while i < n
            invariant
                n == self.types.len(),
                0 <= i <= n,
                forall|j: int| 0 <= j < i ==> self@.types[j].0 != name@,
            decreases n - i,
        {
            if self.types[i].name == *name {
                return Some(i);
            }
            i = i + 1;
        }
        None
    }

    /// Declares a function of type `fty`; it is appended after every function
    /// already in the module and receives a handle no other value of the
    /// module has.
    pub fn add_function(&mut self, name: &str, fty: ty::Function) -> (f: value::Function)
        requires
            old(self)@.wf(),
            old(self)@.next_value < u64::MAX,
        ensures
            final(self)@.wf(),
            final(self).context() == old(self).context(),
            f.handle() == old(self)@.next_value,
            final(self)@ == (ModuleView {
                functions: old(self)@.functions.push(
                    FunctionDecl { name: name@, ty: fty, value: f },
                ),
                next_value: (old(self)@.next_value + 1) as u64,
                ..old(self)@
            }),
    {
        let f = <value::Function as Wrapper<ValueRef>>::from_ref(self.next_value);
        self.functions.push(FunctionEntry { name: name.to_owned(), ty: fty, value: f });
        self.next_value = self.next_value + 1;
        proof {
            assert(self@.functions =~= old(self)@.functions.push(
                FunctionDecl { name: name@, ty: fty, value: f },
            ));
            assert(self@.globals =~= old(self)@.globals);
            assert(self@.types =~= old(self)@.types);
            assert(self@.named_md =~= old(self)@.named_md);
        }
        f
    }

    /// Hands each function of the module, in order, to `visitor` until it
    /// returns `false`; reports whether every function was visited.
    pub fn each_function<F: Fn(value::Function) -> bool>(&self, visitor: F) -> (r: bool)
        requires
            visitor_callable(self@.functions, visitor),
        ensures
            visit_outcome(self@.functions, visitor, r),
    {
        let n = self.functions.len();
        let mut i: usize = 0;
        while i < n
            invariant
                n == self.functions.len(),
                0 <= i <= n,
                visitor_callable(self@.functions, visitor),
                forall|j: int|
                    0 <= j < i ==> visitor.ensures((#[trigger] self@.functions[j].value,), true),
            decreases n - i,
        {
            let f = self.functions[i].value;
            proof {
                assert(f == self@.functions[i as int].value);
                assert(visitor.requires((self@.functions[i as int].value,)));
            }
            if !visitor(f) {
                return false;
            }
            i = i + 1;
        }
        true
    }

    /// Creates a global variable of element type `ty`; it receives a handle
    /// no other value of the module has.
    pub fn add_global<T: Ty>(&mut self, ty: T, name: &str) -> (g: value::Global<T>)
        requires
            old(self)@.wf(),
            old(self)@.next_value < u64::MAX,
        ensures
            final(self)@.wf(),
            final(self).context() == old(self).context(),
            g.handle() == old(self)@.next_value,
            final(self)@ == (ModuleView {
                globals: old(self)@.globals.push(
                    GlobalDecl { name: name@, ty: ty.handle(), value: g.handle() },
                ),
                next_value: (old(self)@.next_value + 1) as u64,
                ..old(self)@
            }),
    {
        let r = self.next_value;
        let tr = ty.to_ref();
        self.globals.push(GlobalEntry { name: name.to_owned(), ty: tr, value: r });
        self.next_value = self.next_value + 1;
        proof {
            assert(self@.globals =~= old(self)@.globals.push(
                GlobalDecl { name: name@, ty: tr, value: r },
            ));
            assert(self@.functions =~= old(self)@.functions);
            assert(self@.types =~= old(self)@.types);
            assert(self@.named_md =~= old(self)@.named_md);
        }
        <value::Global<T> as Wrapper<ValueRef>>::from_ref(r)
    }

    /// Position of the metadata node `name`, if the module has one.
    fn find_md(&self, name: &String) -> (r: Option<usize>)
        ensures
            match r {
                Some(i) => i < self@.named_md.len() && self@.named_md[i as int].0 == name@,
                None => forall|i: int|
                    0 <= i < self@.named_md.len() ==> self@.named_md[i].0 != name@,
            },
    {
        let n = self.named_md.len();
        let mut i: usize = 0;
        while i < n
            invariant
                n == self.named_md.len(),
                0 <= i <= n,
                forall|j: int| 0 <= j < i ==> self@.named_md[j].0 != name@,
            decreases n - i,
        {
            if self.named_md[i].name == *name {
                return Some(i);
            }
            i = i + 1;
        }
        None
    }

    /// The operands of the named metadata node `name`, in the order they were
    /// added; none where the module has no such node.
    pub fn get_named_md_operands(&self, name: &str) -> (r: Vec<value::Metadata>)
        requires
            self@.wf(),
        ensures
            r@ == md_operands(self@.named_md, name@),
    {
        let key = name.to_owned();
        match self.find_md(&key) {
            Some(i) => {
                let ops = self.named_md[i].operands.clone();
                proof {
                    let t = self@.named_md;
                    let k = choose|k: int| 0 <= k < t.len() && t[k].0 == name@;
                    assert(k == i as int);
                    assert(ops@ =~= self.named_md@[i as int].operands@);
                }
                ops
            },
            None => Vec::new(),
        }
    }

    /// Appends `val` to the operands of the named metadata node `name`,
    /// creating the node when the module has none of that name.
    pub fn add_named_md_operand(&mut self, name: &str, val: value::Metadata)
        requires
            old(self)@.wf(),
        ensures
            final(self)@.wf(),
            final(self).context() == old(self).context(),
            final(self)@ == (ModuleView {
                named_md: md_appended(old(self)@.named_md, name@, val),
                ..old(self)@
            }),
    {
        let key = name.to_owned();
        match self.find_md(&key) {
            Some(i) => {
                self.named_md[i].operands.push(val);
                proof {
                    let t = old(self)@.named_md;
                    let k = choose|k: int| 0 <= k < t.len() && t[k].0 == name@;
                    assert(k == i as int);
                    assert(self@.named_md =~= t.update(k, (name@, t[k].1.push(val))));
                }
            },
            None => {
                let ops = vec![val];
                self.named_md.push(NamedMd { name: key, operands: ops });
                proof {
                    let t = old(self)@.named_md;
                    assert(ops@ =~= seq![val]);
                    assert(self@.named_md =~= t.push((name@, seq![val])));
                }
            },
        }
        proof {
            assert(self@.functions =~= old(self)@.functions);
            assert(self@.globals =~= old(self)@.globals);
            assert(self@.types =~= old(self)@.types);
        }
    }
}

} // verus!
