//! Which declarations a file already holds, and from that what a run writes
//! into each file: every fragment, import and local function only once.
use crate::import::{lines_text, strings_view, ImportModule, ParentModuleType};
use crate::maps::{guard_at, guard_entries, guard_map_len, view_at, view_entries, view_map_len};
use crate::route::{GuardModel, ModuleModel, SeedGuard, SeedModule, SeedView, ViewModel};
use crate::templates::concat;
use crate::text::same_text;
use indexmap::IndexMap;
use vstd::prelude::*;

verus! {

/// The line that starts every newly created module file.
pub const IMPORT_SEED: &'static str = "use seed::{prelude::*, *};\n";

/// The kind of a top-level item.
#[derive(Debug, Clone, Copy, PartialEq, Eq, Structural)]
pub enum DeclarationKind {
    Function,
    Struct,
    Enum,
    Module,
    Other,
}

pub open spec fn decls_view(d: Seq<(DeclarationKind, String)>) -> Seq<(DeclarationKind, Seq<char>)> {
    d.map_values(|x: (DeclarationKind, String)| (x.0, x.1@))
}

/// The kinds and names of the top-level items of a Rust source text, as
/// `syn` parses it, or `None` when it does not parse.
pub uninterp spec fn declarations_of(src: Seq<char>) -> Option<Seq<(DeclarationKind, Seq<char>)>>;

/// Relies on `syn::parse_file`: the items of the file, each told apart by
/// its variant of `syn::Item`; the result depends on the text alone.
#[verifier::external_body]
fn parse_declarations(src: &str) -> (r: Option<Vec<(DeclarationKind, String)>>)
    ensures
        match r {
            Some(d) => declarations_of(src@) == Some(decls_view(d@)),
            None => declarations_of(src@) is None,
        },
{
    let file = syn::parse_file(src).ok()?;
    Some(file.items.iter().map(|item| match item {
        syn::Item::Fn(f) => (DeclarationKind::Function, f.sig.ident.to_string()),
        syn::Item::Struct(s) => (DeclarationKind::Struct, s.ident.to_string()),
        syn::Item::Enum(e) => (DeclarationKind::Enum, e.ident.to_string()),
        syn::Item::Mod(m) => (DeclarationKind::Module, m.ident.to_string()),
        _ => (DeclarationKind::Other, String::new()),
    }).collect())
}

/// `decls` has an item of kind `kind` named `name`.
pub open spec fn declares(decls: Seq<(DeclarationKind, Seq<char>)>, kind: DeclarationKind, name: Seq<
    char,
>) -> bool {
    exists|i: int| 0 <= i < decls.len() && decls[i].0 == kind && decls[i].1 == name
}

/// The top-level declarations of one existing file.
pub struct Checker {
    pub declarations: Vec<(DeclarationKind, String)>,
}

impl Checker {
    pub open spec fn decls(&self) -> Seq<(DeclarationKind, Seq<char>)> {
        decls_view(self.declarations@)
    }

    /// A checker over declarations already extracted from a file.
    pub fn from_declarations(declarations: Vec<(DeclarationKind, String)>) -> (r: Checker)
        ensures
            r.decls() == decls_view(declarations@),
    {
        Checker { declarations }
    }

    /// Parses `src`; a text that does not parse is taken as declaring nothing.
    pub fn store_content_for_check(src: &str) -> (r: Checker)
        ensures
            r.decls() == match declarations_of(src@) {
                Some(d) => d,
                None => Seq::empty(),
            },
    {
        match parse_declarations(src) {
            Some(d) => Checker::from_declarations(d),
            None => {
                let r = Checker::from_declarations(Vec::new());
                assert(r.decls() =~= Seq::<(DeclarationKind, Seq<char>)>::empty());
                r
            },
        }
    }

    /// The file has an item of kind `kind` named `name`.
    pub fn check_duplicate(&self, kind: DeclarationKind, name: &str) -> (r: bool)
        ensures
            r == declares(self.decls(), kind, name@),
    {
        let mut i: usize = 0;
        while i < self.declarations.len()
            invariant
                i <= self.declarations.len(),
                forall|j: int|
                    0 <= j < i ==> !(self.decls()[j].0 == kind && self.decls()[j].1 == name@),
            decreases self.declarations.len() - i,
        {
            let d = &self.declarations[i];
            assert(self.decls()[i as int] == (d.0, d.1@));
            if d.0 == kind && same_text(d.1.as_str(), name) {
                return true;
            }
            i = i + 1;
        }
        false
    }

    /// `fn init` exists.
    pub fn init_exist(&self) -> (r: bool)
        ensures
            r == declares(self.decls(), DeclarationKind::Function, "init"@),
    {
        self.check_duplicate(DeclarationKind::Function, "init")
    }

    /// `struct Model` exists.
    pub fn model_exist(&self) -> (r: bool)
        ensures
            r == declares(self.decls(), DeclarationKind::Struct, "Model"@),
    {
        self.check_duplicate(DeclarationKind::Struct, "Model")
    }

    /// `enum Routes` exists.
    pub fn routes_exist(&self) -> (r: bool)
        ensures
            r == declares(self.decls(), DeclarationKind::Enum, "Routes"@),
    {
        self.check_duplicate(DeclarationKind::Enum, "Routes")
    }

    /// `enum Msg` exists.
    pub fn message_exist(&self) -> (r: bool)
        ensures
            r == declares(self.decls(), DeclarationKind::Enum, "Msg"@),
    {
        self.check_duplicate(DeclarationKind::Enum, "Msg")
    }

    /// `fn update` exists.
    pub fn update_exist(&self) -> (r: bool)
        ensures
            r == declares(self.decls(), DeclarationKind::Function, "update"@),
    {
        self.check_duplicate(DeclarationKind::Function, "update")
    }

    /// `fn view` exists.
    pub fn view_exist(&self) -> (r: bool)
        ensures
            r == declares(self.decls(), DeclarationKind::Function, "view"@),
    {
        self.check_duplicate(DeclarationKind::Function, "view")
    }

    /// A function named `name` is declared at top level of `src`.
    pub fn check_local_function_exist(name: &str, src: &str) -> (r: bool)
        ensures
            r == match declarations_of(src@) {
                Some(d) => declares(d, DeclarationKind::Function, name@),
                None => false,
            },
    {
        let check = Checker::store_content_for_check(src);
        check.check_duplicate(DeclarationKind::Function, name)
    }

    /// The names of `parent_module`'s children that `src` already declares
    /// as modules, in order.
    pub fn return_mod_if_exist(src: &str, parent_module: &ImportModule) -> (r: Vec<String>)
        ensures
            strings_view(r@) == existing_children(
                parent_module@.imports_names,
                match declarations_of(src@) {
                    Some(d) => d,
                    None => Seq::empty(),
                },
            ),
    {
        let check = Checker::store_content_for_check(src);
        check.existing_modules(&parent_module.imports_names)
    }

    /// The names of `names` that this file declares as modules, in order.
    pub fn existing_modules(&self, names: &Vec<String>) -> (r: Vec<String>)
        ensures
            strings_view(r@) == existing_children(strings_view(names@), self.decls()),
    {
        let mut list: Vec<String> = Vec::new();
        let mut i: usize = 0;
        while i < names.len()
            invariant
                i <= names.len(),
                strings_view(list@) == existing_children(
                    strings_view(names@).subrange(0, i as int),
                    self.decls(),
                ),
            decreases names.len() - i,
        {
            let ghost all = strings_view(names@);
            assert(all.subrange(0, i + 1).drop_last() =~= all.subrange(0, i as int));
            let ghost before = list@;
            if self.check_duplicate(DeclarationKind::Module, names[i].as_str()) {
                list.push(names[i].clone());
                assert(strings_view(list@) =~= strings_view(before).push(names@[i as int]@));
            }
            i = i + 1;
        }
        assert(strings_view(names@).subrange(0, i as int) =~= strings_view(names@));
        list
    }
}

/// The names of `names` declared as modules in `decls`, in order.
pub open spec fn existing_children(names: Seq<Seq<char>>, decls: Seq<(DeclarationKind, Seq<char>)>) -> Seq<
    Seq<char>,
>
    decreases names.len(),
{
    if names.len() == 0 {
        Seq::empty()
    } else {
        let rest = existing_children(names.drop_last(), decls);
        if declares(decls, DeclarationKind::Module, names.last()) {
            rest.push(names.last())
        } else {
            rest
        }
    }
}

/// Whether a file was newly made in this run or already existed.
#[derive(Debug, Clone, Copy, PartialEq, Eq, Structural)]
pub enum FileOperation {
    /// The file has been created.
    Create,
    /// The file already existed and is updated.
    Update,
}

/// What a run did to one file.
#[derive(Debug, Clone, Copy, PartialEq, Eq, Structural)]
pub enum FileOutcome {
    Created,
    Updated,
    /// Everything was already there.
    Ignored,
}

/// The imports of the children whose names `decls` does not yet declare as
/// modules, in order.
pub open spec fn missing_imports(
    contents: Seq<Seq<char>>,
    names: Seq<Seq<char>>,
    decls: Seq<(DeclarationKind, Seq<char>)>,
) -> Seq<Seq<char>>
    decreases contents.len(),
{
    if contents.len() == 0 || names.len() < contents.len() {
        Seq::empty()
    } else {
        let n = contents.len() - 1;
        let rest = missing_imports(contents.drop_last(), names.subrange(0, n), decls);
        if declares(decls, DeclarationKind::Module, names[n]) {
            rest
        } else {
            rest.push(contents.last())
        }
    }
}

/// `f` alone, unless it is already present.
pub open spec fn fragment_if_missing(present: bool, f: Seq<char>) -> Seq<Seq<char>> {
    if present {
        Seq::empty()
    } else {
        seq![f]
    }
}

/// The fragments of `m` missing from a file with declarations `decls`, in
/// the order they are written.
pub open spec fn missing_fragments(m: ModuleModel, decls: Seq<(DeclarationKind, Seq<char>)>) -> Seq<
    Seq<char>,
> {
    fragment_if_missing(declares(decls, DeclarationKind::Function, "init"@), m.init)
        + fragment_if_missing(declares(decls, DeclarationKind::Struct, "Model"@), m.model)
        + fragment_if_missing(declares(decls, DeclarationKind::Enum, "Routes"@), m.routes)
        + fragment_if_missing(declares(decls, DeclarationKind::Enum, "Msg"@), m.msg)
        + fragment_if_missing(declares(decls, DeclarationKind::Function, "update"@), m.update)
        + fragment_if_missing(declares(decls, DeclarationKind::Function, "view"@), m.view)
}

/// The pieces concatenated.
pub open spec fn concat_all(parts: Seq<Seq<char>>) -> Seq<char>
    decreases parts.len(),
{
    if parts.len() == 0 {
        Seq::empty()
    } else {
        concat_all(parts.drop_last()) + parts.last()
    }
}

/// The whole text of a newly created module file.
pub open spec fn module_file_text(m: ModuleModel) -> Seq<char> {
    IMPORT_SEED@ + m.init + m.model + m.routes + m.msg + m.update + m.view
}

/// A function of this name is in the file or was written earlier in the run.
pub open spec fn fn_present(
    decls: Seq<(DeclarationKind, Seq<char>)>,
    written: Seq<Seq<char>>,
    name: Seq<char>,
) -> bool {
    declares(decls, DeclarationKind::Function, name) || written.contains(name)
}

/// Text appended, number of views or guards written, and the function
/// names written so far.
pub struct LocalPlan {
    pub text: Seq<char>,
    pub count: nat,
    pub written: Seq<Seq<char>>,
}

/// The local views after `start`: each whose function is not yet present is
/// written, followed by a newline.
pub open spec fn views_plan(
    views: Seq<(Seq<char>, ViewModel)>,
    decls: Seq<(DeclarationKind, Seq<char>)>,
    start: LocalPlan,
) -> LocalPlan
    decreases views.len(),
{
    if views.len() == 0 {
        start
    } else {
        let p = views_plan(views.drop_last(), decls, start);
        let (name, v) = views.last();
        if fn_present(decls, p.written, name) {
            p
        } else {
            LocalPlan {
                text: p.text + v.content + "\n"@,
                count: p.count + 1,
                written: p.written.push(name),
            }
        }
    }
}

/// The guards after `start`: each whose function is not yet present is
/// written, and then its redirect view unless that one is present.
pub open spec fn guards_plan(
    guards: Seq<(Seq<char>, GuardModel)>,
    decls: Seq<(DeclarationKind, Seq<char>)>,
    start: LocalPlan,
) -> LocalPlan
    decreases guards.len(),
{
    if guards.len() == 0 {
        start
    } else {
        let p = guards_plan(guards.drop_last(), decls, start);
        let (name, g) = guards.last();
        if fn_present(decls, p.written, name) {
            p
        } else {
            let w = p.written.push(name);
            let t = p.text + g.content + "\n"@;
            if fn_present(decls, w, g.redirect.name) {
                LocalPlan { text: t, count: p.count + 1, written: w }
            } else {
                LocalPlan {
                    text: t + g.redirect.content + "\n"@,
                    count: p.count + 1,
                    written: w.push(g.redirect.name),
                }
            }
        }
    }
}

pub open spec fn empty_plan() -> LocalPlan {
    LocalPlan { text: Seq::empty(), count: 0, written: Seq::empty() }
}

/// Everything the target file receives from local views and guards.
pub open spec fn local_plan(
    views: Seq<(Seq<char>, ViewModel)>,
    guards: Seq<(Seq<char>, GuardModel)>,
    decls: Seq<(DeclarationKind, Seq<char>)>,
) -> LocalPlan {
    guards_plan(guards, decls, views_plan(views, decls, empty_plan()))
}

/// The imports to write into the parent module's file: all of them into a
/// new file; into an existing one only those of children it does not
/// declare yet, and the file is ignored when none is left.
pub fn imports_file_plan(op: FileOperation, parent: &ImportModule, checker: &Checker) -> (r: (
    String,
    FileOutcome,
))
    requires
        parent.wf(),
    ensures
        op == FileOperation::Create ==> r.0@ == lines_text(parent@.imports_content) && r.1
            == FileOutcome::Created,
        op == FileOperation::Update ==> r.0@ == lines_text(
            missing_imports(parent@.imports_content, parent@.imports_names, checker.decls()),
        ) && r.1 == (if missing_imports(
            parent@.imports_content,
            parent@.imports_names,
            checker.decls(),
        ).len() == 0 {
            FileOutcome::Ignored
        } else {
            FileOutcome::Updated
        }),
{
    match op {
        FileOperation::Create => (parent.imports_to_write(), FileOutcome::Created),
        FileOperation::Update => {
            let ghost contents = parent@.imports_content;
            let ghost names = parent@.imports_names;
            let mut text = String::new();
            let mut kept: usize = 0;
            let mut i: usize = 0;
            while i < parent.imports_content.len()
                invariant
                    i <= parent.imports_content.len(),
                    parent.wf(),
                    contents == parent@.imports_content,
                    names == parent@.imports_names,
                    text@ == lines_text(
                        missing_imports(
                            contents.subrange(0, i as int),
                            names.subrange(0, i as int),
                            checker.decls(),
                        ),
                    ),
                    kept == missing_imports(
                        contents.subrange(0, i as int),
                        names.subrange(0, i as int),
                        checker.decls(),
                    ).len(),
                    kept <= i,
                decreases parent.imports_content.len() - i,
            {
                let ghost before = missing_imports(
                    contents.subrange(0, i as int),
                    names.subrange(0, i as int),
                    checker.decls(),
                );
                assert(contents.subrange(0, i + 1).drop_last() =~= contents.subrange(0, i as int));
                assert(names.subrange(0, i + 1).subrange(0, i as int) =~= names.subrange(
                    0,
                    i as int,
                ));
                assert(names.subrange(0, i + 1)[i as int] == parent.imports_names@[i as int]@);
                assert(contents.subrange(0, i + 1).last() == parent.imports_content@[i as int]@);
                if !checker.check_duplicate(
                    DeclarationKind::Module,
                    parent.imports_names[i].as_str(),
                ) {
                    text.append(parent.imports_content[i].as_str());
                    text.append("\n");
                    kept = kept + 1;
                    assert(lines_text(before.push(parent.imports_content@[i as int]@)) == text@)
                        by {
                        assert(before.push(parent.imports_content@[i as int]@).drop_last()
                            =~= before);
                    }
                }
                i = i + 1;
            }
            assert(contents.subrange(0, i as int) =~= contents);
            assert(names.subrange(0, i as int) =~= names);
            let outcome = if kept == 0 {
                FileOutcome::Ignored
            } else {
                FileOutcome::Updated
            };
            (text, outcome)
        },
    }
}

/// Appends `frag` to `text` unless it is `present`.
fn append_if_missing(text: &mut String, present: bool, frag: &str, parts: Ghost<Seq<Seq<char>>>) -> (r:
    Ghost<Seq<Seq<char>>>)
    requires
        old(text)@ == concat_all(parts@),
    ensures
        r@ == parts@ + fragment_if_missing(present, frag@),
        final(text)@ == concat_all(r@),
{
    if present {
        assert(parts@ + fragment_if_missing(present, frag@) =~= parts@);
        parts
    } else {
        text.append(frag);
        let ghost next = parts@ + fragment_if_missing(present, frag@);
        assert(next.drop_last() =~= parts@);
        Ghost(next)
    }
}

/// What a module's file receives: the whole module into a new file; into an
/// existing one each of the six declarations it lacks, the file being
/// ignored when it lacks none.
pub fn module_file_plan(op: FileOperation, module: &SeedModule, checker: &Checker) -> (r: (
    String,
    FileOutcome,
))
    ensures
        op == FileOperation::Create ==> r.0@ == module_file_text(module.contents()) && r.1
            == FileOutcome::Created,
        op == FileOperation::Update ==> r.0@ == concat_all(
            missing_fragments(module.contents(), checker.decls()),
        ) && r.1 == (if missing_fragments(module.contents(), checker.decls()).len() == 0 {
            FileOutcome::Ignored
        } else {
            FileOutcome::Updated
        }),
{
    match op {
        FileOperation::Create => {
            let t = concat(String::from_str(IMPORT_SEED), module.init());
            let t = concat(t, module.model());
            let t = concat(t, module.routes());
            let t = concat(t, module.msg());
            let t = concat(t, module.update());
            let t = concat(t, module.view());
            (t, FileOutcome::Created)
        },
        FileOperation::Update => {
            let ghost m = module.contents();
            let ghost d = checker.decls();
            let mut text = String::new();
            let a = checker.init_exist();
            let g = append_if_missing(&mut text, a, module.init(), Ghost(Seq::empty()));
            let b = checker.model_exist();
            let g = append_if_missing(&mut text, b, module.model(), g);
            let c = checker.routes_exist();
            let g = append_if_missing(&mut text, c, module.routes(), g);
            let e = checker.message_exist();
            let g = append_if_missing(&mut text, e, module.msg(), g);
            let f = checker.update_exist();
            let g = append_if_missing(&mut text, f, module.update(), g);
            let h = checker.view_exist();
            let g = append_if_missing(&mut text, h, module.view(), g);
            assert(g@ =~= missing_fragments(m, d));
            let all_present = a && b && c && e && f && h;
            assert(all_present == (missing_fragments(m, d).len() == 0));
            let outcome = if all_present {
                FileOutcome::Ignored
            } else {
                FileOutcome::Updated
            };
            (text, outcome)
        },
    }
}

/// `name` is one of `names`.
fn written_contains(names: &Vec<String>, name: &str) -> (r: bool)
    ensures
        r == strings_view(names@).contains(name@),
{
    let mut i: usize = 0;
    while i < names.len()
        invariant
            i <= names.len(),
            forall|j: int| 0 <= j < i ==> names@[j]@ != name@,
        decreases names.len() - i,
    {
        if same_text(names[i].as_str(), name) {
            assert(strings_view(names@)[i as int] == name@);
            return true;
        }
        i = i + 1;
    }
    assert forall|j: int| 0 <= j < strings_view(names@).len() implies strings_view(names@)[j]
        != name@ by {
        assert(strings_view(names@)[j] == names@[j]@);
    }
    false
}

/// What the target file receives from the local views and the guards, with
/// the number of views and guards written; the file is ignored when none is.
pub fn local_content_plan(
    views: &IndexMap<String, SeedView>,
    guards: &IndexMap<String, SeedGuard>,
    checker: &Checker,
) -> (r: (String, FileOutcome))
    ensures
        r.0@ == local_plan(view_entries(*views), guard_entries(*guards), checker.decls()).text,
        r.1 == (if local_plan(view_entries(*views), guard_entries(*guards), checker.decls()).count
            == 0 {
            FileOutcome::Ignored
        } else {
            FileOutcome::Updated
        }),
{
    let ghost d = checker.decls();
    let ghost ve = view_entries(*views);
    let ghost ge = guard_entries(*guards);
    let mut text = String::new();
    let mut any = false;
    let mut written: Vec<String> = Vec::new();
    let nv = view_map_len(views);
    let mut i: usize = 0;
    assert(strings_view(written@) =~= Seq::<Seq<char>>::empty());
    while i < nv
        invariant
            i <= nv,
            nv == ve.len(),
            ve == view_entries(*views),
            d == checker.decls(),
            views_plan(ve.subrange(0, i as int), d, empty_plan()).text == text@,
            views_plan(ve.subrange(0, i as int), d, empty_plan()).written == strings_view(
                written@,
            ),
            (views_plan(ve.subrange(0, i as int), d, empty_plan()).count > 0) == any,
        decreases nv - i,
    {
        let (name, view) = view_at(views, i);
        assert(ve.subrange(0, i + 1).drop_last() =~= ve.subrange(0, i as int));
        assert(ve.subrange(0, i + 1).last() == ve[i as int]);
        if !checker.check_duplicate(DeclarationKind::Function, name.as_str())
            && !written_contains(&written, name.as_str()) {
            text.append(view.content.as_str());
            text.append("\n");
            any = true;
            let ghost before = written@;
            written.push(name.clone());
            assert(strings_view(written@) =~= strings_view(before).push(name@));
        }
        i = i + 1;
    }
    assert(ve.subrange(0, i as int) =~= ve);
    let ghost mid = views_plan(ve, d, empty_plan());
    let ng = guard_map_len(guards);
    let mut k: usize = 0;
    while k < ng
        invariant
            k <= ng,
            ng == ge.len(),
            ge == guard_entries(*guards),
            d == checker.decls(),
            mid == views_plan(ve, d, empty_plan()),
            guards_plan(ge.subrange(0, k as int), d, mid).text == text@,
            guards_plan(ge.subrange(0, k as int), d, mid).written == strings_view(written@),
            (guards_plan(ge.subrange(0, k as int), d, mid).count > 0) == any,
        decreases ng - k,
    {
        let (name, guard) = guard_at(guards, k);
        assert(ge.subrange(0, k + 1).drop_last() =~= ge.subrange(0, k as int));
        assert(ge.subrange(0, k + 1).last() == ge[k as int]);
        if !checker.check_duplicate(DeclarationKind::Function, name.as_str())
            && !written_contains(&written, name.as_str()) {
            text.append(guard.content.as_str());
            text.append("\n");
            any = true;
            let ghost before = written@;
            written.push(name.clone());
            assert(strings_view(written@) =~= strings_view(before).push(name@));
            let redirect = &guard.redirect;
            if !checker.check_duplicate(DeclarationKind::Function, redirect.name.as_str())
                && !written_contains(&written, redirect.name.as_str()) {
                text.append(redirect.content.as_str());
                text.append("\n");
                let ghost before2 = written@;
                written.push(redirect.name.clone());
                assert(strings_view(written@) =~= strings_view(before2).push(redirect.name@));
            }
        }
        k = k + 1;
    }
    assert(ge.subrange(0, k as int) =~= ge);
    let outcome = if !any {
        FileOutcome::Ignored
    } else {
        FileOutcome::Updated
    };
    (text, outcome)
}

/// The declaration that the target file needs for the folder of modules:
/// `mod DIR;` when the modules live in a folder that the target file does
/// not declare yet, else nothing.
pub fn folder_import_plan(parent: &ImportModule, target: &Checker) -> (r: String)
    ensures
        r@ == if parent.parent_type == ParentModuleType::Folder && !declares(
            target.decls(),
            DeclarationKind::Module,
            parent.name@,
        ) {
            parent.meta.mod_import@ + "\n"@
        } else {
            Seq::empty()
        },
{
    match parent.parent_type {
        ParentModuleType::Folder => {
            if target.check_duplicate(DeclarationKind::Module, parent.name.as_str()) {
                String::new()
            } else {
                concat(String::from_str(parent.meta.mod_import()), "\n")
            }
        },
        ParentModuleType::TargetFile => String::new(),
    }
}

/// The counts that a run reports.
#[derive(Debug, Clone, Copy, PartialEq, Eq, Structural)]
pub struct RunTally {
    pub created: u64,
    pub updated: u64,
    pub ignored: u64,
}

impl RunTally {
    pub fn new() -> (r: RunTally)
        ensures
            r.created == 0 && r.updated == 0 && r.ignored == 0,
    {
        RunTally { created: 0, updated: 0, ignored: 0 }
    }

    /// Counts one file with the given outcome; a count that has reached
    /// `u64::MAX` stays there.
    pub fn record(&mut self, outcome: FileOutcome)
        ensures
            final(self).created == if outcome == FileOutcome::Created && old(self).created
                < u64::MAX {
                (old(self).created + 1) as u64
            } else {
                old(self).created
            },
            final(self).updated == if outcome == FileOutcome::Updated && old(self).updated
                < u64::MAX {
                (old(self).updated + 1) as u64
            } else {
                old(self).updated
            },
            final(self).ignored == if outcome == FileOutcome::Ignored && old(self).ignored
                < u64::MAX {
                (old(self).ignored + 1) as u64
            } else {
                old(self).ignored
            },
    {
        match outcome {
            FileOutcome::Created => {
                if self.created < u64::MAX {
                    self.created = self.created + 1;
                }
            },
            FileOutcome::Updated => {
                if self.updated < u64::MAX {
                    self.updated = self.updated + 1;
                }
            },
            FileOutcome::Ignored => {
                if self.ignored < u64::MAX {
                    self.ignored = self.ignored + 1;
                }
            },
        }
    }
}

} // verus!
