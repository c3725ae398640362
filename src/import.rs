//! The parent of the generated modules, which imports each of them: either
//! the target file itself, or a folder with its own `mod.rs`.
use crate::route::{MetaModel, ModuleMeta};
use crate::templates::concat;
use vstd::prelude::*;

verus! {

pub const ERROR_WHEN_PATH_EMPTY: &'static str = "Cannot have empty path for directory";

pub const ERROR_WHEN_MULTIPLE_FOLDERS_NOT_SUPPORTED: &'static str =
    "Does not support multiple directory for now";

/// Where the generated modules are declared.
#[derive(Debug, Clone, Copy, PartialEq, Eq, Structural)]
pub enum ParentModuleType {
    /// Directly in the target file, as private modules.
    TargetFile,
    /// In the `mod.rs` of a folder, as public modules; the target file then
    /// imports the folder.
    Folder,
}

/// The module that imports the generated modules (see
/// `#[modules_path = "pages"]`).
#[derive(Debug, Clone)]
pub struct ImportModule {
    /// Where this module is written, and how its own parent imports it.
    pub meta: ModuleMeta,
    pub folder_path: String,
    pub name: String,
    /// The import declarations of the children, in the order found.
    pub imports_content: Vec<String>,
    /// The children's names, index for index with `imports_content`.
    pub imports_names: Vec<String>,
    pub parent_type: ParentModuleType,
}

pub struct ImportModel {
    pub meta: MetaModel,
    pub folder_path: Seq<char>,
    pub name: Seq<char>,
    pub imports_content: Seq<Seq<char>>,
    pub imports_names: Seq<Seq<char>>,
    pub parent_type: ParentModuleType,
}

pub open spec fn strings_view(v: Seq<String>) -> Seq<Seq<char>> {
    v.map_values(|s: String| s@)
}

impl View for ImportModule {
    type V = ImportModel;

    open spec fn view(&self) -> ImportModel {
        ImportModel {
            meta: self.meta@,
            folder_path: self.folder_path@,
            name: self.name@,
            imports_content: strings_view(self.imports_content@),
            imports_names: strings_view(self.imports_names@),
            parent_type: self.parent_type,
        }
    }
}

/// Each line of `lines` followed by a newline.
pub open spec fn lines_text(lines: Seq<Seq<char>>) -> Seq<char>
    decreases lines.len(),
{
    if lines.len() == 0 {
        Seq::empty()
    } else {
        lines_text(lines.drop_last()) + lines.last() + "\n"@
    }
}

/// `mod NAME;`
pub open spec fn mod_decl(name: Seq<char>) -> Seq<char> {
    "mod "@ + name + ";"@
}

/// `pub mod NAME;`
pub open spec fn pub_mod_decl(name: Seq<char>) -> Seq<char> {
    "pub mod "@ + name + ";"@
}

/// `A/B`
pub open spec fn join_path(a: Seq<char>, b: Seq<char>) -> Seq<char> {
    a + "/"@ + b
}

/// What `generate_module_meta` computes for child `name`: its metadata and
/// the parent with the child's import appended.
pub open spec fn module_meta_spec(
    parent: ImportModel,
    name: Seq<char>,
    root_path_file: Seq<char>,
    target_file_path: Seq<char>,
) -> (MetaModel, ImportModel) {
    let import = match parent.parent_type {
        ParentModuleType::TargetFile => mod_decl(name),
        ParentModuleType::Folder => pub_mod_decl(name),
    };
    let meta = match parent.parent_type {
        ParentModuleType::TargetFile => MetaModel {
            filepath: join_path(root_path_file, name + ".rs"@),
            mod_import: import,
            import_file_location: target_file_path,
        },
        ParentModuleType::Folder => MetaModel {
            filepath: join_path(parent.folder_path, name + ".rs"@),
            mod_import: import,
            import_file_location: parent.meta.filepath,
        },
    };
    (
        meta,
        ImportModel {
            imports_content: parent.imports_content.push(import),
            imports_names: parent.imports_names.push(name),
            ..parent
        },
    )
}

/// The parent module for the folder `directory` under `current_path`.
pub open spec fn folder_module_spec(
    directory: Seq<char>,
    current_path: Seq<char>,
    target_file_path: Seq<char>,
) -> ImportModel {
    ImportModel {
        meta: MetaModel {
            filepath: join_path(join_path(current_path, directory), "mod.rs"@),
            mod_import: mod_decl(directory),
            import_file_location: target_file_path,
        },
        folder_path: join_path(current_path, directory),
        name: directory,
        imports_content: Seq::empty(),
        imports_names: Seq::empty(),
        parent_type: ParentModuleType::Folder,
    }
}

/// The target file as the parent module.
pub open spec fn target_module_spec(current_path: Seq<char>, target_file_path: Seq<char>) -> ImportModel {
    ImportModel {
        meta: MetaModel {
            filepath: target_file_path,
            mod_import: Seq::empty(),
            import_file_location: Seq::empty(),
        },
        folder_path: current_path,
        name: Seq::empty(),
        imports_content: Seq::empty(),
        imports_names: Seq::empty(),
        parent_type: ParentModuleType::TargetFile,
    }
}

/// Why `directory` cannot name the folder of the modules: it holds a `/`
/// (only one level is supported), or it is empty.
pub fn directory_error(directory: &str) -> (r: Option<String>)
    ensures
        directory@.contains('/') ==> (r matches Some(m) && m@
            == ERROR_WHEN_MULTIPLE_FOLDERS_NOT_SUPPORTED@),
        !directory@.contains('/') && directory@.len() == 0 ==> (r matches Some(m) && m@
            == ERROR_WHEN_PATH_EMPTY@),
        !directory@.contains('/') && directory@.len() > 0 ==> r is None,
{
    let n = directory.unicode_len();
    let mut i: usize = 0;
    while i < n
        invariant
            n == directory@.len(),
            i <= n,
            forall|j: int| 0 <= j < i ==> directory@[j] != '/',
        decreases n - i,
    {
        if directory.get_char(i) == '/' {
            assert(directory@[i as int] == '/');
            return Some(String::from_str(ERROR_WHEN_MULTIPLE_FOLDERS_NOT_SUPPORTED));
        }
        i = i + 1;
    }
    if n == 0 {
        return Some(String::from_str(ERROR_WHEN_PATH_EMPTY));
    }
    None
}

impl ImportModule {
    /// The two lists of children stay index for index.
    pub open spec fn wf(&self) -> bool {
        self.imports_content.len() == self.imports_names.len()
    }

    pub fn meta(&self) -> (r: &ModuleMeta)
        ensures
            *r == self.meta,
    {
        &self.meta
    }

    pub fn name(&self) -> (r: &str)
        ensures
            r@ == self.name@,
    {
        self.name.as_str()
    }

    pub fn imports_content(&self) -> (r: &Vec<String>)
        ensures
            *r == self.imports_content,
    {
        &self.imports_content
    }

    pub fn folder_path(&self) -> (r: &str)
        ensures
            r@ == self.folder_path@,
    {
        self.folder_path.as_str()
    }

    /// The children's imports, one per line.
    pub fn imports_to_write(&self) -> (r: String)
        ensures
            r@ == lines_text(self@.imports_content),
    {
        let mut content = String::new();
        let mut i: usize = 0;
        while i < self.imports_content.len()
            invariant
                i <= self.imports_content.len(),
                content@ == lines_text(strings_view(self.imports_content@).subrange(0, i as int)),
            decreases self.imports_content.len() - i,
        {
            let ghost all = strings_view(self.imports_content@);
            assert(all.subrange(0, i + 1).drop_last() =~= all.subrange(0, i as int));
            content.append(self.imports_content[i].as_str());
            content.append("\n");
            i = i + 1;
        }
        assert(strings_view(self.imports_content@).subrange(0, i as int) =~= strings_view(
            self.imports_content@,
        ));
        content
    }

    /// The folder `directory` under `current_path`, imported by the target
    /// file. The directory must be one non-empty name.
    pub fn new_folder_module(directory: &str, current_path: &str, target_file_path: &str) -> (r:
        Result<ImportModule, String>)
        ensures
            directory@.contains('/') ==> r is Err && r->Err_0@
                == ERROR_WHEN_MULTIPLE_FOLDERS_NOT_SUPPORTED@,
            !directory@.contains('/') && directory@.len() == 0 ==> r is Err && r->Err_0@
                == ERROR_WHEN_PATH_EMPTY@,
            !directory@.contains('/') && directory@.len() > 0 ==> r is Ok && r->Ok_0.wf() && r->Ok_0@
                == folder_module_spec(directory@, current_path@, target_file_path@),
    {
        if let Some(m) = directory_error(directory) {
            return Err(m);
        }
        let folder = concat(concat(String::from_str(current_path), "/"), directory);
        let filepath = concat(concat(folder.clone(), "/"), "mod.rs");
        let mod_import = concat(concat(String::from_str("mod "), directory), ";");
        let r = ImportModule {
            name: String::from_str(directory),
            folder_path: folder,
            meta: ModuleMeta::new(filepath, mod_import, String::from_str(target_file_path)),
            imports_content: Vec::new(),
            imports_names: Vec::new(),
            parent_type: ParentModuleType::Folder,
        };
        assert(strings_view(r.imports_content@) =~= Seq::<Seq<char>>::empty());
        assert(strings_view(r.imports_names@) =~= Seq::<Seq<char>>::empty());
        Ok(r)
    }

    /// The target file itself as the parent of the generated modules; nothing
    /// needs to import it.
    pub fn new_target_file_module(current_path: &str, target_file_path: &str) -> (r: Result<
        ImportModule,
        String,
    >)
        ensures
            r is Ok && r->Ok_0.wf() && r->Ok_0@ == target_module_spec(current_path@, target_file_path@),
    {
        let r = ImportModule {
            name: String::new(),
            folder_path: String::from_str(current_path),
            meta: ModuleMeta::new(String::from_str(target_file_path), String::new(), String::new()),
            imports_content: Vec::new(),
            imports_names: Vec::new(),
            parent_type: ParentModuleType::TargetFile,
        };
        assert(strings_view(r.imports_content@) =~= Seq::<Seq<char>>::empty());
        assert(strings_view(r.imports_names@) =~= Seq::<Seq<char>>::empty());
        Ok(r)
    }
}

/// The metadata of child module `name` and the parent with its import added:
/// a private `mod` beside the target file, or a `pub mod` in the folder.
pub fn generate_module_meta(
    parent_module: ImportModule,
    name: &str,
    root_path_file: &str,
    target_file_path: &str,
) -> (r: (ModuleMeta, ImportModule))
    requires
        parent_module.wf(),
    ensures
        r.1.wf(),
        (r.0@, r.1@) == module_meta_spec(
            parent_module@,
            name@,
            root_path_file@,
            target_file_path@,
        ),
{
    let mut parent = parent_module;
    let ghost old_parent = parent@;
    let file_name = concat(String::from_str(name), ".rs");
    match parent.parent_type {
        ParentModuleType::TargetFile => {
            let import = concat(concat(String::from_str("mod "), name), ";");
            let filepath = concat(concat(String::from_str(root_path_file), "/"), file_name.as_str());
            let meta = ModuleMeta::new(filepath, import.clone(), String::from_str(target_file_path));
            parent.imports_content.push(import);
            parent.imports_names.push(String::from_str(name));
            assert(strings_view(parent.imports_content@) =~= old_parent.imports_content.push(
                meta.mod_import@,
            ));
            assert(strings_view(parent.imports_names@) =~= old_parent.imports_names.push(name@));
            (meta, parent)
        },
        ParentModuleType::Folder => {
            let import = concat(concat(String::from_str("pub mod "), name), ";");
            let filepath = concat(
                concat(String::from_str(parent.folder_path.as_str()), "/"),
                file_name.as_str(),
            );
            let meta = ModuleMeta::new(
                filepath,
                import.clone(),
                String::from_str(parent.meta.filepath.as_str()),
            );
            parent.imports_content.push(import);
            parent.imports_names.push(String::from_str(name));
            assert(strings_view(parent.imports_content@) =~= old_parent.imports_content.push(
                meta.mod_import@,
            ));
            assert(strings_view(parent.imports_names@) =~= old_parent.imports_names.push(name@));
            (meta, parent)
        },
    }
}

} // verus!
