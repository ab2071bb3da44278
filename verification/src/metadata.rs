//! The typed metadata model: the declarative configuration of one inline
//! module, its validation, and a lossless serialization back to the raw
//! structured form that a format front end produces.
//!
//! The text format itself (JSON, RON) is outside this library: a front end
//! hands over a `RawMetadata` value, and `parse` turns it into a validated
//! `ModuleMetadata` or a `ConfigError`.

use vstd::prelude::*;

use crate::text::is_identifier;
use crate::text::is_package_name;
use crate::text::check_identifier;
use crate::text::check_package_name;

verus! {

/// The three kinds of macro that a module can export.
#[derive(Clone, Copy, PartialEq, Eq, Structural, Debug)]
pub enum MacroKind {
    Bang,
    Derive,
    Attribute,
}

/// Why a raw metadata value was rejected.
#[derive(Clone, Copy, PartialEq, Eq, Structural, Debug)]
pub enum ConfigError {
    /// The mandatory `exports` table is absent.
    MissingField,
    /// The raw value carries a key this model does not know.
    UnknownOption,
    /// A field is present but invalid: an export name is empty or reused,
    /// a function name is not an identifier, or a dependency key is not a
    /// valid package name.
    Malformed,
}

/// One dependency of the synthesized project. The version or structured
/// spec is opaque here: it is copied verbatim into the manifest.
#[derive(Debug, Clone, PartialEq, Eq)]
pub struct Dependency {
    pub name: String,
    pub spec_text: String,
}

/// One declared export: the external macro name, the function inside the
/// module that implements it, and whether the macro is exported crate-wide.
#[derive(Debug, Clone, PartialEq, Eq)]
pub struct ExportEntry {
    pub name: String,
    pub function: String,
    pub exported: bool,
}

/// The three export tables of a module, one per macro kind.
#[derive(Debug, Clone, PartialEq, Eq)]
pub struct ExportTable {
    pub bang_macros: Vec<ExportEntry>,
    pub derives: Vec<ExportEntry>,
    pub attributes: Vec<ExportEntry>,
}

/// The validated configuration of one inline module.
#[derive(Debug, Clone, PartialEq, Eq)]
pub struct ModuleMetadata {
    /// Path of the external build tool; `None` leaves the choice to the host.
    pub build_tool: Option<String>,
    /// Whether the build tool is asked for colored output.
    pub use_color: bool,
    /// Whether a lint pass precedes the build.
    pub run_lint: bool,
    /// The edition the synthesized project declares.
    pub edition: String,
    /// The dependency table, copied verbatim into the manifest.
    pub dependencies: Vec<Dependency>,
    /// Path that non-exported wrappers use to reach the invocation
    /// capability; `None` means the default path.
    pub crate_path_override: Option<String>,
    /// The declared exports.
    pub exports: ExportTable,
}

/// A raw export entry value: either a bare function name, or the full
/// record form with an explicit export flag.
#[derive(Debug, Clone, PartialEq, Eq)]
pub enum RawExportValue {
    Bare(String),
    Full { function: String, export: bool },
}

/// One raw export entry: external name and value.
#[derive(Debug, Clone, PartialEq, Eq)]
pub struct RawExportEntry {
    pub name: String,
    pub value: RawExportValue,
}

/// The raw export tables, as the format front end hands them over.
#[derive(Debug, Clone, PartialEq, Eq)]
pub struct RawExports {
    pub bang_macros: Vec<RawExportEntry>,
    pub derives: Vec<RawExportEntry>,
    pub attributes: Vec<RawExportEntry>,
}

/// The raw structured metadata value. Absent optional keys are `None`;
/// keys the front end did not recognize are reported in `unknown_options`.
#[derive(Debug, Clone, PartialEq, Eq)]
pub struct RawMetadata {
    pub cargo_path: Option<String>,
    pub color: Option<bool>,
    pub clippy: Option<bool>,
    pub edition: Option<String>,
    pub dependencies: Option<Vec<Dependency>>,
    pub inline_proc_path: Option<String>,
    pub exports: Option<RawExports>,
    pub unknown_options: Vec<String>,
}

/// Spec-level mirror of `Dependency`.
#[verifier::ext_equal]
pub ghost struct DependencyV {
    pub name: Seq<char>,
    pub spec_text: Seq<char>,
}

/// Spec-level mirror of `ExportEntry`.
#[verifier::ext_equal]
pub ghost struct ExportEntryV {
    pub name: Seq<char>,
    pub function: Seq<char>,
    pub exported: bool,
}

/// Spec-level mirror of `ExportTable`.
#[verifier::ext_equal]
pub ghost struct ExportTableV {
    pub bang_macros: Seq<ExportEntryV>,
    pub derives: Seq<ExportEntryV>,
    pub attributes: Seq<ExportEntryV>,
}

/// Spec-level mirror of `ModuleMetadata`.
#[verifier::ext_equal]
pub ghost struct ModuleMetadataV {
    pub build_tool: Option<Seq<char>>,
    pub use_color: bool,
    pub run_lint: bool,
    pub edition: Seq<char>,
    pub dependencies: Seq<DependencyV>,
    pub crate_path_override: Option<Seq<char>>,
    pub exports: ExportTableV,
}

/// Spec-level mirror of `RawExportValue`.
#[verifier::ext_equal]
pub ghost enum RawExportValueV {
    Bare(Seq<char>),
    Full { function: Seq<char>, export: bool },
}

/// Spec-level mirror of `RawExportEntry`.
#[verifier::ext_equal]
pub ghost struct RawExportEntryV {
    pub name: Seq<char>,
    pub value: RawExportValueV,
}

/// Spec-level mirror of `RawExports`.
#[verifier::ext_equal]
pub ghost struct RawExportsV {
    pub bang_macros: Seq<RawExportEntryV>,
    pub derives: Seq<RawExportEntryV>,
    pub attributes: Seq<RawExportEntryV>,
}

/// Spec-level mirror of `RawMetadata`.
#[verifier::ext_equal]
pub ghost struct RawMetadataV {
    pub cargo_path: Option<Seq<char>>,
    pub color: Option<bool>,
    pub clippy: Option<bool>,
    pub edition: Option<Seq<char>>,
    pub dependencies: Option<Seq<DependencyV>>,
    pub inline_proc_path: Option<Seq<char>>,
    pub exports: Option<RawExportsV>,
    pub unknown_options: Seq<Seq<char>>,
}

impl DeepView for Dependency {
    type V = DependencyV;

    open spec fn deep_view(&self) -> DependencyV {
        DependencyV { name: self.name@, spec_text: self.spec_text@ }
    }
}

impl DeepView for ExportEntry {
    type V = ExportEntryV;

    open spec fn deep_view(&self) -> ExportEntryV {
        ExportEntryV { name: self.name@, function: self.function@, exported: self.exported }
    }
}

impl DeepView for ExportTable {
    type V = ExportTableV;

    open spec fn deep_view(&self) -> ExportTableV {
        ExportTableV {
            bang_macros: self.bang_macros.deep_view(),
            derives: self.derives.deep_view(),
            attributes: self.attributes.deep_view(),
        }
    }
}

impl DeepView for ModuleMetadata {
    type V = ModuleMetadataV;

    open spec fn deep_view(&self) -> ModuleMetadataV {
        ModuleMetadataV {
            build_tool: self.build_tool.deep_view(),
            use_color: self.use_color,
            run_lint: self.run_lint,
            edition: self.edition@,
            dependencies: self.dependencies.deep_view(),
            crate_path_override: self.crate_path_override.deep_view(),
            exports: self.exports.deep_view(),
        }
    }
}

impl DeepView for RawExportValue {
    type V = RawExportValueV;

    open spec fn deep_view(&self) -> RawExportValueV {
        match self {
            RawExportValue::Bare(f) => RawExportValueV::Bare(f@),
            RawExportValue::Full { function, export } => RawExportValueV::Full {
                function: function@,
                export: *export,
            },
        }
    }
}

impl DeepView for RawExportEntry {
    type V = RawExportEntryV;

    open spec fn deep_view(&self) -> RawExportEntryV {
        RawExportEntryV { name: self.name@, value: self.value.deep_view() }
    }
}

impl DeepView for RawExports {
    type V = RawExportsV;

    open spec fn deep_view(&self) -> RawExportsV {
        RawExportsV {
            bang_macros: self.bang_macros.deep_view(),
            derives: self.derives.deep_view(),
            attributes: self.attributes.deep_view(),
        }
    }
}

impl DeepView for RawMetadata {
    type V = RawMetadataV;

    open spec fn deep_view(&self) -> RawMetadataV {
        RawMetadataV {
            cargo_path: self.cargo_path.deep_view(),
            color: self.color,
            clippy: self.clippy,
            edition: self.edition.deep_view(),
            dependencies: self.dependencies.deep_view(),
            inline_proc_path: self.inline_proc_path.deep_view(),
            exports: self.exports.deep_view(),
            unknown_options: self.unknown_options.deep_view(),
        }
    }
}

/// The function a raw export value names.
pub open spec fn raw_value_function(v: RawExportValueV) -> Seq<char> {
    match v {
        RawExportValueV::Bare(f) => f,
        RawExportValueV::Full { function, .. } => function,
    }
}

/// The export flag of a raw export value; the bare form is not exported.
pub open spec fn raw_value_exported(v: RawExportValueV) -> bool {
    match v {
        RawExportValueV::Bare(_) => false,
        RawExportValueV::Full { export, .. } => export,
    }
}

/// The typed entry a raw entry parses to.
pub open spec fn entry_of_raw(e: RawExportEntryV) -> ExportEntryV {
    ExportEntryV {
        name: e.name,
        function: raw_value_function(e.value),
        exported: raw_value_exported(e.value),
    }
}

/// The typed entries a raw entry list parses to, order kept.
pub open spec fn entries_of_raw(s: Seq<RawExportEntryV>) -> Seq<ExportEntryV> {
    s.map_values(|e: RawExportEntryV| entry_of_raw(e))
}

/// The typed table the raw tables parse to.
pub open spec fn table_of_raw(e: RawExportsV) -> ExportTableV {
    ExportTableV {
        bang_macros: entries_of_raw(e.bang_macros),
        derives: entries_of_raw(e.derives),
        attributes: entries_of_raw(e.attributes),
    }
}

/// The raw entry a typed entry serializes to: always the full record form.
pub open spec fn raw_of_entry(e: ExportEntryV) -> RawExportEntryV {
    RawExportEntryV {
        name: e.name,
        value: RawExportValueV::Full { function: e.function, export: e.exported },
    }
}

/// All export names of a table, bang first, then derives, then attributes.
pub open spec fn all_export_names(t: ExportTableV) -> Seq<Seq<char>> {
    t.bang_macros.map_values(|e: ExportEntryV| e.name) + t.derives.map_values(
        |e: ExportEntryV| e.name,
    ) + t.attributes.map_values(|e: ExportEntryV| e.name)
}

/// No name occurs twice.
pub open spec fn names_unique(s: Seq<Seq<char>>) -> bool {
    forall|i: int, j: int| 0 <= i < j < s.len() ==> s[i] != s[j]
}

/// Every entry of a list has a non-empty name and a function that is a
/// syntactically valid identifier.
pub open spec fn entries_wf(s: Seq<ExportEntryV>) -> bool {
    forall|i: int|
        0 <= i < s.len() ==> (#[trigger] s[i]).name.len() > 0 && is_identifier(s[i].function)
}

impl ExportTableV {
    /// Every entry is well-formed and no export name is reused.
    pub open spec fn wf(self) -> bool {
        &&& entries_wf(self.bang_macros)
        &&& entries_wf(self.derives)
        &&& entries_wf(self.attributes)
        &&& names_unique(all_export_names(self))
    }
}

impl ModuleMetadataV {
    /// The validation `parse` establishes: well-formed exports and valid
    /// dependency package names.
    pub open spec fn wf(self) -> bool {
        &&& self.exports.wf()
        &&& forall|i: int|
            0 <= i < self.dependencies.len() ==> is_package_name(
                (#[trigger] self.dependencies[i]).name,
            )
    }
}

/// What `parse` returns, as a function of the raw value: the first unknown
/// option or missing mandatory field is reported; otherwise defaults are
/// filled in and the result is validated.
pub open spec fn spec_parse(raw: RawMetadataV) -> Result<ModuleMetadataV, ConfigError> {
    if raw.unknown_options.len() > 0 {
        Err(ConfigError::UnknownOption)
    } else {
        match raw.exports {
            None => Err(ConfigError::MissingField),
            Some(ex) => {
                let m = spec_metadata_of(raw, ex);
                if m.wf() {
                    Ok(m)
                } else {
                    Err(ConfigError::Malformed)
                }
            },
        }
    }
}

/// The metadata value a raw value with exports `ex` parses to, defaults
/// filled in, before validation.
pub open spec fn spec_metadata_of(raw: RawMetadataV, ex: RawExportsV) -> ModuleMetadataV {
    ModuleMetadataV {
        build_tool: raw.cargo_path,
        use_color: match raw.color {
            Some(b) => b,
            None => true,
        },
        run_lint: match raw.clippy {
            Some(b) => b,
            None => false,
        },
        edition: match raw.edition {
            Some(e) => e,
            None => "2015"@,
        },
        dependencies: match raw.dependencies {
            Some(d) => d,
            None => Seq::empty(),
        },
        crate_path_override: raw.inline_proc_path,
        exports: table_of_raw(ex),
    }
}

/// What `serialize` returns: every documented field written back, the
/// export entries in the full record form.
pub open spec fn spec_serialize(m: ModuleMetadataV) -> RawMetadataV {
    RawMetadataV {
        cargo_path: m.build_tool,
        color: Some(m.use_color),
        clippy: Some(m.run_lint),
        edition: Some(m.edition),
        dependencies: Some(m.dependencies),
        inline_proc_path: m.crate_path_override,
        exports: Some(
            RawExportsV {
                bang_macros: m.exports.bang_macros.map_values(
                    |e: ExportEntryV| raw_of_entry(e),
                ),
                derives: m.exports.derives.map_values(|e: ExportEntryV| raw_of_entry(e)),
                attributes: m.exports.attributes.map_values(|e: ExportEntryV| raw_of_entry(e)),
            },
        ),
        unknown_options: Seq::empty(),
    }
}

/// Parsing back a serialized metadata value loses nothing: every documented
/// field of the original is recovered exactly.
pub proof fn lemma_metadata_round_trip(m: ModuleMetadataV)
    requires
        m.wf(),
    ensures
        spec_parse(spec_serialize(m)) == Ok::<ModuleMetadataV, ConfigError>(m),
{
    let raw = spec_serialize(m);
    assert(entries_of_raw(m.exports.bang_macros.map_values(|e: ExportEntryV| raw_of_entry(e)))
        =~~= m.exports.bang_macros);
    assert(entries_of_raw(m.exports.derives.map_values(|e: ExportEntryV| raw_of_entry(e)))
        =~~= m.exports.derives);
    assert(entries_of_raw(m.exports.attributes.map_values(|e: ExportEntryV| raw_of_entry(e)))
        =~~= m.exports.attributes);
    assert(table_of_raw(raw.exports->0) =~~= m.exports);
    assert(spec_parse(raw)->Ok_0 =~~= m);
}

/// Converts one raw export list, keeping the order.
fn convert_entries(v: &Vec<RawExportEntry>) -> (r: Vec<ExportEntry>)
    ensures
        r.deep_view() == entries_of_raw(v.deep_view()),
{
    let mut r: Vec<ExportEntry> = Vec::new();
    let n = v.len();
    let mut i: usize = 0;
    while i < n
        invariant
            0 <= i <= n,
            n == v.len(),
            r@.len() == i,
            forall|k: int|
                0 <= k < i ==> (#[trigger] r@[k]).deep_view() == entries_of_raw(v.deep_view())[k],
        decreases n - i,
    {
        let e = &v[i];
        let (function, exported): (String, bool) = match &e.value {
            RawExportValue::Bare(f) => (f.clone(), false),
            RawExportValue::Full { function, export } => (function.clone(), *export),
        };
        r.push(ExportEntry { name: e.name.clone(), function, exported });
        assert(r@[i as int].deep_view() =~~= entries_of_raw(v.deep_view())[i as int]);
        i = i + 1;
    }
    assert(r.deep_view() =~~= entries_of_raw(v.deep_view()));
    r
}

/// Decides `entries_wf` for one export list.
fn check_entries(v: &Vec<ExportEntry>) -> (b: bool)
    ensures
        b == entries_wf(v.deep_view()),
{
    let n = v.len();
    let mut i: usize = 0;
    while i < n
        invariant
            0 <= i <= n,
            n == v.len(),
            forall|j: int|
                0 <= j < i ==> (#[trigger] v.deep_view()[j]).name.len() > 0 && is_identifier(
                    v.deep_view()[j].function,
                ),
        decreases n - i,
    {
        let e = &v[i];
        if e.name.as_str().unicode_len() == 0 || !check_identifier(e.function.as_str()) {
            assert(!entries_wf(v.deep_view())) by {
                assert(v.deep_view()[i as int] == e.deep_view());
            }
            return false;
        }
        assert(v.deep_view()[i as int] == e.deep_view());
        i = i + 1;
    }
    true
}

/// Decides `names_unique` for a name list.
fn check_unique(names: &Vec<String>) -> (b: bool)
    ensures
        b == names_unique(names.deep_view()),
{
    let n = names.len();
    let mut i: usize = 0;
    while i < n
        invariant
            0 <= i <= n,
            n == names.len(),
            forall|p: int, q: int|
                0 <= p < q < names.deep_view().len() && p < i ==> names.deep_view()[p]
                    != names.deep_view()[q],
        decreases n - i,
    {
        let mut j: usize = i + 1;
        while j < n
            invariant
                0 <= i < j <= n,
                n == names.len(),
                forall|q: int|
                    i < q < j ==> names.deep_view()[i as int] != #[trigger] names.deep_view()[q],
            decreases n - j,
        {
            let same = names[i].eq(&names[j]);
            if same {
                assert(names.deep_view()[i as int] == names.deep_view()[j as int]);
                return false;
            }
            j = j + 1;
        }
        i = i + 1;
    }
    true
}

/// Appends the names of one export list, in order.
fn append_names(names: Vec<String>, v: &Vec<ExportEntry>) -> (r: Vec<String>)
    ensures
        r.deep_view() == names.deep_view() + v.deep_view().map_values(
            |e: ExportEntryV| e.name,
        ),
{
    let mut r = names;
    let ghost base = r@.len() as int;
    let ghost orig = r@;
    let n = v.len();
    let mut i: usize = 0;
    while i < n
        invariant
            0 <= i <= n,
            n == v.len(),
            0 <= base,
            r@.len() == base + i,
            forall|k: int| 0 <= k < base ==> #[trigger] r@[k] == orig[k],
            forall|k: int|
                base <= k < base + i ==> (#[trigger] r@[k])@ == v.deep_view()[k - base].name,
        decreases n - i,
    {
        let ghost prev = r@;
        r.push(v[i].name.clone());
        assert(r@[base + i].view() =~~= v.deep_view()[i as int].name);
        proof {
            assert forall|k: int| base <= k < base + (i + 1) implies (#[trigger] r@[k])@
                == v.deep_view()[k - base].name by {
                if k == base + i {
                    assert(v.deep_view()[k - base] == v.deep_view()[i as int]);
                } else {
                    assert(0 <= k < prev.len());
                    assert(r@[k] == prev[k]);
                    assert((prev[k])@ == v.deep_view()[k - base].name);
                }
            }
        }
        i = i + 1;
    }
    assert(r.deep_view() =~~= orig.map_values(|s: String| s@) + v.deep_view().map_values(
        |e: ExportEntryV| e.name,
    ));
    assert(orig.map_values(|s: String| s@) =~~= names.deep_view());
    r
}

/// Decides the dependency-name condition of `ModuleMetadataV::wf`.
fn check_dependencies(v: &Vec<Dependency>) -> (b: bool)
    ensures
        b == forall|i: int|
            0 <= i < v.deep_view().len() ==> is_package_name(
                (#[trigger] v.deep_view()[i]).name,
            ),
{
    let n = v.len();
    let mut i: usize = 0;
    while i < n
        invariant
            0 <= i <= n,
            n == v.len(),
            forall|j: int| 0 <= j < i ==> is_package_name((#[trigger] v.deep_view()[j]).name),
        decreases n - i,
    {
        if !check_package_name(v[i].name.as_str()) {
            assert(!is_package_name(v.deep_view()[i as int].name));
            return false;
        }
        assert(is_package_name(v.deep_view()[i as int].name));
        i = i + 1;
    }
    true
}

/// Clones a dependency list, keeping every field.
fn clone_dependencies(v: &Vec<Dependency>) -> (r: Vec<Dependency>)
    ensures
        r.deep_view() == v.deep_view(),
{
    let mut r: Vec<Dependency> = Vec::new();
    let n = v.len();
    let mut i: usize = 0;
    while i < n
        invariant
            0 <= i <= n,
            n == v.len(),
            r@.len() == i,
            forall|k: int| 0 <= k < i ==> (#[trigger] r@[k]).deep_view() == v.deep_view()[k],
        decreases n - i,
    {
        let d = &v[i];
        r.push(Dependency { name: d.name.clone(), spec_text: d.spec_text.clone() });
        assert(r@[i as int].deep_view() =~~= v.deep_view()[i as int]);
        i = i + 1;
    }
    assert(r.deep_view() =~~= v.deep_view());
    r
}

/// Clones an optional string.
fn clone_opt_string(s: &Option<String>) -> (r: Option<String>)
    ensures
        r.deep_view() == s.deep_view(),
{
    match s {
        Some(x) => Some(x.clone()),
        None => None,
    }
}

/// Parses and validates a raw metadata value.
///
/// Succeeds exactly on raw values with no unknown option, an `exports`
/// table present, every export name non-empty and unique, every export
/// function a valid identifier, and every dependency key a valid package
/// name; absent optional fields take their documented defaults.
pub fn parse(raw: &RawMetadata) -> (r: Result<ModuleMetadata, ConfigError>)
    ensures
        match (r, spec_parse(raw.deep_view())) {
            (Ok(m), Ok(mv)) => m.deep_view() == mv && mv.wf(),
            (Err(e), Err(ev)) => e == ev,
            _ => false,
        },
{
    if raw.unknown_options.len() > 0 {
        return Err(ConfigError::UnknownOption);
    }
    let ex = match &raw.exports {
        None => {
            return Err(ConfigError::MissingField);
        },
        Some(ex) => ex,
    };
    let bang_macros = convert_entries(&ex.bang_macros);
    let derives = convert_entries(&ex.derives);
    let attributes = convert_entries(&ex.attributes);
    if !(check_entries(&bang_macros) && check_entries(&derives) && check_entries(&attributes)) {
        return Err(ConfigError::Malformed);
    }
    let mut names: Vec<String> = Vec::new();
    names = append_names(names, &bang_macros);
    names = append_names(names, &derives);
    names = append_names(names, &attributes);
    let exports = ExportTable { bang_macros, derives, attributes };
    assert(exports.deep_view() =~~= table_of_raw(ex.deep_view()));
    assert(names.deep_view() =~~= all_export_names(exports.deep_view()));
    if !check_unique(&names) {
        return Err(ConfigError::Malformed);
    }
    let dependencies: Vec<Dependency> = match &raw.dependencies {
        Some(d) => {
            if !check_dependencies(d) {
                assert(raw.deep_view().dependencies == Some(d.deep_view()));
                assert(raw.deep_view().exports == Some(ex.deep_view()));
                assert(spec_metadata_of(raw.deep_view(), ex.deep_view()).dependencies
                    == d.deep_view());
                assert(!(forall|i: int|
                    0 <= i < d.deep_view().len() ==> is_package_name(
                        (#[trigger] d.deep_view()[i]).name,
                    )));
                assert(!spec_metadata_of(raw.deep_view(), ex.deep_view()).wf());
                assert(spec_parse(raw.deep_view()) is Err);
                return Err(ConfigError::Malformed);
            }
            clone_dependencies(d)
        },
        None => Vec::new(),
    };
    assert(forall|i: int|
        0 <= i < dependencies.deep_view().len() ==> is_package_name(
            (#[trigger] dependencies.deep_view()[i]).name,
        ));
    let m = ModuleMetadata {
        build_tool: clone_opt_string(&raw.cargo_path),
        use_color: match raw.color {
            Some(b) => b,
            None => true,
        },
        run_lint: match raw.clippy {
            Some(b) => b,
            None => false,
        },
        edition: match &raw.edition {
            Some(e) => e.clone(),
            None => String::from_str("2015"),
        },
        dependencies,
        crate_path_override: clone_opt_string(&raw.inline_proc_path),
        exports,
    };
    assert(m.deep_view() =~~= spec_parse(raw.deep_view())->Ok_0);
    Ok(m)
}

/// Clones one export list back into its raw full-record form.
fn serialize_entries(v: &Vec<ExportEntry>) -> (r: Vec<RawExportEntry>)
    ensures
        r.deep_view() == v.deep_view().map_values(|e: ExportEntryV| raw_of_entry(e)),
{
    let mut r: Vec<RawExportEntry> = Vec::new();
    let n = v.len();
    let mut i: usize = 0;
    while i < n
        invariant
            0 <= i <= n,
            n == v.len(),
            r@.len() == i,
            forall|k: int|
                0 <= k < i ==> (#[trigger] r@[k]).deep_view() == raw_of_entry(v.deep_view()[k]),
        decreases n - i,
    {
        let e = &v[i];
        r.push(
            RawExportEntry {
                name: e.name.clone(),
                value: RawExportValue::Full { function: e.function.clone(), export: e.exported },
            },
        );
        assert(r@[i as int].deep_view() =~~= raw_of_entry(v.deep_view()[i as int]));
        i = i + 1;
    }
    assert(r.deep_view() =~~= v.deep_view().map_values(|e: ExportEntryV| raw_of_entry(e)));
    r
}

/// Serializes a metadata value back to the raw structured form, writing
/// every documented field out.
pub fn serialize(m: &ModuleMetadata) -> (r: RawMetadata)
    ensures
        r.deep_view() == spec_serialize(m.deep_view()),
{
    let r = RawMetadata {
        cargo_path: clone_opt_string(&m.build_tool),
        color: Some(m.use_color),
        clippy: Some(m.run_lint),
        edition: Some(m.edition.clone()),
        dependencies: Some(clone_dependencies(&m.dependencies)),
        inline_proc_path: clone_opt_string(&m.crate_path_override),
        exports: Some(
            RawExports {
                bang_macros: serialize_entries(&m.exports.bang_macros),
                derives: serialize_entries(&m.exports.derives),
                attributes: serialize_entries(&m.exports.attributes),
            },
        ),
        unknown_options: Vec::new(),
    };
    assert(r.deep_view() =~~= spec_serialize(m.deep_view()));
    r
}

} // verus!
