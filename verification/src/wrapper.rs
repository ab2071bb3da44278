//! The wrapper generator: for each declared export it emits the text of a
//! forwarding macro whose expansion is exactly one call into the dynamic
//! invoker, with the artifact path, the symbol name, the kind tag and the
//! caller's tokens, in that order.

use vstd::prelude::*;

use crate::invoke::InvocationRequest;
use crate::invoke::payload_arity;
use crate::metadata::ExportEntry;
use crate::metadata::ExportEntryV;
use crate::metadata::MacroKind;

verus! {

/// The tag naming a macro kind inside a generated wrapper.
pub open spec fn kind_tag(kind: MacroKind) -> Seq<char> {
    match kind {
        MacroKind::Bang => "bang"@,
        MacroKind::Derive => "derive"@,
        MacroKind::Attribute => "attribute"@,
    }
}

/// Returns the kind tag.
pub fn kind_tag_str(kind: MacroKind) -> (r: &'static str)
    ensures
        r@ == kind_tag(kind),
{
    match kind {
        MacroKind::Bang => "bang",
        MacroKind::Derive => "derive",
        MacroKind::Attribute => "attribute",
    }
}

/// The path non-exported wrappers reach the invocation capability by, when
/// the metadata does not override it.
pub open spec fn default_crate_path() -> Seq<char> {
    "::inline_proc"@
}

/// The crate path a wrapper uses: the override where one is given.
pub open spec fn effective_crate_path(over: Option<Seq<char>>) -> Seq<char> {
    match over {
        Some(p) => p,
        None => default_crate_path(),
    }
}

/// The name of the generated macro: the external name itself, or, for an
/// exported macro, the external name suffixed with `_inner`, since the
/// public-facing macro is then written by hand around it.
pub open spec fn macro_name_of(e: ExportEntryV) -> Seq<char> {
    if e.exported {
        e.name + "_inner"@
    } else {
        e.name
    }
}

/// The generated wrapper text for one export.
///
/// A non-exported wrapper is a local macro that forwards the caller's tokens
/// to the invocation capability under the effective crate path. An exported
/// wrapper is marked for crate-wide export, hidden from documentation, and
/// takes the path to the invocation capability as its first argument,
/// because a textually exported macro cannot resolve its defining crate by
/// itself.
pub open spec fn spec_generate(
    kind: MacroKind,
    e: ExportEntryV,
    artifact_path: Seq<char>,
    over: Option<Seq<char>>,
) -> Seq<char> {
    if e.exported {
        "#[macro_export]\n#[doc(hidden)]\nmacro_rules! "@ + macro_name_of(e)
            + " {\n    ($invoker:path, $($tokens:tt)*) => {\n        $invoker!(\""@ + artifact_path
            + "\", \""@ + e.function + "\", "@ + kind_tag(kind) + ", $($tokens)*)\n    };\n}\n"@
    } else {
        "macro_rules! "@ + macro_name_of(e) + " {\n    ($($tokens:tt)*) => {\n        "@
            + effective_crate_path(over) + "::invoke_inline_macro!(\""@ + artifact_path + "\", \""@
            + e.function + "\", "@ + kind_tag(kind) + ", $($tokens)*)\n    };\n}\n"@
    }
}

/// Generates the forwarding macro text for one export.
pub fn generate(
    kind: MacroKind,
    entry: &ExportEntry,
    artifact_path: &str,
    crate_path_override: &Option<String>,
) -> (r: String)
    ensures
        r@ == spec_generate(
            kind,
            entry.deep_view(),
            artifact_path@,
            crate_path_override.deep_view(),
        ),
{
    let mut name = entry.name.clone();
    if entry.exported {
        name.append("_inner");
    }
    assert(name@ =~= macro_name_of(entry.deep_view()));
    let mut r: String;
    if entry.exported {
        r = String::from_str("#[macro_export]\n#[doc(hidden)]\nmacro_rules! ");
        r.append(name.as_str());
        r.append(" {\n    ($invoker:path, $($tokens:tt)*) => {\n        $invoker!(\"");
        r.append(artifact_path);
        r.append("\", \"");
        r.append(entry.function.as_str());
        r.append("\", ");
        r.append(kind_tag_str(kind));
        r.append(", $($tokens)*)\n    };\n}\n");
    } else {
        r = String::from_str("macro_rules! ");
        r.append(name.as_str());
        r.append(" {\n    ($($tokens:tt)*) => {\n        ");
        match crate_path_override {
            Some(p) => r.append(p.as_str()),
            None => r.append("::inline_proc"),
        }
        r.append("::invoke_inline_macro!(\"");
        r.append(artifact_path);
        r.append("\", \"");
        r.append(entry.function.as_str());
        r.append("\", ");
        r.append(kind_tag_str(kind));
        r.append(", $($tokens)*)\n    };\n}\n");
    }
    assert(r@ =~= spec_generate(
        kind,
        entry.deep_view(),
        artifact_path@,
        crate_path_override.deep_view(),
    ));
    r
}

/// Wrapper generation is deterministic: two exports with the same name,
/// function, export flag and kind, against the same artifact and crate path,
/// generate byte-identical macro text.
pub proof fn lemma_generation_deterministic(
    kind: MacroKind,
    e1: ExportEntryV,
    e2: ExportEntryV,
    artifact_path: Seq<char>,
    over: Option<Seq<char>>,
)
    requires
        e1 == e2,
    ensures
        spec_generate(kind, e1, artifact_path, over) == spec_generate(
            kind,
            e2,
            artifact_path,
            over,
        ),
{
}

/// What a generated wrapper's expansion does with the caller's tokens: it
/// issues exactly one invocation request, against the embedded artifact path
/// and symbol, with the kind tag of the export and the caller's serialized
/// token arguments as the payload.
pub fn wrapper_invocation(
    kind: MacroKind,
    entry: &ExportEntry,
    artifact_path: &str,
    tokens: Vec<String>,
) -> (r: InvocationRequest)
    requires
        tokens@.len() == payload_arity(kind),
    ensures
        r.artifact_path@ == artifact_path@,
        r.symbol_name@ == entry.function@,
        r.kind == kind,
        r.payload == tokens,
        r.wf(),
{
    InvocationRequest {
        artifact_path: String::from_str(artifact_path),
        symbol_name: entry.function.clone(),
        kind,
        payload: tokens,
    }
}

} // verus!
