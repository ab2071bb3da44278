//! The crate synthesizer: turns a validated metadata value plus the module's
//! item text into the manifest text, source text and on-disk location of a
//! standalone, independently buildable project.
//!
//! This module only computes text and paths; writing them to disk is the
//! host's job. The module's own items are copied verbatim after a prelude of
//! one entry-point line per export, so that a line of the synthesized source
//! maps back to a line of the original module by a fixed offset.

use vstd::prelude::*;

use crate::identity::CrateIdentity;
use crate::metadata::DependencyV;
use crate::metadata::ExportEntryV;
use crate::metadata::ModuleMetadata;

verus! {

/// A synthesized project: its identity, where it lives, and the exact text
/// of its two files.
pub struct SynthesizedCrate {
    pub identity: CrateIdentity,
    pub root_path: String,
    pub manifest_text: String,
    pub source_text: String,
    /// Lines the synthesizer prepended before the module's own items.
    pub prelude_lines: usize,
}

/// The directory of a synthesized project:
/// `temp_root "/inline-proc-crates/" identity`.
pub open spec fn root_path_seq(temp_root: Seq<char>, identity: Seq<char>) -> Seq<char> {
    temp_root + "/inline-proc-crates/"@ + identity
}

/// One dependency line of the manifest: `name " = " spec newline`.
pub open spec fn dep_line(d: DependencyV) -> Seq<char> {
    d.name + " = "@ + d.spec_text + "\n"@
}

/// The dependency section body: every dependency's line, in table order.
pub open spec fn deps_text(s: Seq<DependencyV>) -> Seq<char>
    decreases s.len(),
{
    if s.len() == 0 {
        Seq::empty()
    } else {
        deps_text(s.drop_last()) + dep_line(s.last())
    }
}

/// The manifest text: package section named after the identity, the declared
/// edition, a dynamically loadable library target, and the dependency table
/// copied verbatim.
pub open spec fn manifest_seq(identity: Seq<char>, edition: Seq<char>, deps: Seq<DependencyV>) -> Seq<
    char,
> {
    "[package]\nname = \""@ + identity + "\"\nversion = \"0.0.0\"\nedition = \""@ + edition
        + "\"\n\n[lib]\npath = \"lib.rs\"\ncrate-type = [\"dylib\"]\n\n[dependencies]\n"@
        + deps_text(deps)
}

/// One prelude line: the entry-point shim for one exported function, which
/// re-exports it under a stable symbol taking and returning the serialized
/// token form.
pub open spec fn entry_line(e: ExportEntryV) -> Seq<char> {
    "inline_proc_support::entry_point!("@ + e.function + ");\n"@
}

/// The prelude: one entry-point line per export, bang macros first, then
/// derives, then attributes.
pub open spec fn prelude_text(s: Seq<ExportEntryV>) -> Seq<char>
    decreases s.len(),
{
    if s.len() == 0 {
        Seq::empty()
    } else {
        prelude_text(s.drop_last()) + entry_line(s.last())
    }
}

/// The synthesized source: the prelude followed by the module's items,
/// verbatim.
pub open spec fn source_seq(exports: Seq<ExportEntryV>, items: Seq<char>) -> Seq<char> {
    prelude_text(exports) + items
}

/// Renders the dependency section body.
fn render_deps(deps: &Vec<crate::metadata::Dependency>) -> (r: String)
    ensures
        r@ == deps_text(deps.deep_view()),
{
    let mut r = String::new();
    let n = deps.len();
    let mut i: usize = 0;
    while i < n
        invariant
            0 <= i <= n,
            n == deps.len(),
            r@ == deps_text(deps.deep_view().take(i as int)),
        decreases n - i,
    {
        let d = &deps[i];
        r.append(d.name.as_str());
        r.append(" = ");
        r.append(d.spec_text.as_str());
        r.append("\n");
        proof {
            let pre = deps.deep_view().take(i as int);
            let cur = deps.deep_view().take(i + 1);
            assert(cur.drop_last() =~= pre);
            assert(cur.last() == deps.deep_view()[i as int]);
            assert(r@ =~= deps_text(cur));
        }
        i = i + 1;
    }
    assert(deps.deep_view().take(n as int) =~= deps.deep_view());
    r
}

/// Renders the prelude: one entry-point line per export.
fn render_prelude(exports: &Vec<crate::metadata::ExportEntry>) -> (r: String)
    ensures
        r@ == prelude_text(exports.deep_view()),
{
    let mut r = String::new();
    let n = exports.len();
    let mut i: usize = 0;
    while i < n
        invariant
            0 <= i <= n,
            n == exports.len(),
            r@ == prelude_text(exports.deep_view().take(i as int)),
        decreases n - i,
    {
        let e = &exports[i];
        r.append("inline_proc_support::entry_point!(");
        r.append(e.function.as_str());
        r.append(");\n");
        proof {
            let pre = exports.deep_view().take(i as int);
            let cur = exports.deep_view().take(i + 1);
            assert(cur.drop_last() =~= pre);
            assert(cur.last() == exports.deep_view()[i as int]);
            assert(r@ =~= prelude_text(cur));
        }
        i = i + 1;
    }
    assert(exports.deep_view().take(n as int) =~= exports.deep_view());
    r
}

/// All exports of a metadata value in prelude order: bang macros first, then
/// derives, then attributes.
pub open spec fn exports_in_order(m: crate::metadata::ModuleMetadataV) -> Seq<ExportEntryV> {
    m.exports.bang_macros + m.exports.derives + m.exports.attributes
}

/// Collects the exports of a metadata value in prelude order.
pub fn ordered_exports(m: &ModuleMetadata) -> (r: Vec<crate::metadata::ExportEntry>)
    ensures
        r.deep_view() == exports_in_order(m.deep_view()),
{
    let mut r: Vec<crate::metadata::ExportEntry> = Vec::new();
    r = push_all(r, &m.exports.bang_macros);
    r = push_all(r, &m.exports.derives);
    r = push_all(r, &m.exports.attributes);
    assert(r.deep_view() =~~= exports_in_order(m.deep_view()));
    r
}

/// Appends clones of all entries of one list.
fn push_all(acc: Vec<crate::metadata::ExportEntry>, v: &Vec<crate::metadata::ExportEntry>) -> (r:
    Vec<crate::metadata::ExportEntry>)
    ensures
        r.deep_view() == acc.deep_view() + v.deep_view(),
{
    let mut r = acc;
    let ghost base = r@.len() as int;
    let ghost orig = r@;
    let n = v.len();
    let mut i: usize = 0;
    while i < n
        invariant
            0 <= i <= n,
            n == v.len(),
            0 <= base,
            r@.len() == base + i,
            forall|k: int| 0 <= k < base ==> #[trigger] r@[k] == orig[k],
            forall|k: int|
                base <= k < base + i ==> (#[trigger] r@[k]).deep_view() == v.deep_view()[k - base],
        decreases n - i,
    {
        let e = &v[i];
        r.push(
            crate::metadata::ExportEntry {
                name: e.name.clone(),
                function: e.function.clone(),
                exported: e.exported,
            },
        );
        assert(r@[base + i].deep_view() =~~= v.deep_view()[i as int]);
        proof {
            assert forall|k: int| base <= k < base + (i + 1) implies (#[trigger] r@[k]).deep_view()
                == v.deep_view()[k - base] by {
                if k == base + i {
                    assert(v.deep_view()[k - base] == v.deep_view()[i as int]);
                }
            }
        }
        i = i + 1;
    }
    assert(r.deep_view() =~~= orig.map_values(|e: crate::metadata::ExportEntry| e.deep_view())
        + v.deep_view());
    assert(orig.map_values(|e: crate::metadata::ExportEntry| e.deep_view()) =~~= acc.deep_view());
    r
}

/// Synthesizes the standalone project for one module: identity-derived
/// location, manifest, and source with the module's items verbatim after
/// the entry-point prelude.
pub fn synthesize(
    identity: CrateIdentity,
    metadata: &ModuleMetadata,
    items_text: &str,
    temp_root: &str,
) -> (r: SynthesizedCrate)
    ensures
        r.identity == identity,
        r.root_path@ == root_path_seq(temp_root@, identity.spec_string()),
        r.manifest_text@ == manifest_seq(
            identity.spec_string(),
            metadata.edition@,
            metadata.dependencies.deep_view(),
        ),
        r.source_text@ == source_seq(exports_in_order(metadata.deep_view()), items_text@),
        r.prelude_lines == exports_in_order(metadata.deep_view()).len(),
{
    let id_string = identity.identity_string();
    let mut root_path = String::from_str(temp_root);
    root_path.append("/inline-proc-crates/");
    root_path.append(id_string.as_str());
    assert(root_path@ =~= root_path_seq(temp_root@, identity.spec_string()));

    let mut manifest_text = String::from_str("[package]\nname = \"");
    manifest_text.append(id_string.as_str());
    manifest_text.append("\"\nversion = \"0.0.0\"\nedition = \"");
    manifest_text.append(metadata.edition.as_str());
    manifest_text.append(
        "\"\n\n[lib]\npath = \"lib.rs\"\ncrate-type = [\"dylib\"]\n\n[dependencies]\n",
    );
    manifest_text.append(render_deps(&metadata.dependencies).as_str());
    assert(manifest_text@ =~= manifest_seq(
        identity.spec_string(),
        metadata.edition@,
        metadata.dependencies.deep_view(),
    ));

    let exports = ordered_exports(metadata);
    let prelude_lines = exports.len();
    let mut source_text = render_prelude(&exports);
    source_text.append(items_text);
    assert(source_text@ =~= source_seq(exports_in_order(metadata.deep_view()), items_text@));

    SynthesizedCrate { identity, root_path, manifest_text, source_text, prelude_lines }
}

} // verus!
