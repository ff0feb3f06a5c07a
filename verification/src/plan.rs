//! The file materializer's planning step. For one catalog entry it resolves
//! the output path, computes the parent-directory chain, produces the content
//! (rendered for text entries, verbatim for binary entries), and tags
//! launcher scripts as executable. The resulting plan is everything a driver
//! needs to mutate the filesystem for that entry.

use vstd::prelude::*;

use vstd::slice::slice_to_vec;
use vstd::utf8::{decode_utf8, valid_utf8};

use crate::catalog::{find_entry, Catalog, EntryKind, EntryView, ParamsView, ProjectParameters, TemplateEntry};
use crate::error::{CliError, CliErrorView};
use crate::paths::{
    ancestors_of, get_output_dir, is_launcher, is_launcher_path, parent_dirs, resolve_message_of,
    resolve_of,
};
use crate::render::{render_message_of, render_of, replace_text};

verus! {

/// The filesystem effect of one planned entry.
#[derive(Debug)]
pub enum PlanAction {
    /// Create the target directory; a pre-existing directory is not an error.
    MakeDir,
    /// Write the target file, which must not already exist; set the
    /// executable permission bit afterwards where the platform has one if
    /// `executable` holds.
    WriteFile { content: Vec<u8>, executable: bool },
}

/// The mathematical value of a planned effect.
pub enum PlanActionView {
    MakeDir,
    WriteFile { content: Seq<u8>, executable: bool },
}

impl View for PlanAction {
    type V = PlanActionView;

    open spec fn view(&self) -> PlanActionView {
        match self {
            PlanAction::MakeDir => PlanActionView::MakeDir,
            PlanAction::WriteFile { content, executable } => PlanActionView::WriteFile {
                content: content@,
                executable: *executable,
            },
        }
    }
}

/// One materialization plan: the parent directories to create in order, the
/// resolved target path, and the effect at the target. Transient: produced
/// for one entry, consumed by one driver pass, then discarded.
#[derive(Debug)]
pub struct EntryPlan {
    pub parent_dirs: Vec<String>,
    pub target: String,
    pub action: PlanAction,
}

/// The mathematical value of a materialization plan.
pub struct EntryPlanView {
    pub parent_dirs: Seq<Seq<char>>,
    pub target: Seq<char>,
    pub action: PlanActionView,
}

impl View for EntryPlan {
    type V = EntryPlanView;

    open spec fn view(&self) -> EntryPlanView {
        EntryPlanView {
            parent_dirs: crate::catalog::string_views(self.parent_dirs@),
            target: self.target@,
            action: self.action@,
        }
    }
}

/// The cause description reported when a text entry's bytes are not valid
/// UTF-8.
pub open spec fn utf8_failure_message() -> Seq<char> {
    "The template content is not valid UTF-8!"@
}

/// Relies on String::from_utf8: succeeds exactly on valid UTF-8 input and
/// decodes the bytes, per vstd's UTF-8 model.
#[verifier::external_body]
fn decode_utf8_bytes(bytes: &Vec<u8>) -> (r: Option<String>)
    ensures
        r is Some <==> valid_utf8(bytes@),
        r is Some ==> r->0@ == decode_utf8(bytes@),
{
    String::from_utf8(bytes.clone()).ok()
}

/// Produces the rendered content of a text entry: the entry's bytes are
/// decoded as UTF-8, substituted via the content renderer, and re-encoded.
/// Fails on undecodable bytes and on every rendering failure, naming the
/// output file; binary data never reaches this path.
pub fn create_regular_file(entry: &TemplateEntry, output_file: &String, values: &ProjectParameters)
    -> (r: Result<Vec<u8>, CliError>)
    ensures
        !valid_utf8(entry@.content) ==> r is Err && (r->Err_0 matches CliError::CreateFile {
            file,
            description,
        } && file@ == output_file@ && description@ == utf8_failure_message()),
        valid_utf8(entry@.content) ==> match render_of(decode_utf8(entry@.content), values@) {
            Result::Ok(t) => r is Ok && r->Ok_0@ == vstd::utf8::encode_utf8(t),
            Result::Err(e) => r is Err && (r->Err_0 matches CliError::CreateFile {
                file,
                description,
            } && file@ == output_file@ && description@ == render_message_of(e)),
        },
{
    let text = match decode_utf8_bytes(&entry.content) {
        Some(text) => text,
        None => {
            return Err(
                CliError::create_file_err(
                    output_file.clone(),
                    String::from_str("The template content is not valid UTF-8!"),
                ),
            );
        },
    };
    match replace_text(text.as_str(), values) {
        Ok(rendered) => Ok(rendered.as_str().as_bytes_vec()),
        Err(e) => Err(CliError::create_file_err(output_file.clone(), e.message())),
    }
}

/// Produces the content of a binary entry: the catalog bytes, verbatim.
/// Rendering is never attempted on binary content.
pub fn create_jar_file(entry: &TemplateEntry) -> (r: Vec<u8>)
    ensures
        r@ == entry@.content,
{
    slice_to_vec(entry.content.as_slice())
}

/// The plan that materializing `input_file` produces, when it succeeds:
/// the complete parent-directory chain of the resolved target, the target,
/// and the entry's effect there.
pub open spec fn plan_ok(target: Seq<char>, entry: EntryView, p: ParamsView) -> EntryPlanView {
    EntryPlanView {
        parent_dirs: ancestors_of(target),
        target,
        action: match entry.kind {
            EntryKind::Directory => PlanActionView::MakeDir,
            EntryKind::TextFile => PlanActionView::WriteFile {
                content: vstd::utf8::encode_utf8(
                    render_of(decode_utf8(entry.content), p)->Ok_0,
                ),
                executable: is_launcher_path(target),
            },
            EntryKind::BinaryFile => PlanActionView::WriteFile {
                content: entry.content,
                executable: is_launcher_path(target),
            },
        },
    }
}

/// The outcome of planning one catalog entry, named by its
/// template-relative path: either the full materialization plan, or the
/// error that stops the run at this entry. Resolution failures and rendering
/// failures name the offending file; an entry absent from the catalog is a
/// missing source file.
pub open spec fn plan_of(
    c: Seq<EntryView>,
    input_file: Seq<char>,
    p: ParamsView,
    root: Seq<char>,
) -> Result<EntryPlanView, CliErrorView> {
    if resolve_of(input_file, p, root) is Err {
        Result::Err(
            CliErrorView::CreateFile {
                file: input_file,
                description: resolve_message_of(resolve_of(input_file, p, root)->Err_0),
            },
        )
    } else {
        let target = resolve_of(input_file, p, root)->Ok_0;
        match find_entry(c, input_file) {
            Option::None => Result::Err(CliErrorView::MissingFile { file: target }),
            Option::Some(entry) => match entry.kind {
                EntryKind::TextFile => {
                    if !valid_utf8(entry.content) {
                        Result::Err(
                            CliErrorView::CreateFile {
                                file: target,
                                description: utf8_failure_message(),
                            },
                        )
                    } else {
                        match render_of(decode_utf8(entry.content), p) {
                            Result::Ok(t) => Result::Ok(plan_ok(target, entry, p)),
                            Result::Err(e) => Result::Err(
                                CliErrorView::CreateFile {
                                    file: target,
                                    description: render_message_of(e),
                                },
                            ),
                        }
                    }
                },
                _ => Result::Ok(plan_ok(target, entry, p)),
            },
        }
    }
}

/// Plans the materialization of one catalog entry, named by its
/// template-relative path: resolves the output path, computes the ancestor
/// directories to create first, and produces the content — rendered for a
/// text entry, byte-identical to the catalog for a binary entry. Fails, and
/// plans nothing, exactly when the path does not resolve, the entry is
/// absent from the catalog, its text content is undecodable, or rendering
/// fails, as `plan_of` describes.
pub fn create_file(
    catalog: &Catalog,
    input_file: &str,
    values: &ProjectParameters,
    template_root: &str,
) -> (r: Result<EntryPlan, CliError>)
    ensures
        r is Ok <==> plan_of(catalog@, input_file@, values@, template_root@) is Ok,
        r is Ok ==> r->Ok_0@ == plan_of(catalog@, input_file@, values@, template_root@)->Ok_0,
        r is Err ==> r->Err_0@ == plan_of(catalog@, input_file@, values@, template_root@)->Err_0,
{
    let output_file = match get_output_dir(input_file, values, template_root) {
        Ok(path) => path,
        Err(e) => {
            return Err(
                CliError::create_file_err(String::from_str(input_file), e.message()),
            );
        },
    };
    let parents = parent_dirs(output_file.as_str());
    let entry = match catalog.get(input_file) {
        Some(entry) => entry,
        None => {
            return Err(CliError::missing_file_err(output_file));
        },
    };
    let executable = is_launcher(output_file.as_str());
    let action = match entry.kind {
        EntryKind::Directory => PlanAction::MakeDir,
        EntryKind::TextFile => {
            let content = match create_regular_file(entry, &output_file, values) {
                Ok(content) => content,
                Err(e) => {
                    return Err(e);
                },
            };
            PlanAction::WriteFile { content, executable }
        },
        EntryKind::BinaryFile => {
            let content = create_jar_file(entry);
            PlanAction::WriteFile { content, executable }
        },
    };
    Ok(EntryPlan { parent_dirs: parents, target: output_file, action })
}

/// Binary entries never pass through the renderer: whenever planning an
/// entry of binary kind succeeds, the planned file content is byte-identical
/// to the catalog content.
pub proof fn lemma_binary_verbatim(
    c: Seq<EntryView>,
    input_file: Seq<char>,
    p: ParamsView,
    root: Seq<char>,
)
    requires
        plan_of(c, input_file, p, root) is Ok,
        find_entry(c, input_file) is Some,
        find_entry(c, input_file)->0.kind == EntryKind::BinaryFile,
    ensures
        plan_of(c, input_file, p, root)->Ok_0.action == (PlanActionView::WriteFile {
            content: find_entry(c, input_file)->0.content,
            executable: is_launcher_path(plan_of(c, input_file, p, root)->Ok_0.target),
        }),
{
}

} // verus!
