//! Which template text to use for a kind of file: a project-local override
//! when one exists, else the template embedded in the tool.

use vstd::prelude::*;
use vstd::string::*;

use crate::domain::TemplateKind;
use crate::path;

verus! {

/// `std::io::Error`, carried through as the cause of a failed read.
#[verifier::external_type_specification]
#[verifier::external_body]
pub struct ExIoError(std::io::Error);

/// The text that `String::from_utf8_lossy` makes of a byte sequence.
pub uninterp spec fn utf8_lossy(bytes: Seq<u8>) -> Seq<char>;

/// Calls `String::from_utf8_lossy`. Claimed: the result is the named
/// decoding `utf8_lossy(bytes)`, and for valid UTF-8 it is the decoded text.
/// Which replacement characters stand for invalid sequences is left unstated.
#[verifier::external_body]
fn decode_utf8_lossy(bytes: &[u8]) -> (r: String)
    ensures
        r@ == utf8_lossy(bytes@),
        vstd::utf8::valid_utf8(bytes@) ==> r@ == vstd::utf8::decode_utf8(bytes@),
{
    String::from_utf8_lossy(bytes).into_owned()
}

/// Errors of template loading.
#[derive(Debug)]
pub enum TemplateError {
    /// No template of this kind is embedded.
    NotFound(TemplateKind),
    /// The project-local template at this path could not be read.
    Read(String, std::io::Error),
    InvalidUtf8,
}

/// The file name of a kind's template: its source key and `.hbs`.
pub open spec fn template_file_name(kind: TemplateKind) -> Seq<char> {
    kind.key() + ".hbs"@
}

/// The file name of a kind's template, e.g. `component.hbs`.
pub fn template_filename(kind: TemplateKind) -> (r: String)
    ensures
        r@ == template_file_name(kind),
{
    let mut name = String::from_str(kind.source_key());
    name.append(".hbs");
    name
}

/// Finds the template of each kind of file for one project.
pub struct TemplateStore {
    project_root: String,
}

impl View for TemplateStore {
    type V = Seq<char>;

    /// The project's root directory.
    closed spec fn view(&self) -> Seq<char> {
        self.project_root@
    }
}

/// Every kind's override lies in the one directory
/// `<root>/.gencomp/templates`, under the file name `<key>.hbs`: kinds differ
/// in the file name only.
pub proof fn lemma_local_path_in_templates_dir(store: TemplateStore, kind: TemplateKind)
    ensures
        store.local_path(kind) == path::joined(
            path::joined(path::joined(store@, ".gencomp"@), "templates"@),
            kind.key() + ".hbs"@,
        ),
        store.local_path(kind) == path::joined(path::joined(store@, ".gencomp"@), "templates"@)
            + "/"@ + kind.key() + ".hbs"@,
{
    reveal_strlit("templates");
    reveal_strlit("/");
    reveal_strlit("component");
    reveal_strlit("mocks");
    reveal_strlit("story");
    reveal_strlit(".hbs");
    let dir = path::joined(path::joined(store@, ".gencomp"@), "templates"@);
    let file = kind.key() + ".hbs"@;
    let g = path::joined(store@, ".gencomp"@);
    assert(dir.len() > 0);
    assert(dir.last() == 's') by {
        if g.len() > 0 && g.last() != '/' {
            assert(dir =~= g + seq!['/'] + "templates"@);
        } else {
            assert(dir =~= g + "templates"@);
        }
    }
    assert(file[0] != '/');
    assert(path::joined(dir, file) =~= dir + "/"@ + file);
    assert(dir + "/"@ + kind.key() + ".hbs"@ =~= dir + "/"@ + file);
}

impl TemplateStore {
    /// Where a project overrides a kind's template:
    /// `<root>/.gencomp/templates/<key>.hbs`.
    pub open spec fn local_path(self, kind: TemplateKind) -> Seq<char> {
        path::joined(
            path::joined(path::joined(self@, ".gencomp"@), "templates"@),
            template_file_name(kind),
        )
    }

    pub fn new(project_root: String) -> (r: Self)
        ensures
            r@ == project_root@,
    {
        TemplateStore { project_root }
    }

    /// The path of the project-local override of a kind's template.
    pub fn local_template_path(&self, kind: TemplateKind) -> (r: String)
        ensures
            r@ == self.local_path(kind),
            r@ == path::joined(path::joined(path::joined(self@, ".gencomp"@), "templates"@), kind.key()
                + ".hbs"@),
            r@ == path::joined(path::joined(self@, ".gencomp"@), "templates"@) + "/"@ + kind.key()
                + ".hbs"@,
    {
        let dir = path::join(self.project_root.as_str(), ".gencomp");
        let dir = path::join(dir.as_str(), "templates");
        let file = template_filename(kind);
        let r = path::join(dir.as_str(), file.as_str());
        proof {
            lemma_local_path_in_templates_dir(*self, kind);
        }
        r
    }

    /// The template of a kind, with the project-local override first.
    /// `local` is `None` when no file exists at `local_template_path(kind)`,
    /// and otherwise the outcome of reading it; `embedded` holds the bytes of
    /// the embedded template named `template_filename(kind)`, when there is
    /// one (it is looked at only when `local` is `None`).
    pub fn load(
        &self,
        kind: TemplateKind,
        local: Option<Result<String, std::io::Error>>,
        embedded: Option<Vec<u8>>,
    ) -> (r: Result<String, TemplateError>)
        ensures
            match local {
                Some(Ok(text)) => (r matches Ok(t) && t@ == text@),
                Some(Err(e)) => (r matches Err(TemplateError::Read(p, cause)) && p@
                    == self.local_path(kind) && p@ == path::joined(
                    path::joined(path::joined(self@, ".gencomp"@), "templates"@),
                    kind.key() + ".hbs"@,
                ) && cause == e),
                None => match embedded {
                    Some(bytes) => (r matches Ok(t) && t@ == utf8_lossy(bytes@)),
                    None => r == Err::<String, TemplateError>(TemplateError::NotFound(kind)),
                },
            },
    {
        // 1. Project-local override
        match local {
            Some(Ok(text)) => return Ok(text),
            Some(Err(e)) => return Err(TemplateError::Read(self.local_template_path(kind), e)),
            None => {},
        }
        // 2. Embedded default
        match embedded {
            Some(bytes) => Ok(decode_utf8_lossy(bytes.as_slice())),
            None => Err(TemplateError::NotFound(kind)),
        }
    }
}

} // verus!
