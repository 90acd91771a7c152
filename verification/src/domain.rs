//! The kinds of generated files, the naming context handed to templates, and
//! where generated files go.

use vstd::prelude::*;

use crate::case::{camel_case, to_camel_case};
use crate::path::{join, joined};

verus! {

/// The three files in every component package.
#[derive(Debug, Clone, Copy, PartialEq, Eq, Hash, Structural)]
pub enum TemplateKind {
    Component,
    Mocks,
    Story,
}

/// Every kind, in declaration order.
pub open spec fn all_kinds() -> Seq<TemplateKind> {
    seq![TemplateKind::Component, TemplateKind::Mocks, TemplateKind::Story]
}

/// The placeholder that filename patterns carry for the component's name.
pub open spec fn name_placeholder() -> Seq<char> {
    "{{component_name}}"@
}

impl TemplateKind {
    /// The filename pattern of this kind.
    pub open spec fn pattern(self) -> Seq<char> {
        match self {
            TemplateKind::Component => "{{component_name}}.tsx"@,
            TemplateKind::Mocks => "{{component_name}}.mocks.ts"@,
            TemplateKind::Story => "{{component_name}}.stories.tsx"@,
        }
    }

    /// The identifier of this kind's source template.
    pub open spec fn key(self) -> Seq<char> {
        match self {
            TemplateKind::Component => "component"@,
            TemplateKind::Mocks => "mocks"@,
            TemplateKind::Story => "story"@,
        }
    }

    /// Returns the filename template with the `{{component_name}}` placeholder.
    pub fn filename_pattern(&self) -> (r: &'static str)
        ensures
            r@ == self.pattern(),
    {
        match self {
            TemplateKind::Component => "{{component_name}}.tsx",
            TemplateKind::Mocks => "{{component_name}}.mocks.ts",
            TemplateKind::Story => "{{component_name}}.stories.tsx",
        }
    }

    /// Source template identifier.
    pub fn source_key(&self) -> (r: &'static str)
        ensures
            r@ == self.key(),
    {
        match self {
            TemplateKind::Component => "component",
            TemplateKind::Mocks => "mocks",
            TemplateKind::Story => "story",
        }
    }

    /// All variants, in declaration order.
    pub fn all() -> (r: [TemplateKind; 3])
        ensures
            r@ == all_kinds(),
    {
        [TemplateKind::Component, TemplateKind::Mocks, TemplateKind::Story]
    }
}

/// Every kind occurs in `all()` exactly once.
pub proof fn lemma_all_lists_each_kind_once(kind: TemplateKind)
    ensures
        all_kinds().len() == 3,
        all_kinds().contains(kind),
        forall|i: int, j: int| 0 <= i < j < all_kinds().len() ==> all_kinds()[i] != all_kinds()[j],
{
    let s = all_kinds();
    match kind {
        TemplateKind::Component => assert(s[0] == kind),
        TemplateKind::Mocks => assert(s[1] == kind),
        TemplateKind::Story => assert(s[2] == kind),
    }
}

/// Every filename pattern begins with the `{{component_name}}` placeholder,
/// and no two kinds share a pattern.
pub proof fn lemma_patterns_carry_placeholder(a: TemplateKind, b: TemplateKind)
    ensures
        a.pattern().len() > name_placeholder().len(),
        a.pattern().subrange(0, name_placeholder().len() as int) == name_placeholder(),
        a.pattern() == b.pattern() ==> a == b,
{
    reveal_strlit("{{component_name}}");
    reveal_strlit("{{component_name}}.tsx");
    reveal_strlit("{{component_name}}.mocks.ts");
    reveal_strlit("{{component_name}}.stories.tsx");
    assert(a.pattern().subrange(0, 18) =~= name_placeholder());
    if a.pattern() == b.pattern() && a != b {
        assert(a.pattern().len() != b.pattern().len() || a.pattern()[19] != b.pattern()[19]);
    }
}

/// No two kinds share a source key.
pub proof fn lemma_source_keys_distinct(a: TemplateKind, b: TemplateKind)
    ensures
        a.key() == b.key() ==> a == b,
{
    reveal_strlit("component");
    reveal_strlit("mocks");
    reveal_strlit("story");
    if a.key() == b.key() && a != b {
        assert(a.key().len() != b.key().len() || a.key()[0] != b.key()[0]);
    }
}

/// The naming context handed to templates.
#[derive(Debug, Clone)]
pub struct ComponentContext {
    pub component_name: String,
    pub component_name_camel: String,
}

impl ComponentContext {
    /// Builds the context of a PascalCase component name; the camelCase form
    /// lowercases the first character only.
    pub fn new(component_name: String) -> (r: Self)
        ensures
            r.component_name@ == component_name@,
            r.component_name_camel@ == camel_case(component_name@),
            crate::case::starts_ascii(component_name@) ==> r.component_name_camel@
                == crate::case::ascii_camel_case(component_name@),
            component_name@.len() == 0 ==> r.component_name_camel@.len() == 0,
            component_name@.len() > 0 ==> r.component_name_camel@ == crate::case::char_lowercase(
                component_name@[0],
            ) + component_name@.drop_first(),
            component_name@.len() > 0 && 'A' <= component_name@[0] && component_name@[0] <= 'Z'
                ==> r.component_name_camel@.len() == component_name@.len()
                && r.component_name_camel@[0] == ((component_name@[0] as u32) + 32) as char
                && r.component_name_camel@.drop_first() == component_name@.drop_first(),
    {
        let camel = to_camel_case(component_name.as_str());
        ComponentContext { component_name_camel: camel, component_name }
    }
}

/// A rendered output file.
pub struct GeneratedFile {
    pub kind: TemplateKind,
    pub content: String,
    /// For example `UserCard.tsx`.
    pub filename: String,
}

/// Where generated files are written.
pub struct TargetLocation {
    /// For example `/project/components/`.
    pub base_path: String,
    /// For example `ui`.
    pub component_type_dir: String,
    /// For example `userCard`.
    pub component_dir: String,
}

impl TargetLocation {
    /// The component's own directory: `component_dir` under `base_path`.
    pub fn full_path(&self) -> (r: String)
        ensures
            r@ == joined(self.base_path@, self.component_dir@),
    {
        join(self.base_path.as_str(), self.component_dir.as_str())
    }
}

/// The full path depends on the base path and the component directory only,
/// never on the component type directory.
pub proof fn lemma_full_path_ignores_type_dir(a: TargetLocation, b: TargetLocation)
    requires
        a.base_path@ == b.base_path@,
        a.component_dir@ == b.component_dir@,
    ensures
        joined(a.base_path@, a.component_dir@) == joined(b.base_path@, b.component_dir@),
{
}

} // verus!
