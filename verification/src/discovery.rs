//! Where the `components` directory of a project lives.

use vstd::prelude::*;

use crate::path::{join, joined};

verus! {

/// Looks for the components directory, starting from a project directory.
pub struct DirectoryFinder {
    start: String,
}

/// Errors of directory discovery.
#[derive(Debug)]
pub enum DiscoveryError {
    NoProjectRoot,
}

impl View for DirectoryFinder {
    type V = Seq<char>;

    /// The directory the search starts from.
    closed spec fn view(&self) -> Seq<char> {
        self.start@
    }
}

impl DirectoryFinder {
    /// `<start>/components`: the first candidate, and the fallback.
    pub open spec fn components_candidate(self) -> Seq<char> {
        joined(self@, "components"@)
    }

    /// `<start>/src/components`: the second candidate.
    pub open spec fn src_components_candidate(self) -> Seq<char> {
        joined(joined(self@, "src"@), "components"@)
    }

    /// The directory chosen, given which candidates exist on disk: an
    /// existing `components/` first, then an existing `src/components/`, and
    /// otherwise `components/`, which is to be created.
    pub open spec fn chosen(self, components_exists: bool, src_components_exists: bool) -> Seq<char> {
        if components_exists {
            self.components_candidate()
        } else if src_components_exists {
            self.src_components_candidate()
        } else {
            self.components_candidate()
        }
    }

    pub fn new(start: String) -> (r: Self)
        ensures
            r@ == start@,
    {
        DirectoryFinder { start }
    }

    /// The path `<start>/components`.
    pub fn components_target(&self) -> (r: String)
        ensures
            r@ == self.components_candidate(),
    {
        join(self.start.as_str(), "components")
    }

    /// The path `<start>/src/components`.
    pub fn src_components_target(&self) -> (r: String)
        ensures
            r@ == self.src_components_candidate(),
    {
        let src = join(self.start.as_str(), "src");
        join(src.as_str(), "components")
    }

    /// Picks the components directory. `components_exists` tells whether
    /// `components_target()` exists, `src_components_exists` whether
    /// `src_components_target()` does; the search never fails.
    pub fn find_components_ui(&self, components_exists: bool, src_components_exists: bool) -> (r:
        Result<String, DiscoveryError>)
        ensures
            r matches Ok(p) && p@ == self.chosen(components_exists, src_components_exists),
            components_exists || !src_components_exists ==> (r matches Ok(p) && p@ == joined(
                self@,
                "components"@,
            )),
            !components_exists && src_components_exists ==> (r matches Ok(p) && p@ == joined(
                joined(self@, "src"@),
                "components"@,
            )),
            r matches Ok(p) && p@.len() > self@.len() && p@.subrange(0, self@.len() as int)
                == self@,
    {
        // Strategy 1: an existing components/
        let target = self.components_target();
        if components_exists {
            proof {
                lemma_chosen_under_start(*self, components_exists, src_components_exists);
            }
            return Ok(target);
        }
        // Strategy 2: an existing src/components/
        let src_target = self.src_components_target();
        if src_components_exists {
            proof {
                lemma_chosen_under_start(*self, components_exists, src_components_exists);
            }
            return Ok(src_target);
        }
        // Strategy 3: components/, to be created
        proof {
            lemma_chosen_under_start(*self, components_exists, src_components_exists);
        }
        Ok(target)
    }
}

/// Whatever exists, the chosen directory lies under the start directory: it
/// is `<start>/components` unless only `<start>/src/components` exists, and
/// it always extends the start path.
pub proof fn lemma_chosen_under_start(finder: DirectoryFinder, components_exists: bool, src_components_exists: bool)
    ensures
        components_exists || !src_components_exists ==> finder.chosen(
            components_exists,
            src_components_exists,
        ) == joined(finder@, "components"@),
        !components_exists && src_components_exists ==> finder.chosen(
            components_exists,
            src_components_exists,
        ) == joined(joined(finder@, "src"@), "components"@),
        finder.chosen(components_exists, src_components_exists).len() > finder@.len(),
        finder.chosen(components_exists, src_components_exists).subrange(0, finder@.len() as int)
            == finder@,
{
    reveal_strlit("components");
    reveal_strlit("src");
    let start = finder@;
    let src = joined(start, "src"@);
    crate::path::lemma_join_relative_extends(start, "components"@);
    crate::path::lemma_join_relative_extends(start, "src"@);
    crate::path::lemma_join_relative_extends(src, "components"@);
    assert(src.subrange(0, start.len() as int) == start);
    assert(joined(src, "components"@).subrange(0, src.len() as int) == src);
    assert(joined(src, "components"@).subrange(0, start.len() as int) =~= start);
}

/// An existing `components/` is preferred over `src/components/`, whatever
/// else exists; `src/components/` is taken only when it exists and
/// `components/` does not.
pub proof fn lemma_components_preferred(finder: DirectoryFinder, components_exists: bool, src_components_exists: bool)
    ensures
        components_exists ==> finder.chosen(components_exists, src_components_exists)
            == finder.components_candidate(),
        finder.chosen(components_exists, src_components_exists)
            == finder.src_components_candidate() ==> (src_components_exists
            || finder.src_components_candidate() == finder.components_candidate()),
        !components_exists && src_components_exists ==> finder.chosen(
            components_exists,
            src_components_exists,
        ) == finder.src_components_candidate(),
{
}

} // verus!
