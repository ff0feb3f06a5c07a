//! The template catalog and the scaffold parameters: the selectable template
//! variants, the read-only entries (path, kind, raw content) that a variant
//! bundles, and the validated parameter set substituted into them.

use vstd::prelude::*;

use crate::ident::valid_ident;

verus! {

/// The selectable template variants.
#[derive(Clone, Copy, Debug, PartialEq, Eq, Structural)]
pub enum Template {
    /// Java template using Gradle.
    Gradle,
    /// Java template with a module using Gradle.
    GradleModule,
    /// Java template using Maven.
    Maven,
    /// Java template with a module using Maven.
    MavenModule,
    /// Rust template.
    Rust,
}

/// The catalog folder that holds a variant's template tree.
pub open spec fn folder_of(t: Template) -> Seq<char> {
    match t {
        Template::Gradle => "swim-gradle-template"@,
        Template::GradleModule => "swim-gradle-module-template"@,
        Template::Maven => "swim-maven-template"@,
        Template::MavenModule => "swim-maven-module-template"@,
        Template::Rust => "swim-rust-template"@,
    }
}

impl Template {
    /// The name of the catalog folder holding this variant's template tree.
    pub fn get_folder(&self) -> (r: String)
        ensures
            r@ == folder_of(*self),
    {
        match self {
            Template::Gradle => String::from_str("swim-gradle-template"),
            Template::GradleModule => String::from_str("swim-gradle-module-template"),
            Template::Maven => String::from_str("swim-maven-template"),
            Template::MavenModule => String::from_str("swim-maven-module-template"),
            Template::Rust => String::from_str("swim-rust-template"),
        }
    }
}

impl Default for Template {
    /// The primary variant, selected when the caller names none.
    fn default() -> (r: Self)
        ensures
            r == Template::Gradle,
    {
        Template::Gradle
    }
}

/// The parameter set of one scaffold run: a validated project name, the
/// application port, the server dependency version, and the chosen variant.
/// Built once from validated input and never mutated.
pub struct ProjectParameters {
    pub name: String,
    pub port: u16,
    pub version: String,
    pub template_type: Template,
}

/// The mathematical value of a parameter set.
pub struct ParamsView {
    pub name: Seq<char>,
    pub port: u16,
    pub version: Seq<char>,
    pub template_type: Template,
}

impl View for ProjectParameters {
    type V = ParamsView;

    open spec fn view(&self) -> ParamsView {
        ParamsView {
            name: self.name@,
            port: self.port,
            version: self.version@,
            template_type: self.template_type,
        }
    }
}

impl ProjectParameters {
    /// The parameter set is well formed: its name satisfies the identifier
    /// grammar, so it is usable as the root directory name.
    pub open spec fn wf(self) -> bool {
        valid_ident(self.name@)
    }

    pub fn new(name: String, port: u16, version: String, template_type: Template) -> (r: Self)
        requires
            valid_ident(name@),
        ensures
            r@ == (ParamsView { name: name@, port, version: version@, template_type }),
            r.wf(),
    {
        ProjectParameters { name, port, version, template_type }
    }
}

/// What a template entry stands for: a directory, a text file whose content
/// is rendered, or a binary file whose content is copied verbatim.
#[derive(Clone, Copy, Debug, PartialEq, Eq, Structural)]
pub enum EntryKind {
    Directory,
    TextFile,
    BinaryFile,
}

/// One blueprint of the catalog: a template-relative path (itself possibly
/// holding placeholders), the entry's kind, and its raw content bytes.
/// Content is exposed undecoded; decoding is the renderer's concern, and only
/// for text entries.
pub struct TemplateEntry {
    pub relative_path: String,
    pub kind: EntryKind,
    pub content: Vec<u8>,
}

/// The mathematical value of a template entry.
pub struct EntryView {
    pub relative_path: Seq<char>,
    pub kind: EntryKind,
    pub content: Seq<u8>,
}

impl View for TemplateEntry {
    type V = EntryView;

    open spec fn view(&self) -> EntryView {
        EntryView { relative_path: self.relative_path@, kind: self.kind, content: self.content@ }
    }
}

/// `p` begins with the characters of `pre`.
pub open spec fn has_prefix(p: Seq<char>, pre: Seq<char>) -> bool {
    pre.len() <= p.len() && p.subrange(0, pre.len() as int) == pre
}

/// `p` begins with the characters of `pre`.
pub fn str_has_prefix(p: &str, pre: &str) -> (r: bool)
    ensures
        r == has_prefix(p@, pre@),
{
    let plen = p.unicode_len();
    let prelen = pre.unicode_len();
    if prelen > plen {
        assert(!has_prefix(p@, pre@));
        return false;
    }
    let mut i: usize = 0;
    while i < prelen
        invariant
            0 <= i <= prelen,
            prelen <= plen,
            plen == p@.len(),
            prelen == pre@.len(),
            forall|j: int| 0 <= j < i ==> p@[j] == pre@[j],
        decreases prelen - i,
    {
        if p.get_char(i) != pre.get_char(i) {
            assert(p@.subrange(0, pre@.len() as int)[i as int] != pre@[i as int]);
            return false;
        }
        i += 1;
    }
    assert(p@.subrange(0, pre@.len() as int) =~= pre@);
    true
}

/// The relative paths of the entries whose path begins with `folder`,
/// in catalog order.
pub open spec fn matching_paths(c: Seq<EntryView>, folder: Seq<char>) -> Seq<Seq<char>>
    decreases c.len(),
{
    if c.len() == 0 {
        Seq::empty()
    } else {
        let rest = matching_paths(c.drop_last(), folder);
        if has_prefix(c.last().relative_path, folder) {
            rest.push(c.last().relative_path)
        } else {
            rest
        }
    }
}

/// The first entry whose relative path is exactly `path`, if any.
pub open spec fn find_entry(c: Seq<EntryView>, path: Seq<char>) -> Option<EntryView>
    decreases c.len(),
{
    if c.len() == 0 {
        Option::None
    } else if c.first().relative_path == path {
        Option::Some(c.first())
    } else {
        find_entry(c.drop_first(), path)
    }
}

/// The views of a sequence of strings.
pub open spec fn string_views(v: Seq<String>) -> Seq<Seq<char>> {
    v.map_values(|s: String| s@)
}

/// The read-only template catalog: the bundled template entries of every
/// variant, loaded once and enumerable per variant on demand.
pub struct Catalog {
    pub entries: Vec<TemplateEntry>,
}

impl View for Catalog {
    type V = Seq<EntryView>;

    open spec fn view(&self) -> Seq<EntryView> {
        self.entries@.map_values(|e: TemplateEntry| e@)
    }
}

impl Catalog {
    pub fn new() -> (r: Self)
        ensures
            r@ =~= Seq::<EntryView>::empty(),
    {
        Catalog { entries: Vec::new() }
    }

    /// Adds one entry at the end of the catalog.
    pub fn push(&mut self, entry: TemplateEntry)
        ensures
            final(self)@ =~= old(self)@.push(entry@),
    {
        self.entries.push(entry);
    }

    pub fn len(&self) -> (r: usize)
        ensures
            r == self@.len(),
    {
        self.entries.len()
    }

    /// Enumerates the relative paths of the chosen variant's entries: exactly
    /// those whose path begins with `folder`, in catalog order. Enumeration is
    /// restartable: it reads the catalog and changes nothing.
    pub fn enumerate(&self, folder: &str) -> (r: Vec<String>)
        ensures
            string_views(r@) =~= matching_paths(self@, folder@),
    {
        let mut acc: Vec<String> = Vec::new();
        let n = self.entries.len();
        let mut i: usize = 0;
        while i < n
            invariant
                0 <= i <= n,
                n == self.entries@.len(),
                string_views(acc@) =~= matching_paths(self@.take(i as int), folder@),
            decreases n - i,
        {
            let e = &self.entries[i];
            proof {
                assert(self@.take(i + 1).drop_last() =~= self@.take(i as int));
                assert(self@.take(i + 1).last() == self@[i as int]);
            }
            if str_has_prefix(e.relative_path.as_str(), folder) {
                acc.push(e.relative_path.clone());
            }
            i += 1;
            assert(string_views(acc@) =~= matching_paths(self@.take(i as int), folder@));
        }
        proof {
            assert(self@.take(n as int) =~= self@);
        }
        acc
    }

    /// Fetches the first entry stored under exactly `path`, if any.
    pub fn get(&self, path: &str) -> (r: Option<&TemplateEntry>)
        ensures
            r is Some <==> find_entry(self@, path@) is Some,
            r is Some ==> r->0@ == find_entry(self@, path@)->0,
    {
        let n = self.entries.len();
        let mut i: usize = 0;
        proof {
            assert(self@.skip(0) =~= self@);
        }
        while i < n
            invariant
                0 <= i <= n,
                n == self.entries@.len(),
                find_entry(self@, path@) == find_entry(self@.skip(i as int), path@),
            decreases n - i,
        {
            proof {
                assert(self@.skip(i as int).first() == self@[i as int]);
                assert(self@.skip(i as int).drop_first() =~= self@.skip(i + 1));
            }
            if str_eq(self.entries[i].relative_path.as_str(), path) {
                return Some(&self.entries[i]);
            }
            i += 1;
        }
        proof {
            assert(self@.skip(n as int) =~= Seq::<EntryView>::empty());
        }
        None
    }
}

/// The two strings hold the same characters.
pub fn str_eq(a: &str, b: &str) -> (r: bool)
    ensures
        r == (a@ == b@),
{
    let alen = a.unicode_len();
    let blen = b.unicode_len();
    if alen != blen {
        return false;
    }
    let mut i: usize = 0;
    while i < alen
        invariant
            0 <= i <= alen,
            alen == a@.len(),
            alen == b@.len(),
            forall|j: int| 0 <= j < i ==> a@[j] == b@[j],
        decreases alen - i,
    {
        if a.get_char(i) != b.get_char(i) {
            return false;
        }
        i += 1;
    }
    proof {
        assert(a@ =~= b@);
    }
    true
}

} // verus!
