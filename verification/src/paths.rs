//! The path resolver and path classification: maps a template-relative path
//! to its output path under the project root, computes the parent-directory
//! chain that must exist before a file is written, and tags binary and
//! launcher-script paths.

use vstd::prelude::*;

use crate::catalog::{has_prefix, string_views, EntryKind, ParamsView, ProjectParameters};
use crate::render::{render_of, RenderError, RenderErrorView};

verus! {

/// `s` ends with the characters of `suf`.
pub open spec fn has_suffix(s: Seq<char>, suf: Seq<char>) -> bool {
    suf.len() <= s.len() && s.subrange(s.len() - suf.len(), s.len() as int) == suf
}

/// `s` ends with the characters of `suf`.
pub fn str_has_suffix(s: &str, suf: &str) -> (r: bool)
    ensures
        r == has_suffix(s@, suf@),
{
    let slen = s.unicode_len();
    let suflen = suf.unicode_len();
    if suflen > slen {
        return false;
    }
    let off = slen - suflen;
    let mut i: usize = 0;
    while i < suflen
        invariant
            0 <= i <= suflen,
            off + suflen == slen,
            slen == s@.len(),
            suflen == suf@.len(),
            forall|j: int| 0 <= j < i ==> s@[off + j] == suf@[j],
        decreases suflen - i,
    {
        if s.get_char(off + i) != suf.get_char(i) {
            assert(s@.subrange(s@.len() - suf@.len(), s@.len() as int)[i as int]
                != suf@[i as int]);
            return false;
        }
        i += 1;
    }
    proof {
        assert(s@.subrange(s@.len() - suf@.len(), s@.len() as int) =~= suf@);
    }
    true
}

/// A path names a binary template entry: rendering is never attempted on it.
pub open spec fn is_binary_path(p: Seq<char>) -> bool {
    has_suffix(p, ".jar"@)
}

/// A path names a launcher script, which receives the executable permission
/// bit after a successful write, where the platform has one.
pub open spec fn is_launcher_path(p: Seq<char>) -> bool {
    has_suffix(p, "gradlew"@) || has_suffix(p, "gradlew.bat"@)
}

/// Tags a path as a binary or a text template entry.
pub fn classify_path(p: &str) -> (r: EntryKind)
    ensures
        r == (if is_binary_path(p@) {
            EntryKind::BinaryFile
        } else {
            EntryKind::TextFile
        }),
{
    if str_has_suffix(p, ".jar") {
        EntryKind::BinaryFile
    } else {
        EntryKind::TextFile
    }
}

/// Tags a path as a launcher script.
pub fn is_launcher(p: &str) -> (r: bool)
    ensures
        r == is_launcher_path(p@),
{
    str_has_suffix(p, "gradlew") || str_has_suffix(p, "gradlew.bat")
}

/// A path-resolution failure.
#[derive(Debug, Clone)]
pub enum ResolveError {
    /// The template path does not lie under the expected template root
    /// folder: the catalog is corrupted or malformed.
    MissingPrefix,
    /// Substitution over the path itself failed.
    Render(RenderError),
}

/// The mathematical value of a path-resolution failure.
pub enum ResolveErrorView {
    MissingPrefix,
    Render(RenderErrorView),
}

impl View for ResolveError {
    type V = ResolveErrorView;

    open spec fn view(&self) -> ResolveErrorView {
        match self {
            ResolveError::MissingPrefix => ResolveErrorView::MissingPrefix,
            ResolveError::Render(e) => ResolveErrorView::Render(e@),
        }
    }
}

/// The single descriptive line of a path-resolution failure.
pub open spec fn resolve_message_of(e: ResolveErrorView) -> Seq<char> {
    match e {
        ResolveErrorView::MissingPrefix => "The template path is outside the template folder!"@,
        ResolveErrorView::Render(re) => crate::render::render_message_of(re),
    }
}

impl ResolveError {
    /// Renders the failure as one human-readable line.
    pub fn message(&self) -> (r: String)
        ensures
            r@ == resolve_message_of(self@),
    {
        match self {
            ResolveError::MissingPrefix => {
                String::from_str("The template path is outside the template folder!")
            },
            ResolveError::Render(e) => e.message(),
        }
    }
}

/// The template-relative path re-rooted under the project name, before
/// substitution: the template root and its separator are stripped, and the
/// remainder is joined under the name.
pub open spec fn rejoined(path: Seq<char>, name: Seq<char>, root: Seq<char>) -> Seq<char> {
    name + seq!['/'] + path.skip((root.len() + 1) as int)
}

/// The resolution of a template-relative path: the path must lie under the
/// template root folder; the remainder is re-rooted under the project name
/// and the whole output path is itself run through placeholder substitution.
pub open spec fn resolve_of(path: Seq<char>, p: ParamsView, root: Seq<char>) -> Result<
    Seq<char>,
    ResolveErrorView,
> {
    if has_prefix(path, root.push('/')) {
        match render_of(rejoined(path, p.name, root), p) {
            Result::Ok(out) => Result::Ok(out),
            Result::Err(e) => Result::Err(ResolveErrorView::Render(e)),
        }
    } else {
        Result::Err(ResolveErrorView::MissingPrefix)
    }
}

/// Resolves a template-relative path to the output path it materializes at,
/// as `resolve_of` describes.
pub fn get_output_dir(input_file: &str, values: &ProjectParameters, template_root: &str) -> (r:
    Result<String, ResolveError>)
    ensures
        r is Ok <==> resolve_of(input_file@, values@, template_root@) is Ok,
        r is Ok ==> r->Ok_0@ == resolve_of(input_file@, values@, template_root@)->Ok_0,
        r is Err ==> r->Err_0@ == resolve_of(input_file@, values@, template_root@)->Err_0,
{
    let rootlen = template_root.unicode_len();
    let plen = input_file.unicode_len();
    let mut prefix = String::from_str(template_root);
    prefix.append("/");
    proof {
        reveal_strlit("/");
        assert(prefix@ =~= template_root@.push('/'));
    }
    if !crate::catalog::str_has_prefix(input_file, prefix.as_str()) {
        return Err(ResolveError::MissingPrefix);
    }
    let rest = input_file.substring_char(rootlen + 1, plen);
    let mut joined = String::from_str(values.name.as_str());
    joined.append("/");
    joined.append(rest);
    proof {
        reveal_strlit("/");
        assert(joined@ =~= rejoined(input_file@, values@.name, template_root@));
    }
    match crate::render::replace_text(joined.as_str(), values) {
        Ok(s) => Ok(s),
        Err(e) => Err(ResolveError::Render(e)),
    }
}

/// The ancestor directories among the first `n` characters of a path: one for
/// each separator, shortest first.
pub open spec fn ancestors_upto(p: Seq<char>, n: int) -> Seq<Seq<char>>
    decreases n,
{
    if n <= 0 {
        Seq::empty()
    } else if p[n - 1] == '/' {
        ancestors_upto(p, n - 1).push(p.subrange(0, n - 1))
    } else {
        ancestors_upto(p, n - 1)
    }
}

/// The ancestor directories of a path: one per separator, shortest first.
pub open spec fn ancestors_of(p: Seq<char>) -> Seq<Seq<char>> {
    ancestors_upto(p, p.len() as int)
}

/// The parent-directory chain of a file's output path: every ancestor
/// directory, ordered parents before children, so that creating them in
/// order leaves each directory present before anything inside it is written.
pub fn parent_dirs(file: &str) -> (r: Vec<String>)
    ensures
        string_views(r@) =~= ancestors_of(file@),
{
    let len = file.unicode_len();
    let mut acc: Vec<String> = Vec::new();
    let mut i: usize = 0;
    while i < len
        invariant
            0 <= i <= len,
            len == file@.len(),
            string_views(acc@) =~= ancestors_upto(file@, i as int),
        decreases len - i,
    {
        if file.get_char(i) == '/' {
            acc.push(String::from_str(file.substring_char(0, i)));
        }
        i += 1;
        assert(string_views(acc@) =~= ancestors_upto(file@, i as int));
    }
    acc
}

/// `d` is an ancestor directory of `p`: a proper prefix ending right before
/// a separator.
pub open spec fn is_dir_prefix(d: Seq<char>, p: Seq<char>) -> bool {
    &&& d.len() < p.len()
    &&& p.subrange(0, d.len() as int) == d
    &&& p[d.len() as int] == '/'
}

proof fn lemma_ancestors_upto_complete(p: Seq<char>, n: int)
    requires
        0 <= n <= p.len(),
    ensures
        forall|k: int|
            0 <= k < ancestors_upto(p, n).len() ==> is_dir_prefix(
                #[trigger] ancestors_upto(p, n)[k],
                p,
            ),
        forall|i: int|
            0 <= i < n && p[i] == '/' ==> ancestors_upto(p, n).contains(p.subrange(0, i)),
        forall|k1: int, k2: int|
            0 <= k1 < k2 < ancestors_upto(p, n).len() ==> ancestors_upto(p, n)[k1].len()
                < ancestors_upto(p, n)[k2].len(),
        forall|k: int| 0 <= k < ancestors_upto(p, n).len() ==> ancestors_upto(p, n)[k].len() < n,
    decreases n,
{
    if n > 0 {
        lemma_ancestors_upto_complete(p, n - 1);
        let prev = ancestors_upto(p, n - 1);
        if p[n - 1] == '/' {
            let cur = prev.push(p.subrange(0, n - 1));
            assert forall|i: int| 0 <= i < n && p[i] == '/' implies cur.contains(
                p.subrange(0, i),
            ) by {
                if i < n - 1 {
                    assert(prev.contains(p.subrange(0, i)));
                    let k = choose|k: int| 0 <= k < prev.len() && prev[k] == p.subrange(0, i);
                    assert(cur[k] == p.subrange(0, i));
                } else {
                    assert(cur[cur.len() - 1] == p.subrange(0, n - 1));
                }
            }
        } else {
            assert forall|i: int| 0 <= i < n && p[i] == '/' implies ancestors_upto(p, n).contains(
                p.subrange(0, i),
            ) by {
                assert(i != n - 1);
            }
        }
    }
}

/// Every ancestor directory of a path appears in its parent-directory chain;
/// the chain holds only ancestors of the path; and the chain is ordered
/// parents strictly before children. Whatever order a catalog enumerates its
/// entries in, a driver that creates the chain in order before writing the
/// file therefore never writes into a missing directory.
pub proof fn lemma_parent_chain_complete(p: Seq<char>)
    ensures
        forall|k: int|
            0 <= k < ancestors_of(p).len() ==> is_dir_prefix(#[trigger] ancestors_of(p)[k], p),
        forall|i: int| 0 <= i < p.len() && p[i] == '/' ==> ancestors_of(p).contains(p.subrange(0, i)),
        forall|k1: int, k2: int|
            0 <= k1 < k2 < ancestors_of(p).len() ==> ancestors_of(p)[k1].len() < ancestors_of(
                p,
            )[k2].len(),
{
    lemma_ancestors_upto_complete(p, p.len() as int);
}

/// Entries `i` and `j` of the path list resolve apart: if their paths are
/// distinct and both resolve, the resolved output paths are distinct too.
pub open spec fn pair_resolves_apart(
    pv: Seq<Seq<char>>,
    p: ParamsView,
    root: Seq<char>,
    i: int,
    j: int,
) -> bool {
    (pv[i] != pv[j] && resolve_of(pv[i], p, root) is Ok && resolve_of(pv[j], p, root) is Ok)
        ==> resolve_of(pv[i], p, root)->Ok_0 != resolve_of(pv[j], p, root)->Ok_0
}

/// No two distinct template-relative paths of the list resolve to the same
/// output path under the given parameters: a collision is a catalog
/// authoring defect, never acceptable in a catalog that is scaffolded from.
pub open spec fn resolves_without_collision(
    pv: Seq<Seq<char>>,
    p: ParamsView,
    root: Seq<char>,
) -> bool {
    forall|i: int, j: int|
        0 <= i < j < pv.len() ==> #[trigger] pair_resolves_apart(pv, p, root, i, j)
}

/// `o` holds exactly the success value of the resolution `r`.
pub open spec fn opt_is_resolution(
    o: Option<String>,
    r: Result<Seq<char>, ResolveErrorView>,
) -> bool {
    &&& o is Some <==> r is Ok
    &&& o is Some ==> o->0@ == r->Ok_0
}

/// Checks a catalog's enumerated paths for output-path collisions under one
/// parameter set: holds exactly when no two distinct paths resolve to the
/// same output path. A driver or a test can run this before any write to
/// surface the authoring defect early.
pub fn collision_free(paths: &Vec<String>, values: &ProjectParameters, template_root: &str) -> (r:
    bool)
    ensures
        r == resolves_without_collision(string_views(paths@), values@, template_root@),
{
    let ghost pv = string_views(paths@);
    let ghost p = values@;
    let ghost root = template_root@;
    let n = paths.len();
    let mut resolved: Vec<Option<String>> = Vec::new();
    let mut k: usize = 0;
    while k < n
        invariant
            0 <= k <= n,
            n == paths@.len(),
            resolved@.len() == k,
            pv == string_views(paths@),
            p == values@,
            root == template_root@,
            forall|t: int|
                0 <= t < k ==> #[trigger] opt_is_resolution(
                    resolved@[t],
                    resolve_of(pv[t], p, root),
                ),
        decreases n - k,
    {
        proof {
            assert(pv[k as int] == paths@[k as int]@);
        }
        match get_output_dir(paths[k].as_str(), values, template_root) {
            Ok(out) => resolved.push(Some(out)),
            Err(_) => resolved.push(None),
        }
        k += 1;
    }
    let mut i: usize = 0;
    while i < n
        invariant
            0 <= i <= n,
            n == paths@.len(),
            resolved@.len() == n,
            pv == string_views(paths@),
            p == values@,
            root == template_root@,
            forall|t: int|
                0 <= t < n ==> #[trigger] opt_is_resolution(
                    resolved@[t],
                    resolve_of(pv[t], p, root),
                ),
            forall|x: int, y: int|
                0 <= x < y < n && x < i ==> #[trigger] pair_resolves_apart(pv, p, root, x, y),
        decreases n - i,
    {
        let mut j: usize = i + 1;
        while j < n
            invariant
                0 <= i < n,
                i < j <= n,
                n == paths@.len(),
                resolved@.len() == n,
                pv == string_views(paths@),
                p == values@,
                root == template_root@,
                forall|t: int|
                    0 <= t < n ==> #[trigger] opt_is_resolution(
                        resolved@[t],
                        resolve_of(pv[t], p, root),
                    ),
                forall|y: int|
                    i < y < j ==> #[trigger] pair_resolves_apart(pv, p, root, i as int, y),
        decreases n - j,
        {
            proof {
                assert(pv[i as int] == paths@[i as int]@);
                assert(pv[j as int] == paths@[j as int]@);
                assert(opt_is_resolution(resolved@[i as int], resolve_of(pv[i as int], p, root)));
                assert(opt_is_resolution(resolved@[j as int], resolve_of(pv[j as int], p, root)));
            }
            if !crate::catalog::str_eq(paths[i].as_str(), paths[j].as_str()) {
                match &resolved[i] {
                    Some(a) => match &resolved[j] {
                        Some(b) => {
                            if crate::catalog::str_eq(a.as_str(), b.as_str()) {
                                proof {
                                    assert(!pair_resolves_apart(pv, p, root, i as int, j as int));
                                }
                                return false;
                            }
                        },
                        None => {},
                    },
                    None => {},
                }
            }
            proof {
                assert(pair_resolves_apart(pv, p, root, i as int, j as int));
            }
            j += 1;
        }
        i += 1;
    }
    true
}

} // verus!
