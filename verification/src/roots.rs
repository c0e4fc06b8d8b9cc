//! The workspace roots of a session: the primary root and the roots added
//! since, each with a unique name and a unique (canonical) path; which root
//! a query addresses.
use vstd::prelude::*;

use crate::document::eq_chars;
use crate::text::{chars_of, split_chars, split_on, str_eq, string_of, string_views, trim, trim_chars, views};
use crate::unified_exec::{file_name, normal_pieces, path_file_name};
use crate::code_intel_format::RootStatus;

verus! {

/// A named workspace root.
#[derive(Debug)]
pub struct ProjectRoot {
    pub name: String,
    pub path: String,
}

impl ProjectRoot {
    pub open spec fn view_pair(&self) -> (Seq<char>, Seq<char>) {
        (self.name@, self.path@)
    }
}

/// The roots as (name, path) pairs.
pub open spec fn root_views(roots: Seq<ProjectRoot>) -> Seq<(Seq<char>, Seq<char>)> {
    roots.map_values(|r: ProjectRoot| r.view_pair())
}

/// The name a root gets from its path: the path's file name unless it is
/// blank, else `root`.
pub open spec fn default_root_name_spec(path: Seq<char>) -> Seq<char> {
    match file_name(path) {
        Some(n) => if trim(n).len() > 0 {
            n
        } else {
            "root"@
        },
        None => "root"@,
    }
}

/// The name a root gets from its path.
pub fn default_root_name(path: &str) -> (r: String)
    ensures
        r@ == default_root_name_spec(path@),
{
    match path_file_name(path) {
        Some(n) => {
            if trim_chars(chars_of(n.as_str()).as_slice()).len() > 0 {
                n
            } else {
                String::from_str("root")
            }
        },
        None => String::from_str("root"),
    }
}

/// How a path starts: at the file-system root, at `.`, or otherwise.
#[derive(Clone, Copy, Debug, PartialEq, Eq, Structural)]
pub enum PathStart {
    Root,
    Current,
    Plain,
}

/// How a path starts.
pub open spec fn path_start(p: Seq<char>) -> PathStart {
    if p.len() > 0 && p[0] == '/' {
        PathStart::Root
    } else if split_on(p, '/').len() > 0 && split_on(p, '/')[0] == seq!['.'] {
        PathStart::Current
    } else {
        PathStart::Plain
    }
}

/// Whether `p` starts with the components of `base`, as `Path::starts_with`
/// decides it: the same start and `base`'s named components first.
pub open spec fn path_starts_with(p: Seq<char>, base: Seq<char>) -> bool {
    path_start(p) == path_start(base) && normal_pieces(split_on(base, '/')).len() <= normal_pieces(split_on(p, '/')).len()
        && normal_pieces(split_on(p, '/')).take(normal_pieces(split_on(base, '/')).len() as int) == normal_pieces(
        split_on(base, '/'),
    )
}

/// The number of components of a path.
pub open spec fn component_count(p: Seq<char>) -> nat {
    (if path_start(p) == PathStart::Plain { 0nat } else { 1nat }) + normal_pieces(split_on(p, '/')).len()
}

/// The named components of a path, and how it starts.
pub(crate) fn path_parts(p: &str) -> (r: (PathStart, Vec<Vec<char>>))
    ensures
        r.0 == path_start(p@),
        views(r.1@) == normal_pieces(split_on(p@, '/')),
{
    let c = chars_of(p);
    let pieces = split_chars(c.as_slice(), '/');
    let ghost ps = views(pieces@);
    let start = if c.len() > 0 && c[0] == '/' {
        PathStart::Root
    } else if pieces.len() > 0 && pieces[0].len() == 1 && pieces[0][0] == '.' {
        assert(ps[0] =~= seq!['.']);
        PathStart::Current
    } else {
        proof {
            if ps.len() > 0 && ps[0] == seq!['.'] {
                assert(pieces@[0]@.len() == 1 && pieces@[0]@[0] == '.');
            }
        }
        PathStart::Plain
    };
    let mut normals: Vec<Vec<char>> = Vec::new();
    let mut k: usize = 0;
    while k < pieces.len()
        invariant
            k <= pieces@.len(),
            ps == views(pieces@),
            views(normals@) == normal_pieces(ps.take(k as int)),
        decreases pieces@.len() - k,
    {
        assert(ps.take(k + 1).drop_last() =~= ps.take(k as int));
        let p = &pieces[k];
        let ghost prev = views(normals@);
        if !(p.len() == 0 || (p.len() == 1 && p[0] == '.')) {
            proof {
                if ps[k as int] == seq!['.'] {
                    assert(p@.len() == 1 && p@[0] == '.');
                }
            }
            normals.push(crate::text::copy_slice(p.as_slice()));
            assert(views(normals@) =~= prev.push(ps[k as int]));
        } else {
            assert(ps[k as int].len() == 0 || ps[k as int] =~= seq!['.']);
        }
        k = k + 1;
    }
    assert(ps.take(pieces@.len() as int) =~= ps);
    (start, normals)
}

/// Whether `p` starts with the components of `base`.
#[verifier::loop_isolation(false)]
pub fn path_has_prefix(p: &str, base: &str) -> (b: bool)
    ensures
        b == path_starts_with(p@, base@),
{
    let (ps, pn) = path_parts(p);
    let (bs, bn) = path_parts(base);
    if ps != bs || bn.len() > pn.len() {
        return false;
    }
    let mut k: usize = 0;
    while k < bn.len()
        invariant
            k <= bn@.len() <= pn@.len(),
            forall|i: int| 0 <= i < k ==> pn@[i]@ == bn@[i]@,
        decreases bn@.len() - k,
    {
        if !eq_chars(pn[k].as_slice(), bn[k].as_slice()) {
            assert(views(pn@).take(bn@.len() as int)[k as int] != views(bn@)[k as int]);
            return false;
        }
        k = k + 1;
    }
    assert(views(pn@).take(bn@.len() as int) =~= views(bn@));
    true
}

/// The roots of a session and the name of its primary root.
#[derive(Debug)]
pub struct MultiRootState {
    primary_root: String,
    roots: Vec<ProjectRoot>,
}

/// Whether no two roots share a name or a path.
pub open spec fn roots_unique(roots: Seq<(Seq<char>, Seq<char>)>) -> bool {
    forall|i: int, j: int|
        0 <= i < j < roots.len() ==> (#[trigger] roots[i]).0 != (#[trigger] roots[j]).0 && roots[i].1 != roots[j].1
}

/// Whether some root has this name.
pub open spec fn has_name(roots: Seq<(Seq<char>, Seq<char>)>, name: Seq<char>) -> bool {
    exists|i: int| 0 <= i < roots.len() && (#[trigger] roots[i]).0 == name
}

/// Whether some root has this path.
pub open spec fn has_path(roots: Seq<(Seq<char>, Seq<char>)>, path: Seq<char>) -> bool {
    exists|i: int| 0 <= i < roots.len() && (#[trigger] roots[i]).1 == path
}

/// The position of the root with this name (meaningful when there is one).
pub open spec fn name_position(roots: Seq<(Seq<char>, Seq<char>)>, name: Seq<char>) -> int {
    choose|i: int| 0 <= i < roots.len() && roots[i].0 == name
}

/// The error for a blank root name.
pub open spec fn blank_name_error() -> Seq<char> {
    "`root` must be non-empty"@
}

/// The error for a relative root path.
pub open spec fn relative_path_error() -> Seq<char> {
    "`path` must be an absolute directory path"@
}

/// Whether a path is absolute: it starts at `/`.
pub open spec fn is_absolute_path(path: Seq<char>) -> bool {
    path.len() > 0 && path[0] == '/'
}

/// What adding a root does: the roots after, and the root added or the
/// error. A blank name and a path that is not absolute are refused; the
/// name is trimmed; a name or path already registered is refused.
pub open spec fn add_step(roots: Seq<(Seq<char>, Seq<char>)>, name: Seq<char>, path: Seq<char>) -> (
    Seq<(Seq<char>, Seq<char>)>,
    Result<(Seq<char>, Seq<char>), Seq<char>>,
) {
    if trim(name).len() == 0 {
        (roots, Err(blank_name_error()))
    } else if !is_absolute_path(path) {
        (roots, Err(relative_path_error()))
    } else if has_name(roots, trim(name)) {
        (roots, Err("root '"@ + trim(name) + "' already exists"@))
    } else if has_path(roots, path) {
        (roots, Err("root path already registered: "@ + path))
    } else {
        (roots.push((trim(name), path)), Ok((trim(name), path)))
    }
}

/// What removing a root does: the roots after, and the error if any.
pub open spec fn remove_step(roots: Seq<(Seq<char>, Seq<char>)>, primary: Seq<char>, name: Seq<char>) -> (
    Seq<(Seq<char>, Seq<char>)>,
    Result<(), Seq<char>>,
) {
    if name == primary {
        (roots, Err("cannot remove the primary root"@))
    } else if has_name(roots, name) {
        (roots.remove(name_position(roots, name)), Ok(()))
    } else {
        (roots, Err("unknown root '"@ + name + seq!['\'']))
    }
}

/// Checks a request to add a root before the file system is asked about
/// its path: the name must not be blank and the path must be absolute.
pub fn validate_root_request(name: &str, path: &str) -> (r: Result<(), String>)
    ensures
        trim(name@).len() == 0 ==> r is Err && r->Err_0@ == blank_name_error(),
        trim(name@).len() > 0 && !(path@.len() > 0 && path@[0] == '/') ==> r is Err && r->Err_0@ == relative_path_error(),
        trim(name@).len() > 0 && path@.len() > 0 && path@[0] == '/' ==> r is Ok,
{
    if trim_chars(chars_of(name).as_slice()).len() == 0 {
        return Err(String::from_str("`root` must be non-empty"));
    }
    let p = chars_of(path);
    if !(p.len() > 0 && p[0] == '/') {
        return Err(String::from_str("`path` must be an absolute directory path"));
    }
    Ok(())
}

impl MultiRootState {
    /// No two registered roots share a name or a path.
    #[verifier::type_invariant]
    closed spec fn roots_are_unique(self) -> bool {
        roots_unique(root_views(self.roots@))
    }

    /// The primary root's name and the roots as (name, path) pairs.
    pub closed spec fn view_pair(&self) -> (Seq<char>, Seq<(Seq<char>, Seq<char>)>) {
        (self.primary_root@, root_views(self.roots@))
    }

    /// The primary root's name.
    pub open spec fn primary(&self) -> Seq<char> {
        self.view_pair().0
    }

    /// The roots, in the order they were added.
    pub open spec fn entries(&self) -> Seq<(Seq<char>, Seq<char>)> {
        self.view_pair().1
    }

    /// A session whose primary root will be the directory `primary_path`:
    /// the primary root's name is that path's default name, and no root is
    /// registered yet (the primary root is added next, once its path has
    /// been canonicalized).
    pub fn new(primary_path: &str) -> (r: Self)
        ensures
            r.primary() == default_root_name_spec(primary_path@),
            r.entries().len() == 0,
            roots_unique(r.entries()),
    {
        let r = MultiRootState { primary_root: default_root_name(primary_path), roots: Vec::new() };
        assert(r.entries() =~= Seq::<(Seq<char>, Seq<char>)>::empty());
        r
    }

    /// The name of the primary root.
    pub fn primary_root(&self) -> (r: &str)
        ensures
            r@ == self.primary(),
    {
        self.primary_root.as_str()
    }

    /// The registered roots, as copies.
    pub fn roots(&self) -> (r: Vec<ProjectRoot>)
        ensures
            root_views(r@) == self.entries(),
    {
        let mut out: Vec<ProjectRoot> = Vec::new();
        let mut k: usize = 0;
        while k < self.roots.len()
            invariant
                k <= self.roots@.len(),
                root_views(out@) == root_views(self.roots@).take(k as int),
            decreases self.roots@.len() - k,
        {
            let ghost prev = root_views(out@);
            out.push(ProjectRoot { name: self.roots[k].name.clone(), path: self.roots[k].path.clone() });
            assert(root_views(out@) =~= prev.push(root_views(self.roots@)[k as int]));
            k = k + 1;
            assert(root_views(out@) =~= root_views(self.roots@).take(k as int));
        }
        assert(root_views(self.roots@).take(self.roots@.len() as int) =~= root_views(self.roots@));
        out
    }

    fn find_name(&self, name: &str) -> (r: Option<usize>)
        ensures
            match r {
                Some(i) => i < self.entries().len() && self.entries()[i as int].0 == name@,
                None => !has_name(self.entries(), name@),
            },
    {
        let ghost rs = root_views(self.roots@);
        let mut k: usize = 0;
        while k < self.roots.len()
            invariant
                k <= self.roots@.len(),
                rs == root_views(self.roots@),
                rs == self.entries(),
                forall|i: int| 0 <= i < k ==> (#[trigger] rs[i]).0 != name@,
            decreases self.roots@.len() - k,
        {
            if str_eq(self.roots[k].name.as_str(), name) {
                return Some(k);
            }
            k = k + 1;
        }
        None
    }

    fn find_path(&self, path: &str) -> (r: bool)
        ensures
            r == has_path(self.entries(), path@),
    {
        let ghost rs = root_views(self.roots@);
        let mut k: usize = 0;
        while k < self.roots.len()
            invariant
                k <= self.roots@.len(),
                rs == root_views(self.roots@),
                rs == self.entries(),
                forall|i: int| 0 <= i < k ==> (#[trigger] rs[i]).1 != path@,
            decreases self.roots@.len() - k,
        {
            if str_eq(self.roots[k].path.as_str(), path) {
                assert(rs[k as int].1 == path@);
                return true;
            }
            k = k + 1;
        }
        false
    }

    /// Adds the root `name` (trimmed) at the canonical path `path`, unless
    /// the name is blank, the path is not absolute, or a root of that name
    /// or path is registered already.
    pub fn add_root(&mut self, name: &str, path: &str) -> (r: Result<ProjectRoot, String>)
        ensures
            final(self).primary() == old(self).primary(),
            roots_unique(final(self).entries()),
            final(self).entries() == add_step(old(self).entries(), name@, path@).0,
            match r {
                Ok(root) => add_step(old(self).entries(), name@, path@).1 == Ok::<(Seq<char>, Seq<char>), Seq<char>>(
                    root.view_pair(),
                ),
                Err(e) => add_step(old(self).entries(), name@, path@).1 == Err::<(Seq<char>, Seq<char>), Seq<char>>(
                    e@,
                ),
            },
            trim(name@).len() == 0 ==> r is Err,
            !is_absolute_path(path@) ==> r is Err,
    {
        proof {
            use_type_invariant(&*self);
        }
        if let Err(e) = validate_root_request(name, path) {
            return Err(e);
        }
        let trimmed = string_of(trim_chars(chars_of(name).as_slice()).as_slice());
        if self.find_name(trimmed.as_str()).is_some() {
            let mut e = String::from_str("root '");
            e.append(trimmed.as_str());
            e.append("' already exists");
            return Err(e);
        }
        if self.find_path(path) {
            let mut e = String::from_str("root path already registered: ");
            e.append(path);
            return Err(e);
        }
        let ghost before = root_views(self.roots@);
        let mut roots: Vec<ProjectRoot> = Vec::new();
        std::mem::swap(&mut roots, &mut self.roots);
        roots.push(ProjectRoot { name: trimmed.clone(), path: String::from_str(path) });
        assert(root_views(roots@) =~= before.push((trimmed@, path@)));
        proof {
            let after = root_views(roots@);
            assert forall|i: int, j: int| 0 <= i < j < after.len() implies (#[trigger] after[i]).0 != (#[trigger] after[j]).0
                && after[i].1 != after[j].1 by {
                if j == after.len() - 1 {
                    assert(after[i] == before[i]);
                    if after[i].0 == trimmed@ {
                        assert(has_name(before, trimmed@));
                    }
                    if after[i].1 == path@ {
                        assert(has_path(before, path@));
                    }
                } else {
                    assert(after[i] == before[i] && after[j] == before[j]);
                }
            }
        }
        self.roots = roots;
        Ok(ProjectRoot { name: trimmed, path: String::from_str(path) })
    }

    /// Removes the root `name`; the primary root cannot be removed.
    pub fn remove_root(&mut self, name: &str) -> (r: Result<(), String>)
        ensures
            final(self).primary() == old(self).primary(),
            roots_unique(final(self).entries()),
            final(self).entries() == remove_step(old(self).entries(), old(self).primary(), name@).0,
            match r {
                Ok(_) => remove_step(old(self).entries(), old(self).primary(), name@).1 == Ok::<(), Seq<char>>(()),
                Err(e) => remove_step(old(self).entries(), old(self).primary(), name@).1 == Err::<(), Seq<char>>(e@),
            },
    {
        proof {
            use_type_invariant(&*self);
        }
        if str_eq(name, self.primary_root.as_str()) {
            return Err(String::from_str("cannot remove the primary root"));
        }
        match self.find_name(name) {
            Some(i) => {
                let ghost before = root_views(self.roots@);
                proof {
                    let c = name_position(before, name@);
                    assert(has_name(before, name@));
                    if c != i {
                        assert(before[c].0 == before[i as int].0);
                        if c < i {
                            assert(before[c].0 != before[i as int].0);
                        } else {
                            assert(before[i as int].0 != before[c].0);
                        }
                    }
                }
                let mut roots: Vec<ProjectRoot> = Vec::new();
                std::mem::swap(&mut roots, &mut self.roots);
                roots.remove(i);
                assert(root_views(roots@) =~= before.remove(i as int));
                proof {
                    let after = root_views(roots@);
                    assert forall|a: int, b: int| 0 <= a < b < after.len() implies (#[trigger] after[a]).0 != (#[trigger] after[b]).0
                        && after[a].1 != after[b].1 by {
                        let a0 = if a < i { a } else { a + 1 };
                        let b0 = if b < i { b } else { b + 1 };
                        assert(after[a] == before[a0] && after[b] == before[b0]);
                    }
                }
                self.roots = roots;
                assert(remove_step(before, self.primary_root@, name@).1 == Ok::<(), Seq<char>>(()));
                Ok(())
            },
            None => {
                let mut e = String::from_str("unknown root '");
                e.append(name);
                let ghost head = e@;
                crate::text::push_char(&mut e, '\'');
                assert(e@ =~= head + seq!['\'']);
                Err(e)
            },
        }
    }

    fn copy_root(&self, i: usize) -> (r: ProjectRoot)
        requires
            i < self.entries().len(),
        ensures
            r.view_pair() == self.entries()[i as int],
    {
        ProjectRoot { name: self.roots[i].name.clone(), path: self.roots[i].path.clone() }
    }

    /// The root that holds the (canonical) file `file`: of the roots whose
    /// path the file starts with, the one with the most path components
    /// (the last of them on a tie); `None` when no root holds it.
    pub fn root_for_file(&self, file: &str) -> (r: Option<ProjectRoot>)
        ensures
            match r {
                Some(root) => exists|i: int| is_best_root(self.entries(), file@, i) && root.view_pair() == self.entries()[i],
                None => !holds_file(self.entries(), file@),
            },
            r matches Some(root) ==> root_for(self.entries(), file@) == Some(root.view_pair()),
            r is None ==> root_for(self.entries(), file@) is None,
    {
        let ghost rs = self.entries();
        let mut best: Option<usize> = None;
        let mut best_count: u128 = 0;
        let mut k: usize = 0;
        while k < self.roots.len()
            invariant
                k <= self.roots@.len(),
                rs == self.entries(),
                rs.len() == self.roots@.len(),
                match best {
                    Some(b) => b < k && best_so_far(rs, file@, b as int, k as int) && best_count == component_count(
                        rs[b as int].1,
                    ),
                    None => forall|j: int| 0 <= j < k ==> !path_starts_with(file@, (#[trigger] rs[j]).1),
                },
            decreases self.roots@.len() - k,
        {
            if path_has_prefix(file, self.roots[k].path.as_str()) {
                let c = component_total(self.roots[k].path.as_str());
                let take = match best {
                    Some(_) => c >= best_count,
                    None => true,
                };
                if take {
                    best = Some(k);
                    best_count = c;
                }
            }
            k = k + 1;
        }
        match best {
            Some(b) => {
                proof {
                    assert(is_best_root(rs, file@, b as int));
                    lemma_root_for_is_best(rs, file@, b as int);
                }
                Some(self.copy_root(b))
            },
            None => {
                proof {
                    if holds_file(rs, file@) {
                        let j = choose|j: int| 0 <= j < rs.len() && path_starts_with(file@, (#[trigger] rs[j]).1);
                        assert(!path_starts_with(file@, rs[j].1));
                    }
                }
                None
            },
        }
    }

    /// The root a query addresses. With a name, the root of that name, and
    /// when a (canonical) file is given too, only if the file lies in it;
    /// with a file alone, the root that holds it; with neither, the primary
    /// root.
    pub fn resolve_root(&self, root_name: Option<&str>, file: Option<&str>) -> (r: Option<ProjectRoot>)
        ensures
            r matches Some(root) ==> resolved_root(self.primary(), self.entries(), opt_view(root_name), opt_view(file))
                == Some(root.view_pair()),
            r is None ==> resolved_root(self.primary(), self.entries(), opt_view(root_name), opt_view(file)) is None,
    {
        proof {
            use_type_invariant(self);
        }
        match root_name {
            Some(n) => {
                match self.find_name(n) {
                    Some(i) => {
                        proof {
                            lemma_unique_name_position(self.entries(), n@, i as int);
                        }
                        match file {
                            Some(f) => {
                                if !path_has_prefix(f, self.roots[i].path.as_str()) {
                                    return None;
                                }
                                Some(self.copy_root(i))
                            },
                            None => Some(self.copy_root(i)),
                        }
                    },
                    None => None,
                }
            },
            None => {
                match file {
                    Some(f) => self.root_for_file(f),
                    None => {
                        match self.find_name(self.primary_root.as_str()) {
                            Some(i) => {
                                proof {
                                    lemma_unique_name_position(self.entries(), self.primary(), i as int);
                                }
                                Some(self.copy_root(i))
                            },
                            None => None,
                        }
                    },
                }
            },
        }
    }

    /// The status of each root, in order: whether it is the primary root,
    /// whether it has language servers (`lsp_roots` names those roots) and
    /// whether its syntax index is ready (`indexed_roots` names those).
    pub fn root_statuses(&self, lsp_roots: &[String], indexed_roots: &[String]) -> (r: Vec<RootStatus>)
        ensures
            r@.len() == self.entries().len(),
            forall|i: int|
                0 <= i < r@.len() ==> (#[trigger] r@[i]).name@ == self.entries()[i].0 && r@[i].path@
                    == self.entries()[i].1 && r@[i].is_primary == (self.entries()[i].0 == self.primary())
                    && r@[i].has_lsp == string_views(lsp_roots@).contains(self.entries()[i].0)
                    && r@[i].has_treesitter == string_views(indexed_roots@).contains(self.entries()[i].0),
    {
        let mut out: Vec<RootStatus> = Vec::new();
        let mut k: usize = 0;
        while k < self.roots.len()
            invariant
                k <= self.roots@.len(),
                out@.len() == k,
                forall|i: int|
                    0 <= i < k ==> (#[trigger] out@[i]).name@ == self.entries()[i].0 && out@[i].path@
                        == self.entries()[i].1 && out@[i].is_primary == (self.entries()[i].0 == self.primary())
                        && out@[i].has_lsp == string_views(lsp_roots@).contains(self.entries()[i].0)
                        && out@[i].has_treesitter == string_views(indexed_roots@).contains(self.entries()[i].0),
            decreases self.roots@.len() - k,
        {
            let root = &self.roots[k];
            let st = RootStatus {
                name: root.name.clone(),
                path: root.path.clone(),
                is_primary: str_eq(root.name.as_str(), self.primary_root.as_str()),
                has_lsp: contains_string(lsp_roots, root.name.as_str()),
                has_treesitter: contains_string(indexed_roots, root.name.as_str()),
            };
            out.push(st);
            k = k + 1;
        }
        out
    }
}

/// Whether some root holds the file.
pub open spec fn holds_file(roots: Seq<(Seq<char>, Seq<char>)>, file: Seq<char>) -> bool {
    exists|j: int| 0 <= j < roots.len() && path_starts_with(file, (#[trigger] roots[j]).1)
}

/// Of the first `k` roots, `b` holds the file, no root that holds it has
/// more components, and none after `b` as many.
pub open spec fn best_so_far(roots: Seq<(Seq<char>, Seq<char>)>, file: Seq<char>, b: int, k: int) -> bool {
    &&& 0 <= b < k <= roots.len()
    &&& path_starts_with(file, roots[b].1)
    &&& forall|j: int|
        0 <= j < k && path_starts_with(file, (#[trigger] roots[j]).1) ==> component_count(roots[j].1)
            <= component_count(roots[b].1)
    &&& forall|j: int|
        b < j < k && path_starts_with(file, (#[trigger] roots[j]).1) ==> component_count(roots[j].1)
            < component_count(roots[b].1)
}

/// Whether root `i` is the one that holds the file: it holds it, has the
/// most components of those that do, and is the last of them with as many.
pub open spec fn is_best_root(roots: Seq<(Seq<char>, Seq<char>)>, file: Seq<char>, i: int) -> bool {
    best_so_far(roots, file, i, roots.len() as int)
}

/// The root that holds the file, if any.
pub open spec fn root_for(roots: Seq<(Seq<char>, Seq<char>)>, file: Seq<char>) -> Option<(Seq<char>, Seq<char>)> {
    if exists|i: int| is_best_root(roots, file, i) {
        Some(roots[choose|i: int| is_best_root(roots, file, i)])
    } else {
        None
    }
}

/// At most one root is the one that holds a file.
pub proof fn lemma_root_for_is_best(roots: Seq<(Seq<char>, Seq<char>)>, file: Seq<char>, i: int)
    requires
        is_best_root(roots, file, i),
    ensures
        root_for(roots, file) == Some(roots[i]),
{
    let c = choose|c: int| is_best_root(roots, file, c);
    assert(is_best_root(roots, file, c));
    if c < i {
        assert(component_count(roots[i].1) < component_count(roots[c].1));
        assert(component_count(roots[c].1) <= component_count(roots[i].1));
    } else if i < c {
        assert(component_count(roots[c].1) < component_count(roots[i].1));
        assert(component_count(roots[i].1) <= component_count(roots[c].1));
    }
}

/// With unique names, the root found by a name is the one at its position.
proof fn lemma_unique_name_position(roots: Seq<(Seq<char>, Seq<char>)>, name: Seq<char>, i: int)
    requires
        roots_unique(roots),
        0 <= i < roots.len(),
        roots[i].0 == name,
    ensures
        has_name(roots, name),
        name_position(roots, name) == i,
{
    assert(has_name(roots, name));
    let c = name_position(roots, name);
    if c < i {
        assert(roots[c].0 != roots[i].0);
    } else if i < c {
        assert(roots[i].0 != roots[c].0);
    }
}

/// Adding a root and then removing it by its name gives back the roots as
/// they were, when the add succeeded and the root is not the primary one.
pub proof fn law_add_then_remove_restores(
    roots: Seq<(Seq<char>, Seq<char>)>,
    primary: Seq<char>,
    name: Seq<char>,
    path: Seq<char>,
)
    requires
        roots_unique(roots),
        add_step(roots, name, path).1 is Ok,
        trim(name) != primary,
    ensures
        remove_step(add_step(roots, name, path).0, primary, trim(name)) == (roots, Ok::<(), Seq<char>>(())),
{
    let after = add_step(roots, name, path).0;
    assert(after == roots.push((trim(name), path)));
    assert(after[roots.len() as int].0 == trim(name));
    let c = name_position(after, trim(name));
    assert(has_name(after, trim(name)));
    if c < roots.len() {
        assert(after[c] == roots[c]);
        assert(has_name(roots, trim(name)));
    }
    assert(c == roots.len());
    assert(after.remove(c) =~= roots);
}

/// The primary root is never removed: asking to remove it leaves the roots
/// as they are and is refused.
pub proof fn law_primary_root_stays(roots: Seq<(Seq<char>, Seq<char>)>, primary: Seq<char>)
    ensures
        remove_step(roots, primary, primary).0 == roots,
        remove_step(roots, primary, primary).1 is Err,
{
}

/// Adding and removing roots keep names and paths unique.
pub proof fn law_steps_keep_roots_unique(
    roots: Seq<(Seq<char>, Seq<char>)>,
    primary: Seq<char>,
    name: Seq<char>,
    path: Seq<char>,
)
    requires
        roots_unique(roots),
    ensures
        roots_unique(add_step(roots, name, path).0),
        roots_unique(remove_step(roots, primary, name).0),
{
    let added = add_step(roots, name, path).0;
    if add_step(roots, name, path).1 is Ok {
        assert forall|i: int, j: int| 0 <= i < j < added.len() implies (#[trigger] added[i]).0 != (#[trigger] added[j]).0
            && added[i].1 != added[j].1 by {
            if j == roots.len() {
                assert(added[i] == roots[i]);
                if added[i].0 == trim(name) {
                    assert(has_name(roots, trim(name)));
                }
                if added[i].1 == path {
                    assert(has_path(roots, path));
                }
            } else {
                assert(added[i] == roots[i] && added[j] == roots[j]);
            }
        }
    }
    let removed = remove_step(roots, primary, name).0;
    if remove_step(roots, primary, name).1 is Ok {
        let p = name_position(roots, name);
        assert(removed == roots.remove(p));
        assert forall|a: int, b: int| 0 <= a < b < removed.len() implies (#[trigger] removed[a]).0 != (#[trigger] removed[b]).0
            && removed[a].1 != removed[b].1 by {
            let a0 = if a < p { a } else { a + 1 };
            let b0 = if b < p { b } else { b + 1 };
            assert(removed[a] == roots[a0] && removed[b] == roots[b0]);
        }
    }
}

/// A string's view, inside an `Option`.
pub open spec fn opt_view(s: Option<&str>) -> Option<Seq<char>> {
    match s {
        Some(x) => Some(x@),
        None => None,
    }
}

/// The root of this name, if any.
pub open spec fn named_root(roots: Seq<(Seq<char>, Seq<char>)>, name: Seq<char>) -> Option<(Seq<char>, Seq<char>)> {
    if has_name(roots, name) {
        Some(roots[name_position(roots, name)])
    } else {
        None
    }
}

/// The root a query addresses, by name, by file, or else the primary root.
pub open spec fn resolved_root(
    primary: Seq<char>,
    roots: Seq<(Seq<char>, Seq<char>)>,
    root_name: Option<Seq<char>>,
    file: Option<Seq<char>>,
) -> Option<(Seq<char>, Seq<char>)> {
    match root_name {
        Some(n) => match (named_root(roots, n), file) {
            (Some(r), Some(f)) => if path_starts_with(f, r.1) {
                Some(r)
            } else {
                None
            },
            (found, _) => found,
        },
        None => match file {
            Some(f) => root_for(roots, f),
            None => named_root(roots, primary),
        },
    }
}

/// The number of components of a path.
fn component_total(p: &str) -> (r: u128)
    ensures
        r == component_count(p@),
{
    let (start, normals) = path_parts(p);
    let lead: u128 = match start {
        PathStart::Plain => 0,
        _ => 1,
    };
    lead + normals.len() as u128
}

/// Whether `name` is one of `names`.
fn contains_string(names: &[String], name: &str) -> (r: bool)
    ensures
        r == string_views(names@).contains(name@),
{
    let mut k: usize = 0;
    while k < names.len()
        invariant
            k <= names@.len(),
            forall|i: int| 0 <= i < k ==> (#[trigger] names@[i])@ != name@,
        decreases names@.len() - k,
    {
        if str_eq(names[k].as_str(), name) {
            assert(string_views(names@)[k as int] == name@);
            return true;
        }
        k = k + 1;
    }
    proof {
        if string_views(names@).contains(name@) {
            let j = choose|j: int| 0 <= j < string_views(names@).len() && string_views(names@)[j] == name@;
            assert(names@[j]@ == name@);
        }
    }
    false
}

} // verus!
