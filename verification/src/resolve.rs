//! Resolution of a document path to an absolute path whose longest existing prefix is
//! canonical. The file system is consulted by the caller: this module says which prefix to
//! try next and what the path becomes once a prefix resolves, or once none does.

use vstd::prelude::*;
use crate::path::{
    comps_view, has_root, law_normalized_absolute_path, normalize_path, path_components, sep_after, spec_components,
    spec_normalize_path, Comp, PathComponent,
};
use crate::text::{push_str_chars, string_from_chars};

verus! {

/// Appending a piece to a path as the platform's path buffer does: an absolute piece
/// replaces the path; otherwise a separator goes between unless the path is empty or ends
/// with one.
pub open spec fn push_text(base: Seq<char>, piece: Seq<char>) -> Seq<char> {
    if has_root(piece) {
        piece
    } else {
        base + sep_after(base) + piece
    }
}

/// The text of one component.
pub open spec fn comp_text(c: Comp) -> Seq<char> {
    match c {
        Comp::Root => seq!['/'],
        Comp::Cur => seq!['.'],
        Comp::Parent => seq!['.', '.'],
        Comp::Normal(s) => s,
    }
}

/// Appends components to a path, left to right.
pub open spec fn push_comps(base: Seq<char>, comps: Seq<Comp>) -> Seq<char>
    decreases comps.len(),
{
    if comps.len() == 0 {
        base
    } else {
        push_text(push_comps(base, comps.drop_last()), comp_text(comps.last()))
    }
}

/// The absolute form of `path`: itself when absolute, else joined onto `cwd`.
pub open spec fn spec_absolute(path: Seq<char>, cwd: Seq<char>) -> Seq<char> {
    if has_root(path) {
        path
    } else {
        push_text(cwd, path)
    }
}

fn push_piece(buf: &mut Vec<char>, piece: &str)
    ensures
        final(buf)@ == push_text(old(buf)@, piece@),
{
    if piece.unicode_len() > 0 && piece.get_char(0) == '/' {
        buf.clear();
        push_str_chars(buf, piece);
        assert(final(buf)@ =~= piece@);
    } else {
        let n = buf.len();
        if n > 0 && buf[n - 1] != '/' {
            buf.push('/');
        }
        push_str_chars(buf, piece);
        assert(final(buf)@ =~= old(buf)@ + sep_after(old(buf)@) + piece@);
    }
}

fn push_component(buf: &mut Vec<char>, c: &PathComponent)
    ensures
        final(buf)@ == push_text(old(buf)@, comp_text(c@)),
{
    match c {
        PathComponent::RootDir => push_piece(buf, "/"),
        PathComponent::CurDir => push_piece(buf, "."),
        PathComponent::ParentDir => push_piece(buf, ".."),
        PathComponent::Normal(s) => push_piece(buf, s.as_str()),
    }
    proof {
        reveal_strlit("/");
        reveal_strlit(".");
        reveal_strlit("..");
    }
}

/// Appends the components `comps[from..to]` to `buf`.
fn push_range(buf: &mut Vec<char>, comps: &Vec<PathComponent>, from: usize, to: usize)
    requires
        from <= to <= comps@.len(),
    ensures
        final(buf)@ == push_comps(old(buf)@, comps_view(comps@).subrange(from as int, to as int)),
{
    let ghost cv = comps_view(comps@);
    let ghost start = buf@;
    let mut i: usize = from;
    assert(cv.subrange(from as int, from as int) =~= Seq::<Comp>::empty());
    while i < to
        invariant
            from <= i <= to <= comps@.len(),
            cv == comps_view(comps@),
            buf@ == push_comps(start, cv.subrange(from as int, i as int)),
        decreases to - i,
    {
        push_component(buf, &comps[i]);
        assert(cv.subrange(from as int, i + 1).drop_last() =~= cv.subrange(from as int, i as int));
        assert(cv[i as int] == comps@[i as int]@);
        i += 1;
    }
}

/// Joins a relative path onto the working directory; an absolute path is kept.
pub fn absolute_path(path: &str, cwd: &str) -> (r: String)
    ensures
        r@ == spec_absolute(path@, cwd@),
{
    if path.unicode_len() > 0 && path.get_char(0) == '/' {
        path.to_owned()
    } else {
        let mut buf: Vec<char> = Vec::new();
        push_str_chars(&mut buf, cwd);
        assert(buf@ =~= cwd@);
        push_piece(&mut buf, path);
        string_from_chars(&buf)
    }
}

proof fn lemma_push_comps_keeps_root(base: Seq<char>, comps: Seq<Comp>)
    requires
        has_root(base),
    ensures
        has_root(push_comps(base, comps)),
    decreases comps.len(),
{
    if comps.len() > 0 {
        lemma_push_comps_keeps_root(base, comps.drop_last());
        let prev = push_comps(base, comps.drop_last());
        let piece = comp_text(comps.last());
        if !has_root(piece) {
            assert((prev + sep_after(prev) + piece)[0] == prev[0]);
        }
    }
}

/// Paths resolved against an absolute canonical prefix are in normal form: resolving gives
/// an absolute path that normalizing again leaves unchanged, so one document reached through
/// different spellings is tracked under one path.
pub proof fn law_resolved_paths_are_normal(canonical: Seq<char>, rest: Seq<Comp>)
    requires
        has_root(canonical),
    ensures
        has_root(spec_normalize_path(push_comps(canonical, rest))),
        spec_normalize_path(spec_normalize_path(push_comps(canonical, rest))) == spec_normalize_path(
            push_comps(canonical, rest),
        ),
{
    lemma_push_comps_keeps_root(canonical, rest);
    law_normalized_absolute_path(push_comps(canonical, rest));
}

/// The search for the longest prefix of an absolute path that exists on disk: prefixes are
/// tried from the whole path down to the empty one.
pub struct PathResolution {
    absolute: String,
    comps: Vec<PathComponent>,
    split: usize,
    exhausted: bool,
}

impl PathResolution {
    /// The components agree with the absolute path, and at most one more prefix than there
    /// are components is left to try.
    pub closed spec fn wf(&self) -> bool {
        &&& comps_view(self.comps@) == spec_components(self.absolute@)
        &&& self.split <= self.comps@.len()
    }

    /// The absolute path being resolved.
    pub closed spec fn spec_path(&self) -> Seq<char> {
        self.absolute@
    }

    /// How many prefixes are left to try.
    pub closed spec fn spec_remaining(&self) -> nat {
        if self.exhausted { 0 } else { self.split as nat + 1 }
    }

    /// Starts resolving `path`, made absolute against the working directory `cwd`.
    pub fn new(path: &str, cwd: &str) -> (r: Self)
        ensures
            r.wf(),
            r.spec_path() == spec_absolute(path@, cwd@),
            r.spec_remaining() == spec_components(r.spec_path()).len() + 1,
    {
        let absolute = absolute_path(path, cwd);
        let comps = path_components(absolute.as_str());
        let split = comps.len();
        PathResolution { absolute, comps, split, exhausted: false }
    }

    /// The absolute path being resolved.
    pub fn path(&self) -> (r: &str)
        ensures
            r@ == self.spec_path(),
    {
        self.absolute.as_str()
    }

    /// The next prefix to canonicalize: the first `remaining - 1` components, or nothing when
    /// every prefix has been tried.
    pub fn next_probe(&self) -> (r: Option<String>)
        requires
            self.wf(),
        ensures
            self.spec_remaining() == 0 ==> r is None,
            self.spec_remaining() > 0 ==> (r matches Some(p) && p@ == push_comps(
                Seq::empty(),
                spec_components(self.spec_path()).take(self.spec_remaining() - 1),
            )),
    {
        if self.exhausted {
            None
        } else {
            let mut buf: Vec<char> = Vec::new();
            push_range(&mut buf, &self.comps, 0, self.split);
            assert(comps_view(self.comps@).subrange(0, self.split as int) =~= comps_view(self.comps@).take(
                self.split as int,
            ));
            Some(string_from_chars(&buf))
        }
    }

    /// Records that the probed prefix does not exist; the next shorter one is tried next.
    pub fn skip_probe(&mut self)
        requires
            old(self).wf(),
            old(self).spec_remaining() > 0,
        ensures
            final(self).wf(),
            final(self).spec_path() == old(self).spec_path(),
            final(self).spec_remaining() == old(self).spec_remaining() - 1,
    {
        if self.split == 0 {
            self.exhausted = true;
        } else {
            self.split = self.split - 1;
        }
    }

    /// The resolved path once the probed prefix canonicalized to `canonical`: the remaining
    /// components appended to it, then normalized.
    pub fn resolved(&self, canonical: &str) -> (r: String)
        requires
            self.wf(),
            self.spec_remaining() > 0,
        ensures
            r@ == spec_normalize_path(push_comps(
                canonical@,
                spec_components(self.spec_path()).skip(self.spec_remaining() - 1),
            )),
    {
        let mut buf: Vec<char> = Vec::new();
        push_str_chars(&mut buf, canonical);
        assert(buf@ =~= canonical@);
        let n = self.comps.len();
        push_range(&mut buf, &self.comps, self.split, n);
        assert(comps_view(self.comps@).subrange(self.split as int, n as int) =~= comps_view(self.comps@).skip(
            self.split as int,
        ));
        let joined = string_from_chars(&buf);
        normalize_path(joined.as_str())
    }

    /// The path when no prefix resolved: the absolute path, normalized.
    pub fn unresolved(&self) -> (r: String)
        ensures
            r@ == spec_normalize_path(self.spec_path()),
    {
        normalize_path(self.absolute.as_str())
    }
}

} // verus!
