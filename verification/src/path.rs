//! Path and file-URI logic on Unix-style paths held as strings.
//!
//! The component model follows the platform's path iterator: a leading `/` is the root,
//! repeated separators and interior `.` segments are dropped, a leading `.` segment of a
//! relative path is kept as the current directory, and `..` is the parent directory.

use vstd::prelude::*;
use vstd::utf8::*;
use crate::text::{push_str_chars, spec_utf8_lossy, string_from_chars, string_from_utf8_lossy};

verus! {

/// A path component in the mathematical model.
pub enum Comp {
    Root,
    Cur,
    Parent,
    Normal(Seq<char>),
}

/// A path component.
#[derive(Debug)]
pub enum PathComponent {
    /// The root directory `/`.
    RootDir,
    /// A leading `.` of a relative path.
    CurDir,
    /// A `..` segment.
    ParentDir,
    /// Any other non-empty segment.
    Normal(String),
}

impl View for PathComponent {
    type V = Comp;

    open spec fn view(&self) -> Comp {
        match self {
            PathComponent::RootDir => Comp::Root,
            PathComponent::CurDir => Comp::Cur,
            PathComponent::ParentDir => Comp::Parent,
            PathComponent::Normal(s) => Comp::Normal(s@),
        }
    }
}

/// The views of a sequence of components.
pub open spec fn comps_view(v: Seq<PathComponent>) -> Seq<Comp> {
    v.map_values(|c: PathComponent| c@)
}

/// The pieces of `s` between `/` separators, empty pieces included.
pub open spec fn split_slash(s: Seq<char>) -> Seq<Seq<char>>
    decreases s.len(),
{
    if s.len() == 0 {
        seq![Seq::<char>::empty()]
    } else {
        let prev = split_slash(s.drop_last());
        if s.last() == '/' {
            prev.push(Seq::<char>::empty())
        } else {
            prev.update(prev.len() - 1, prev.last().push(s.last()))
        }
    }
}

/// The component (if any) that one piece between separators contributes.
pub open spec fn classify_piece(p: Seq<char>) -> Seq<Comp> {
    if p.len() == 0 || p == seq!['.'] {
        Seq::empty()
    } else if p == seq!['.', '.'] {
        seq![Comp::Parent]
    } else {
        seq![Comp::Normal(p)]
    }
}

/// The components contributed by a sequence of pieces.
pub open spec fn comps_of_pieces(pieces: Seq<Seq<char>>) -> Seq<Comp>
    decreases pieces.len(),
{
    if pieces.len() == 0 {
        Seq::empty()
    } else {
        comps_of_pieces(pieces.drop_last()) + classify_piece(pieces.last())
    }
}

/// Whether the path starts at the root.
pub open spec fn has_root(s: Seq<char>) -> bool {
    s.len() > 0 && s[0] == '/'
}

/// The components of a path, in order.
pub open spec fn spec_components(s: Seq<char>) -> Seq<Comp> {
    let head = if has_root(s) {
        seq![Comp::Root]
    } else if split_slash(s)[0] == seq!['.'] {
        seq![Comp::Cur]
    } else {
        Seq::empty()
    };
    head + comps_of_pieces(split_slash(s))
}

pub proof fn lemma_split_len(s: Seq<char>)
    ensures
        split_slash(s).len() >= 1,
    decreases s.len(),
{
    if s.len() > 0 {
        lemma_split_len(s.drop_last());
    }
}

fn classify_push(out: &mut Vec<PathComponent>, path: &str, start: usize, end: usize)
    requires
        start <= end <= path@.len(),
    ensures
        comps_view(final(out)@) == comps_view(old(out)@) + classify_piece(
            path@.subrange(start as int, end as int),
        ),
{
    let ghost p = path@.subrange(start as int, end as int);
    let len = end - start;
    if len == 0 {
        assert(comps_view(out@) =~= comps_view(out@) + classify_piece(p));
        return;
    }
    let c0 = path.get_char(start);
    if len == 1 && c0 == '.' {
        assert(p =~= seq!['.']);
        assert(comps_view(out@) =~= comps_view(out@) + classify_piece(p));
        return;
    }
    if len == 2 && c0 == '.' {
        let c1 = path.get_char(start + 1);
        if c1 == '.' {
            assert(p =~= seq!['.', '.']);
            let ghost before = out@;
            out.push(PathComponent::ParentDir);
            assert(comps_view(out@) =~= comps_view(before) + classify_piece(p));
            return;
        }
    }
    assert(p.len() == 0 || p == seq!['.'] ==> p.len() != len || len == 1 && p[0] == '.');
    assert(p != seq!['.', '.']) by {
        if p == seq!['.', '.'] {
            assert(p.len() == 2 && p[0] == '.' && p[1] == '.');
        }
    }
    assert(!(p.len() == 0 || p == seq!['.'])) by {
        if p == seq!['.'] {
            assert(p.len() == 1 && p[0] == '.');
        }
    }
    let seg = path.substring_char(start, end);
    let ghost before = out@;
    out.push(PathComponent::Normal(seg.to_owned()));
    assert(comps_view(out@) =~= comps_view(before) + classify_piece(p));
}

/// Splits a path into its components.
pub fn path_components(path: &str) -> (r: Vec<PathComponent>)
    ensures
        comps_view(r@) == spec_components(path@),
{
    let n = path.unicode_len();
    let root = n > 0 && path.get_char(0) == '/';
    let cur = !root && n >= 1 && path.get_char(0) == '.' && (n == 1 || path.get_char(1) == '/');
    let mut out: Vec<PathComponent> = Vec::new();
    if root {
        out.push(PathComponent::RootDir);
    } else if cur {
        out.push(PathComponent::CurDir);
    }
    let ghost head = comps_view(out@);
    let mut seg_start: usize = 0;
    let ghost mut seen_slash = false;
    let ghost mut first_end: int = 0;
    let mut i: usize = 0;
    proof {
        assert(path@.take(0) =~= Seq::<char>::empty());
        assert(comps_view(out@) =~= head + comps_of_pieces(split_slash(path@.take(0)).drop_last()));
    }
    while i < n
        invariant
            n == path@.len(),
            i <= n,
            seg_start <= i,
            0 <= first_end <= i,
            split_slash(path@.take(i as int)).len() >= 1,
            split_slash(path@.take(i as int)).last() == path@.subrange(seg_start as int, i as int),
            comps_view(out@) == head + comps_of_pieces(split_slash(path@.take(i as int)).drop_last()),
            seen_slash ==> split_slash(path@.take(i as int)).len() >= 2,
            seen_slash ==> split_slash(path@.take(i as int))[0] == path@.subrange(0, first_end),
            seen_slash ==> path@[first_end] == '/',
            seen_slash ==> forall|k: int| 0 <= k < first_end ==> path@[k] != '/',
            !seen_slash ==> split_slash(path@.take(i as int)).len() == 1 && seg_start == 0,
            !seen_slash ==> forall|k: int| 0 <= k < i ==> path@[k] != '/',
        decreases n - i,
    {
        let c = path.get_char(i);
        let ghost prev = split_slash(path@.take(i as int));
        assert(path@.take(i + 1).drop_last() =~= path@.take(i as int));
        assert(path@.take(i + 1).last() == c);
        if c == '/' {
            let ghost before = out@;
            classify_push(&mut out, path, seg_start, i);
            assert(split_slash(path@.take(i + 1)) == prev.push(Seq::<char>::empty()));
            assert(split_slash(path@.take(i + 1)).drop_last() =~= prev);
            assert(comps_of_pieces(prev) == comps_of_pieces(prev.drop_last()) + classify_piece(prev.last()));
            assert(comps_view(out@) =~= head + comps_of_pieces(prev));
            proof {
                if !seen_slash {
                    first_end = i as int;
                    seen_slash = true;
                    assert(prev[0] == path@.subrange(0, i as int));
                }
            }
            seg_start = i + 1;
            assert(path@.subrange(seg_start as int, i + 1) =~= Seq::<char>::empty());
        } else {
            let ghost next = prev.update(prev.len() - 1, prev.last().push(c));
            assert(split_slash(path@.take(i + 1)) == next);
            assert(next.drop_last() =~= prev.drop_last());
            assert(path@.subrange(seg_start as int, i + 1) =~= path@.subrange(seg_start as int, i as int).push(c));
            proof {
                if !seen_slash {
                    assert(next.len() == 1);
                } else {
                    assert(next[0] == prev[0]);
                }
            }
        }
        i += 1;
    }
    assert(path@.take(n as int) =~= path@);
    let ghost pieces = split_slash(path@);
    let ghost before = out@;
    classify_push(&mut out, path, seg_start, n);
    assert(comps_of_pieces(pieces) == comps_of_pieces(pieces.drop_last()) + classify_piece(pieces.last()));
    assert(comps_view(out@) =~= head + comps_of_pieces(pieces));
    proof {
        let first = if seen_slash { first_end } else { n as int };
        assert(pieces[0] == path@.subrange(0, first));
        if !root {
            if pieces[0] == seq!['.'] {
                assert(pieces[0].len() == 1 && pieces[0][0] == '.');
                assert(first == 1);
                assert(path@[0] == '.');
                if n > 1 {
                    assert(seen_slash);
                    assert(path@[1] == '/');
                }
                assert(cur);
            }
            if cur {
                if n == 1 {
                    assert(!seen_slash);
                } else {
                    assert(path@[1] == '/');
                    if !seen_slash {
                        assert(path@[1] != '/');
                    }
                    if first_end > 1 {
                        assert(path@[1] != '/');
                    }
                    assert(first_end == 1);
                }
                assert(pieces[0] =~= seq!['.']);
            }
        }
        assert(head == (if has_root(path@) { seq![Comp::Root] } else if pieces[0] == seq!['.'] {
            seq![Comp::Cur] } else { Seq::<Comp>::empty() }));
    }
    out
}


/// State of a path being normalized: whether it starts at the root, and its segments.
pub open spec fn norm_step(st: (bool, Seq<Seq<char>>), c: Comp, absolute: bool) -> (bool, Seq<Seq<char>>) {
    match c {
        Comp::Root => (true, Seq::empty()),
        Comp::Cur => st,
        Comp::Parent => if st.1.len() > 0 {
            (st.0, st.1.drop_last())
        } else if !absolute {
            (st.0, st.1.push(seq!['.', '.']))
        } else {
            st
        },
        Comp::Normal(x) => (st.0, st.1.push(x)),
    }
}

/// Folds components into a normalized state, left to right.
pub open spec fn norm_fold(comps: Seq<Comp>, absolute: bool) -> (bool, Seq<Seq<char>>)
    decreases comps.len(),
{
    if comps.len() == 0 {
        (false, Seq::empty())
    } else {
        norm_step(norm_fold(comps.drop_last(), absolute), comps.last(), absolute)
    }
}

/// Segments joined with `/`.
pub open spec fn join_slash(segs: Seq<Seq<char>>) -> Seq<char>
    decreases segs.len(),
{
    if segs.len() == 0 {
        Seq::empty()
    } else if segs.len() == 1 {
        segs[0]
    } else {
        join_slash(segs.drop_last()) + seq!['/'] + segs.last()
    }
}

/// Text of a normalized state.
pub open spec fn render_state(st: (bool, Seq<Seq<char>>)) -> Seq<char> {
    (if st.0 { seq!['/'] } else { Seq::empty() }) + join_slash(st.1)
}

/// The lexically normalized form of a path: `.` dropped, `..` applied to the preceding
/// segment (kept at the front of a relative path, dropped at the root of an absolute one).
pub open spec fn spec_normalize_path(p: Seq<char>) -> Seq<char> {
    render_state(norm_fold(spec_components(p), has_root(p)))
}

/// The views of a vector of strings.
pub open spec fn strings_view(v: Seq<String>) -> Seq<Seq<char>> {
    v.map_values(|s: String| s@)
}

/// Lexically normalizes a path.
pub fn normalize_path(path: &str) -> (r: String)
    ensures
        r@ == spec_normalize_path(path@),
{
    let comps = path_components(path);
    let absolute = path.unicode_len() > 0 && path.get_char(0) == '/';
    let ghost cv = comps_view(comps@);
    let mut root = false;
    let mut segs: Vec<String> = Vec::new();
    let mut j: usize = 0;
    proof {
        assert(cv.take(0) =~= Seq::<Comp>::empty());
        assert(strings_view(segs@) =~= Seq::<Seq<char>>::empty());
    }
    while j < comps.len()
        invariant
            cv == comps_view(comps@),
            j <= comps.len(),
            absolute == has_root(path@),
            (root, strings_view(segs@)) == norm_fold(cv.take(j as int), absolute),
        decreases comps.len() - j,
    {
        assert(cv.take(j + 1).drop_last() =~= cv.take(j as int));
        assert(cv.take(j + 1).last() == comps@[j as int]@);
        match &comps[j] {
            PathComponent::RootDir => {
                root = true;
                segs = Vec::new();
                assert(strings_view(segs@) =~= Seq::<Seq<char>>::empty());
            },
            PathComponent::CurDir => {},
            PathComponent::ParentDir => {
                if segs.len() > 0 {
                    let ghost before = strings_view(segs@);
                    segs.pop();
                    assert(strings_view(segs@) =~= before.drop_last());
                } else if !absolute {
                    let ghost before = strings_view(segs@);
                    let mut dots: Vec<char> = Vec::new();
                    dots.push('.');
                    dots.push('.');
                    let d = string_from_chars(&dots);
                    segs.push(d);
                    assert(dots@ =~= seq!['.', '.']);
                    assert(strings_view(segs@) =~= before.push(seq!['.', '.']));
                }
            },
            PathComponent::Normal(name) => {
                let ghost before = strings_view(segs@);
                segs.push(name.clone());
                assert(strings_view(segs@) =~= before.push(name@));
            },
        }
        j += 1;
    }
    assert(cv.take(comps.len() as int) =~= cv);
    let ghost sv = strings_view(segs@);
    let mut out: Vec<char> = Vec::new();
    if root {
        out.push('/');
    }
    let ghost lead = out@;
    let mut k: usize = 0;
    proof {
        assert(sv.take(0) =~= Seq::<Seq<char>>::empty());
        assert(out@ =~= lead + join_slash(sv.take(0)));
    }
    while k < segs.len()
        invariant
            sv == strings_view(segs@),
            k <= segs.len(),
            lead == (if root { seq!['/'] } else { Seq::<char>::empty() }),
            out@ == lead + join_slash(sv.take(k as int)),
        decreases segs.len() - k,
    {
        let ghost before = out@;
        assert(sv.take(k + 1).drop_last() =~= sv.take(k as int));
        assert(sv.take(k + 1).last() == sv[k as int]);
        if k > 0 {
            out.push('/');
        }
        push_str_chars(&mut out, segs[k].as_str());
        if k == 0 {
            assert(sv.take(1) =~= seq![sv[0]]);
            assert(out@ =~= lead + join_slash(sv.take(k + 1)));
        } else {
            assert(out@ =~= lead + join_slash(sv.take(k + 1)));
        }
        k += 1;
    }
    assert(sv.take(segs.len() as int) =~= sv);
    string_from_chars(&out)
}

/// Whether a byte is left as is by percent-encoding.
pub open spec fn is_unreserved(b: u8) -> bool {
    (65 <= b <= 90) || (97 <= b <= 122) || (48 <= b <= 57) || b == 45 || b == 95 || b == 46 || b == 126
}

/// The upper-case hexadecimal digit (as an ASCII byte) for a value below sixteen.
pub open spec fn hex_upper(d: u8) -> u8 {
    if d < 10 { (48 + d) as u8 } else { (55 + d) as u8 }
}

/// Percent-encoding of one byte.
pub open spec fn pct_enc_byte(b: u8) -> Seq<u8> {
    if is_unreserved(b) {
        seq![b]
    } else {
        seq![37u8, hex_upper(b / 16), hex_upper(b % 16)]
    }
}

/// Percent-encoding of a byte sequence: unreserved bytes stay, all others become `%XX`.
pub open spec fn pct_enc(bs: Seq<u8>) -> Seq<u8>
    decreases bs.len(),
{
    if bs.len() == 0 {
        Seq::empty()
    } else {
        pct_enc_byte(bs[0]) + pct_enc(bs.drop_first())
    }
}

/// Characters of an ASCII byte sequence.
pub open spec fn ascii_chars(bs: Seq<u8>) -> Seq<char> {
    Seq::new(bs.len(), |i: int| bs[i] as char)
}

/// The percent-encoded form of a path segment's UTF-8 bytes.
pub open spec fn spec_percent_encode(segment: Seq<char>) -> Seq<char> {
    ascii_chars(pct_enc(encode_utf8(segment)))
}

pub proof fn lemma_pct_enc_append(a: Seq<u8>, b: Seq<u8>)
    ensures
        pct_enc(a + b) == pct_enc(a) + pct_enc(b),
    decreases a.len(),
{
    if a.len() == 0 {
        assert(a + b =~= b);
    } else {
        assert((a + b).drop_first() =~= a.drop_first() + b);
        lemma_pct_enc_append(a.drop_first(), b);
        assert(pct_enc(a + b) =~= pct_enc(a) + pct_enc(b));
    }
}

fn hex_upper_char(d: u8) -> (c: char)
    requires
        d < 16,
    ensures
        c == (hex_upper(d) as char),
{
    if d < 10 { (48 + d) as char } else { (55 + d) as char }
}

fn unreserved(b: u8) -> (r: bool)
    ensures
        r == is_unreserved(b),
{
    (65 <= b && b <= 90) || (97 <= b && b <= 122) || (48 <= b && b <= 57) || b == 45 || b == 95
        || b == 46 || b == 126
}

/// Appends the percent-encoded UTF-8 bytes of `segment`.
pub fn push_percent_encoded(out: &mut Vec<char>, segment: &str)
    ensures
        final(out)@ == old(out)@ + spec_percent_encode(segment@),
{
    let bytes = segment.as_bytes();
    let ghost start = out@;
    let ghost bv = bytes@;
    let mut i: usize = 0;
    proof {
        assert(bv.take(0) =~= Seq::<u8>::empty());
        assert(out@ =~= start + ascii_chars(pct_enc(bv.take(0))));
    }
    while i < bytes.len()
        invariant
            bv == bytes@,
            i <= bytes.len(),
            out@ == start + ascii_chars(pct_enc(bv.take(i as int))),
        decreases bytes.len() - i,
    {
        let b = bytes[i];
        let ghost before = out@;
        proof {
            assert(bv.take(i + 1) =~= bv.take(i as int) + seq![b]);
            lemma_pct_enc_append(bv.take(i as int), seq![b]);
            assert(pct_enc(seq![b]) =~= pct_enc_byte(b) + pct_enc(seq![b].drop_first()));
            assert(pct_enc(seq![b]) =~= pct_enc_byte(b));
        }
        if unreserved(b) {
            out.push(b as char);
            assert(out@ =~= start + ascii_chars(pct_enc(bv.take(i + 1))));
        } else {
            out.push('%');
            let hi = hex_upper_char(b / 16);
            let lo = hex_upper_char(b % 16);
            out.push(hi);
            out.push(lo);
            assert(out@ =~= start + ascii_chars(pct_enc(bv.take(i + 1))));
        }
        i += 1;
    }
    assert(bv.take(bytes.len() as int) =~= bv);
}

/// Percent-encodes the UTF-8 bytes of a path segment.
pub fn percent_encode(segment: &str) -> (r: String)
    ensures
        r@ == spec_percent_encode(segment@),
{
    let mut out: Vec<char> = Vec::new();
    push_percent_encoded(&mut out, segment);
    assert(out@ =~= spec_percent_encode(segment@));
    string_from_chars(&out)
}

/// The `file://` scheme prefix.
pub open spec fn file_scheme() -> Seq<char> {
    seq!['f', 'i', 'l', 'e', ':', '/', '/']
}

/// Whether text is empty or ends with `/`.
pub open spec fn open_end(t: Seq<char>) -> bool {
    t.len() == 0 || t.last() == '/'
}

/// The separator that goes before a segment appended to `t`.
pub open spec fn sep_after(t: Seq<char>) -> Seq<char> {
    if open_end(t) { Seq::empty() } else { seq!['/'] }
}

/// One component's contribution to a file URI's path part.
pub open spec fn uri_step(acc: Seq<char>, c: Comp) -> Seq<char> {
    match c {
        Comp::Root => acc.push('/'),
        Comp::Cur => acc,
        Comp::Parent => acc + sep_after(acc) + seq!['.', '.'],
        Comp::Normal(s) => acc + sep_after(acc) + spec_percent_encode(s),
    }
}

/// The path part of a file URI built from components, left to right.
pub open spec fn uri_tail(comps: Seq<Comp>) -> Seq<char>
    decreases comps.len(),
{
    if comps.len() == 0 {
        Seq::empty()
    } else {
        uri_step(uri_tail(comps.drop_last()), comps.last())
    }
}

/// The `file://` URI of a path.
pub open spec fn spec_file_uri(p: Seq<char>) -> Seq<char> {
    file_scheme() + uri_tail(spec_components(p))
}

/// Builds the `file://` URI of a path, percent-encoding each segment.
pub fn file_uri_from_path(path: &str) -> (r: String)
    ensures
        r@ == spec_file_uri(path@),
{
    let comps = path_components(path);
    let ghost cv = comps_view(comps@);
    let mut out: Vec<char> = Vec::new();
    out.push('f');
    out.push('i');
    out.push('l');
    out.push('e');
    out.push(':');
    out.push('/');
    out.push('/');
    let ghost scheme = out@;
    assert(scheme =~= file_scheme());
    let mut j: usize = 0;
    proof {
        assert(cv.take(0) =~= Seq::<Comp>::empty());
        assert(out@ =~= scheme + uri_tail(cv.take(0)));
    }
    while j < comps.len()
        invariant
            cv == comps_view(comps@),
            j <= comps.len(),
            scheme == file_scheme(),
            out@ == scheme + uri_tail(cv.take(j as int)),
        decreases comps.len() - j,
    {
        let ghost acc = uri_tail(cv.take(j as int));
        let ghost before = out@;
        assert(cv.take(j + 1).drop_last() =~= cv.take(j as int));
        assert(cv.take(j + 1).last() == comps@[j as int]@);
        let ends_open = out[out.len() - 1] == '/';
        assert(ends_open == open_end(acc)) by {
            if acc.len() > 0 {
                assert(out@.last() == acc.last());
            } else {
                assert(out@.last() == '/');
            }
        }
        match &comps[j] {
            PathComponent::RootDir => {
                out.push('/');
                assert(out@ =~= scheme + uri_tail(cv.take(j + 1)));
            },
            PathComponent::CurDir => {
                assert(out@ =~= scheme + uri_tail(cv.take(j + 1)));
            },
            PathComponent::ParentDir => {
                if !ends_open {
                    out.push('/');
                }
                out.push('.');
                out.push('.');
                assert(out@ =~= scheme + uri_tail(cv.take(j + 1)));
            },
            PathComponent::Normal(name) => {
                if !ends_open {
                    out.push('/');
                }
                let ghost mid = out@;
                push_percent_encoded(&mut out, name.as_str());
                assert(out@ =~= scheme + uri_tail(cv.take(j + 1)));
            },
        }
        j += 1;
    }
    assert(cv.take(comps.len() as int) =~= cv);
    string_from_chars(&out)
}

/// The name of a path's last component when it is a normal segment.
pub open spec fn spec_file_name(p: Seq<char>) -> Option<Seq<char>> {
    let comps = spec_components(p);
    if comps.len() > 0 && comps.last() is Normal {
        Some(comps.last()->Normal_0)
    } else {
        None
    }
}

/// The display name of a workspace folder: its last segment, or `workspace`.
pub open spec fn spec_workspace_folder_name(p: Seq<char>) -> Seq<char> {
    match spec_file_name(p) {
        Some(name) => name,
        None => seq!['w', 'o', 'r', 'k', 's', 'p', 'a', 'c', 'e'],
    }
}

/// Returns the folder name reported for a workspace root.
pub fn workspace_folder_name(path: &str) -> (r: String)
    ensures
        r@ == spec_workspace_folder_name(path@),
{
    let comps = path_components(path);
    let ghost cv = comps_view(comps@);
    let n = comps.len();
    if n > 0 {
        assert(cv.last() == comps@[n - 1]@);
        match &comps[n - 1] {
            PathComponent::Normal(name) => {
                return name.clone();
            },
            _ => {},
        }
    }
    let mut out: Vec<char> = Vec::new();
    push_str_chars(&mut out, "workspace");
    proof {
        reveal_strlit("workspace");
        assert(out@ =~= seq!['w', 'o', 'r', 'k', 's', 'p', 'a', 'c', 'e']);
    }
    string_from_chars(&out)
}

/// The value of a hexadecimal digit byte, either case.
pub open spec fn hex_value(b: u8) -> Option<u8> {
    if 48 <= b <= 57 {
        Some((b - 48) as u8)
    } else if 97 <= b <= 102 {
        Some((b - 97 + 10) as u8)
    } else if 65 <= b <= 70 {
        Some((b - 65 + 10) as u8)
    } else {
        None
    }
}

/// Returns the value of a hexadecimal digit byte.
pub fn from_hex_digit(byte: u8) -> (r: Option<u8>)
    ensures
        r == hex_value(byte),
{
    if 48 <= byte && byte <= 57 {
        Some(byte - 48)
    } else if 97 <= byte && byte <= 102 {
        Some(byte - 97 + 10)
    } else if 65 <= byte && byte <= 70 {
        Some(byte - 65 + 10)
    } else {
        None
    }
}

/// Whether a percent escape with two valid hexadecimal digits starts the sequence.
pub open spec fn escape_at_front(bs: Seq<u8>) -> bool {
    bs.len() > 2 && bs[0] == 37 && hex_value(bs[1]) is Some && hex_value(bs[2]) is Some
}

/// Percent-decoding: each `%XY` with two hex digits becomes one byte; any other byte,
/// including a `%` without two hex digits after it, stays.
pub open spec fn pct_dec(bs: Seq<u8>) -> Seq<u8>
    decreases bs.len(),
{
    if bs.len() == 0 {
        Seq::empty()
    } else if escape_at_front(bs) {
        seq![(hex_value(bs[1])->0 * 16 + hex_value(bs[2])->0) as u8] + pct_dec(bs.subrange(3, bs.len() as int))
    } else {
        seq![bs[0]] + pct_dec(bs.subrange(1, bs.len() as int))
    }
}

/// The bytes a percent-encoded path decodes to.
pub open spec fn decoded_path_bytes(path: Seq<char>) -> Seq<u8> {
    pct_dec(encode_utf8(path))
}

/// Percent-decodes a path, then reads the bytes as UTF-8 (invalid sequences replaced).
pub fn percent_decode_path(path: &str) -> (r: String)
    ensures
        r@ == spec_utf8_lossy(decoded_path_bytes(path@)),
        valid_utf8(decoded_path_bytes(path@)) ==> r@ == decode_utf8(decoded_path_bytes(path@)),
{
    let bytes = path.as_bytes();
    let ghost bv = bytes@;
    let n = bytes.len();
    let mut decoded: Vec<u8> = Vec::new();
    let mut index: usize = 0;
    proof {
        assert(bv.subrange(0, n as int) =~= bv);
    }
    while index < n
        invariant
            bv == bytes@,
            n == bv.len(),
            index <= n,
            decoded@ + pct_dec(bv.subrange(index as int, n as int)) == pct_dec(bv),
        decreases n - index,
    {
        let ghost rest = bv.subrange(index as int, n as int);
        if bytes[index] == 37 && n - index > 2 {
            let high = from_hex_digit(bytes[index + 1]);
            let low = from_hex_digit(bytes[index + 2]);
            match (high, low) {
                (Some(h), Some(l)) => {
                    assert(escape_at_front(rest));
                    assert(rest.subrange(3, rest.len() as int) =~= bv.subrange(index + 3, n as int));
                    let ghost before = decoded@;
                    decoded.push(h * 16 + l);
                    assert(decoded@ + pct_dec(bv.subrange(index + 3, n as int)) =~= before + pct_dec(rest));
                    index += 3;
                    continue;
                },
                _ => {},
            }
        }
        assert(!escape_at_front(rest));
        assert(rest.subrange(1, rest.len() as int) =~= bv.subrange(index + 1, n as int));
        let ghost before = decoded@;
        decoded.push(bytes[index]);
        assert(decoded@ + pct_dec(bv.subrange(index + 1, n as int)) =~= before + pct_dec(rest));
        index += 1;
    }
    assert(bv.subrange(n as int, n as int) =~= Seq::<u8>::empty());
    assert(decoded@ =~= pct_dec(bv));
    string_from_utf8_lossy(decoded.as_slice())
}

/// The decoded bytes of a `file://` URI's path part, when the URI has that scheme.
pub open spec fn file_uri_path_bytes(uri: Seq<char>) -> Option<Seq<u8>> {
    if uri.len() >= 7 && uri.take(7) == file_scheme() {
        Some(decoded_path_bytes(uri.skip(7)))
    } else {
        None
    }
}

/// Percent-decoding inverts percent-encoding: the encoded text of any string decodes to the
/// string's UTF-8 bytes, which read back as exactly that string.
pub proof fn law_percent_roundtrip(s: Seq<char>)
    ensures
        decoded_path_bytes(spec_percent_encode(s)) == encode_utf8(s),
        valid_utf8(decoded_path_bytes(spec_percent_encode(s))),
        decode_utf8(decoded_path_bytes(spec_percent_encode(s))) == s,
{
    let bs = encode_utf8(s);
    lemma_pct_enc_decodes(bs);
    lemma_ascii_bytes(pct_enc(bs));
    vstd::utf8::encode_utf8_valid_utf8(s);
    vstd::utf8::encode_utf8_decode_utf8(s);
}

/// The path that a URI names: a `file://` URI's percent-decoded rest, any other text as it is.
pub open spec fn spec_uri_to_path(uri: Seq<char>) -> Seq<char> {
    match file_uri_path_bytes(uri) {
        Some(b) => spec_utf8_lossy(b),
        None => uri,
    }
}

/// Converts a URI to a path: a `file://` URI is percent-decoded, any other text is kept.
pub fn uri_to_path(uri: &str) -> (r: String)
    ensures
        r@ == spec_uri_to_path(uri@),
        file_uri_path_bytes(uri@) is None ==> r@ == uri@,
        file_uri_path_bytes(uri@) matches Some(b) ==> r@ == spec_utf8_lossy(b),
        file_uri_path_bytes(uri@) matches Some(b) ==> (valid_utf8(b) ==> r@ == decode_utf8(b)),
{
    let n = uri.unicode_len();
    if n >= 7 && uri.get_char(0) == 'f' && uri.get_char(1) == 'i' && uri.get_char(2) == 'l'
        && uri.get_char(3) == 'e' && uri.get_char(4) == ':' && uri.get_char(5) == '/'
        && uri.get_char(6) == '/' {
        assert(uri@.take(7) =~= file_scheme());
        let rest = uri.substring_char(7, n);
        assert(rest@ =~= uri@.skip(7));
        percent_decode_path(rest)
    } else {
        proof {
            if uri@.len() >= 7 && uri@.take(7) == file_scheme() {
                assert(uri@.take(7)[0] == 'f');
                assert(uri@.take(7)[1] == 'i');
                assert(uri@.take(7)[2] == 'l');
                assert(uri@.take(7)[3] == 'e');
                assert(uri@.take(7)[4] == ':');
                assert(uri@.take(7)[5] == '/');
                assert(uri@.take(7)[6] == '/');
            }
        }
        uri.to_owned()
    }
}


/// Text of components, with the separator rule that file URIs use.
pub open spec fn text_step(acc: Seq<char>, c: Comp) -> Seq<char> {
    match c {
        Comp::Root => acc.push('/'),
        Comp::Cur => acc,
        Comp::Parent => acc + sep_after(acc) + seq!['.', '.'],
        Comp::Normal(s) => acc + sep_after(acc) + s,
    }
}

/// The text that a sequence of components spells, left to right.
pub open spec fn path_text(comps: Seq<Comp>) -> Seq<char>
    decreases comps.len(),
{
    if comps.len() == 0 {
        Seq::empty()
    } else {
        text_step(path_text(comps.drop_last()), comps.last())
    }
}

/// A component that can come out of a path: normal segments are non-empty and hold no `/`.
pub open spec fn comp_wf(c: Comp) -> bool {
    match c {
        Comp::Normal(s) => name_ok(s),
        _ => true,
    }
}

/// A segment name: non-empty, free of `/`, and neither `.` nor `..`.
pub open spec fn name_ok(s: Seq<char>) -> bool {
    &&& s.len() > 0
    &&& forall|i: int| 0 <= i < s.len() ==> s[i] != '/'
    &&& s != seq!['.']
    &&& s != seq!['.', '.']
}

/// Every component is well formed.
pub open spec fn comps_wf(comps: Seq<Comp>) -> bool {
    forall|i: int| 0 <= i < comps.len() ==> comp_wf(#[trigger] comps[i])
}

proof fn lemma_split_no_slash(s: Seq<char>)
    ensures
        forall|k: int, i: int|
            0 <= k < split_slash(s).len() && 0 <= i < split_slash(s)[k].len() ==> split_slash(s)[k][i]
                != '/',
    decreases s.len(),
{
    if s.len() > 0 {
        lemma_split_no_slash(s.drop_last());
        lemma_split_len(s.drop_last());
        let prev = split_slash(s.drop_last());
        if s.last() != '/' {
            let next = prev.update(prev.len() - 1, prev.last().push(s.last()));
            assert forall|k: int, i: int| 0 <= k < next.len() && 0 <= i < next[k].len() implies next[k][i]
                != '/' by {
                if k == prev.len() - 1 {
                    if i < prev.last().len() {
                        assert(next[k][i] == prev[k][i]);
                    }
                } else {
                    assert(next[k] == prev[k]);
                }
            }
        } else {
            let next = prev.push(Seq::<char>::empty());
            assert forall|k: int, i: int| 0 <= k < next.len() && 0 <= i < next[k].len() implies next[k][i]
                != '/' by {
                if k < prev.len() {
                    assert(next[k] == prev[k]);
                }
            }
        }
    }
}

proof fn lemma_comps_of_pieces_wf(pieces: Seq<Seq<char>>)
    requires
        forall|k: int, i: int| 0 <= k < pieces.len() && 0 <= i < pieces[k].len() ==> pieces[k][i] != '/',
    ensures
        comps_wf(comps_of_pieces(pieces)),
    decreases pieces.len(),
{
    if pieces.len() > 0 {
        let prev = pieces.drop_last();
        assert forall|k: int, i: int| 0 <= k < prev.len() && 0 <= i < prev[k].len() implies prev[k][i]
            != '/' by {
            assert(prev[k] == pieces[k]);
        }
        lemma_comps_of_pieces_wf(prev);
        let a = comps_of_pieces(prev);
        let b = classify_piece(pieces.last());
        assert(comps_wf(b)) by {
            let p = pieces.last();
            assert forall|i: int| 0 <= i < p.len() implies p[i] != '/' by {
                assert(p == pieces[pieces.len() - 1]);
            }
        }
        assert forall|i: int| 0 <= i < (a + b).len() implies comp_wf(#[trigger] (a + b)[i]) by {
            if i < a.len() {
                assert((a + b)[i] == a[i]);
            } else {
                assert((a + b)[i] == b[i - a.len()]);
            }
        }
    }
}

/// The components of any path are well formed.
pub proof fn lemma_components_wf(p: Seq<char>)
    ensures
        comps_wf(spec_components(p)),
{
    lemma_split_no_slash(p);
    lemma_comps_of_pieces_wf(split_slash(p));
    let head = if has_root(p) {
        seq![Comp::Root]
    } else if split_slash(p)[0] == seq!['.'] {
        seq![Comp::Cur]
    } else {
        Seq::<Comp>::empty()
    };
    let rest = comps_of_pieces(split_slash(p));
    assert forall|i: int| 0 <= i < (head + rest).len() implies comp_wf(#[trigger] (head + rest)[i]) by {
        if i >= head.len() {
            assert((head + rest)[i] == rest[i - head.len()]);
        }
    }
}

/// Whether a byte sequence splits into whole escapes and plain (non-`%`) bytes.
pub open spec fn tokens_ok(bs: Seq<u8>) -> bool
    decreases bs.len(),
{
    if bs.len() == 0 {
        true
    } else if escape_at_front(bs) {
        tokens_ok(bs.subrange(3, bs.len() as int))
    } else {
        bs[0] != 37 && tokens_ok(bs.subrange(1, bs.len() as int))
    }
}

proof fn lemma_tokens_dec_append(a: Seq<u8>, b: Seq<u8>)
    requires
        tokens_ok(a),
    ensures
        pct_dec(a + b) == pct_dec(a) + pct_dec(b),
        tokens_ok(b) ==> tokens_ok(a + b),
    decreases a.len(),
{
    if a.len() == 0 {
        assert(a + b =~= b);
    } else if escape_at_front(a) {
        let ra = a.subrange(3, a.len() as int);
        assert(escape_at_front(a + b));
        assert((a + b).subrange(3, (a + b).len() as int) =~= ra + b);
        lemma_tokens_dec_append(ra, b);
        assert(pct_dec(a + b) =~= pct_dec(a) + pct_dec(b));
    } else {
        let ra = a.subrange(1, a.len() as int);
        assert(!escape_at_front(a + b));
        assert((a + b).subrange(1, (a + b).len() as int) =~= ra + b);
        lemma_tokens_dec_append(ra, b);
        assert(pct_dec(a + b) =~= pct_dec(a) + pct_dec(b));
    }
}

proof fn lemma_hex_roundtrip(d: u8)
    requires
        d < 16,
    ensures
        hex_value(hex_upper(d)) == Some(d),
        hex_upper(d) != 37 && hex_upper(d) != 47 && hex_upper(d) < 128,
{
}

proof fn lemma_pct_enc_decodes(bs: Seq<u8>)
    ensures
        tokens_ok(pct_enc(bs)),
        pct_dec(pct_enc(bs)) == bs,
        forall|i: int| 0 <= i < pct_enc(bs).len() ==> pct_enc(bs)[i] != 47 && pct_enc(bs)[i] < 128,
        bs.len() > 0 ==> pct_enc(bs).len() > 0,
    decreases bs.len(),
{
    if bs.len() > 0 {
        let x = bs[0];
        let rest = bs.drop_first();
        lemma_pct_enc_decodes(rest);
        let e = pct_enc_byte(x);
        assert(pct_enc(bs) == e + pct_enc(rest));
        if is_unreserved(x) {
            assert(!escape_at_front(e));
            assert(tokens_ok(e)) by {
                assert(e.subrange(1, 1) =~= Seq::<u8>::empty());
                assert(tokens_ok(e.subrange(1, 1)));
            }
            lemma_tokens_dec_append(e, pct_enc(rest));
            assert(pct_dec(e) =~= seq![x]) by {
                assert(e.subrange(1, 1) =~= Seq::<u8>::empty());
                assert(pct_dec(e.subrange(1, 1)) =~= Seq::<u8>::empty());
                assert(e[0] == x);
            }
        } else {
            lemma_hex_roundtrip(x / 16);
            lemma_hex_roundtrip(x % 16);
            assert(escape_at_front(e));
            assert(tokens_ok(e)) by {
                assert(e.subrange(3, 3) =~= Seq::<u8>::empty());
                assert(tokens_ok(e.subrange(3, 3)));
            }
            lemma_tokens_dec_append(e, pct_enc(rest));
            assert(pct_dec(e) =~= seq![x]) by {
                assert(e.subrange(3, 3) =~= Seq::<u8>::empty());
                assert(pct_dec(e.subrange(3, 3)) =~= Seq::<u8>::empty());
                assert(hex_value(e[1])->0 == x / 16);
                assert(hex_value(e[2])->0 == x % 16);
                assert((x / 16) * 16 + x % 16 == x);
            }
        }
        assert(bs =~= seq![x] + rest);
        let all = pct_enc(bs);
        assert forall|i: int| 0 <= i < all.len() implies all[i] != 47 && all[i] < 128 by {
            if i >= e.len() {
                assert(all[i] == pct_enc(rest)[i - e.len()]);
            }
        }
    }
}

proof fn lemma_encode_utf8_append(a: Seq<char>, b: Seq<char>)
    ensures
        encode_utf8(a + b) == encode_utf8(a) + encode_utf8(b),
    decreases a.len(),
{
    if a.len() == 0 {
        assert(a + b =~= b);
    } else {
        assert((a + b).drop_first() =~= a.drop_first() + b);
        assert((a + b)[0] == a[0]);
        lemma_encode_utf8_append(a.drop_first(), b);
        assert(encode_utf8(a + b) =~= encode_utf8(a) + encode_utf8(b));
    }
}

proof fn lemma_ascii_bytes(bs: Seq<u8>)
    requires
        forall|i: int| 0 <= i < bs.len() ==> bs[i] < 128,
    ensures
        is_ascii_chars(ascii_chars(bs)),
        encode_utf8(ascii_chars(bs)) == bs,
{
    let cs = ascii_chars(bs);
    assert forall|i: int| 0 <= i < cs.len() implies '\0' <= #[trigger] cs[i] <= '\u{7f}' by {
        assert(cs[i] == bs[i] as char);
    }
    is_ascii_chars_encode_utf8(cs);
    assert forall|i: int| 0 <= i < bs.len() implies encode_utf8(cs)[i] == bs[i] by {
        assert(cs[i] as u8 == encode_utf8(cs)[i]);
        assert(cs[i] == bs[i] as char);
    }
    assert(encode_utf8(cs) =~= bs);
}

proof fn lemma_small_text_bytes()
    ensures
        encode_utf8(seq!['/']) == seq![47u8],
        encode_utf8(seq!['.', '.']) == seq![46u8, 46u8],
        encode_utf8(Seq::<char>::empty()) == Seq::<u8>::empty(),
{
    lemma_ascii_bytes(seq![47u8]);
    lemma_ascii_bytes(seq![46u8, 46u8]);
    assert(ascii_chars(seq![47u8]) =~= seq!['/']);
    assert(ascii_chars(seq![46u8, 46u8]) =~= seq!['.', '.']);
}

proof fn lemma_plain_tokens(bs: Seq<u8>)
    requires
        forall|i: int| 0 <= i < bs.len() ==> bs[i] != 37,
    ensures
        tokens_ok(bs),
        pct_dec(bs) == bs,
    decreases bs.len(),
{
    if bs.len() > 0 {
        let rest = bs.subrange(1, bs.len() as int);
        lemma_plain_tokens(rest);
        assert(bs =~= seq![bs[0]] + rest);
    }
}

proof fn lemma_uri_tail_decodes(comps: Seq<Comp>)
    requires
        comps_wf(comps),
    ensures
        is_ascii_chars(uri_tail(comps)),
        tokens_ok(encode_utf8(uri_tail(comps))),
        pct_dec(encode_utf8(uri_tail(comps))) == encode_utf8(path_text(comps)),
        open_end(uri_tail(comps)) == open_end(path_text(comps)),
    decreases comps.len(),
{
    if comps.len() > 0 {
        let prev = comps.drop_last();
        assert(comps_wf(prev)) by {
            assert forall|i: int| 0 <= i < prev.len() implies comp_wf(#[trigger] prev[i]) by {
                assert(prev[i] == comps[i]);
            }
        }
        lemma_uri_tail_decodes(prev);
        let c = comps.last();
        assert(comp_wf(c)) by {
            assert(c == comps[comps.len() - 1]);
        }
        let ut = uri_tail(prev);
        let pt = path_text(prev);
        let sep = sep_after(ut);
        assert(sep == sep_after(pt));
        lemma_small_text_bytes();
        let sep_bytes = encode_utf8(sep);
        lemma_plain_tokens(sep_bytes);
        lemma_plain_tokens(seq![46u8, 46u8]);
        lemma_plain_tokens(seq![47u8]);
        lemma_ascii_bytes(seq![46u8, 46u8]);
        lemma_ascii_bytes(seq![47u8]);
        assert(ascii_chars(seq![47u8]) =~= seq!['/']);
        assert(ascii_chars(seq![46u8, 46u8]) =~= seq!['.', '.']);
        broadcast use vstd::utf8::is_ascii_chars_concat;
        match c {
            Comp::Root => {
                assert(uri_tail(comps) == ut + seq!['/']);
                assert(path_text(comps) == pt + seq!['/']);
                lemma_encode_utf8_append(ut, seq!['/']);
                lemma_encode_utf8_append(pt, seq!['/']);
                lemma_tokens_dec_append(encode_utf8(ut), seq![47u8]);
                assert(is_ascii_chars(ut + seq!['/']));
            },
            Comp::Cur => {
            },
            Comp::Parent => {
                let dots = seq!['.', '.'];
                assert(uri_tail(comps) == (ut + sep) + dots);
                assert(path_text(comps) == (pt + sep) + dots);
                lemma_encode_utf8_append(ut, sep);
                lemma_encode_utf8_append(ut + sep, dots);
                lemma_encode_utf8_append(pt, sep);
                lemma_encode_utf8_append(pt + sep, dots);
                lemma_tokens_dec_append(encode_utf8(ut), sep_bytes);
                lemma_tokens_dec_append(encode_utf8(ut) + sep_bytes, seq![46u8, 46u8]);
                assert(is_ascii_chars(ut + sep)) by {
                    if sep.len() == 0 { assert(ut + sep =~= ut); }
                }
                assert(is_ascii_chars((ut + sep) + dots));
            },
            Comp::Normal(name) => {
                let eb = pct_enc(encode_utf8(name));
                lemma_pct_enc_decodes(encode_utf8(name));
                lemma_ascii_bytes(eb);
                let ec = ascii_chars(eb);
                assert(uri_tail(comps) == (ut + sep) + ec);
                assert(path_text(comps) == (pt + sep) + name);
                lemma_encode_utf8_append(ut, sep);
                lemma_encode_utf8_append(ut + sep, ec);
                lemma_encode_utf8_append(pt, sep);
                lemma_encode_utf8_append(pt + sep, name);
                lemma_tokens_dec_append(encode_utf8(ut), sep_bytes);
                lemma_tokens_dec_append(encode_utf8(ut) + sep_bytes, eb);
                assert(is_ascii_chars(ut + sep)) by {
                    if sep.len() == 0 { assert(ut + sep =~= ut); }
                }
                assert(is_ascii_chars((ut + sep) + ec));
                assert(encode_utf8(name).len() > 0) by {
                    reveal_with_fuel(encode_utf8, 1);
                    vstd::utf8::encode_utf8_first_scalar(name);
                }
                assert(ec.last() != '/') by {
                    assert(eb[eb.len() - 1] != 47);
                    assert(ec.last() == eb[eb.len() - 1] as char);
                }
                assert(name.last() != '/');
                assert(uri_tail(comps).last() == ec.last());
                assert(path_text(comps).last() == name.last());
            },
        }
    }
}

/// An absolute path whose components after the root are all plain segment names.
pub open spec fn plain_absolute(p: Seq<char>) -> bool {
    &&& has_root(p)
    &&& forall|i: int| 1 <= i < spec_components(p).len() ==> #[trigger] spec_components(p)[i] is Normal
}

proof fn lemma_plain_absolute_text(p: Seq<char>)
    requires
        plain_absolute(p),
    ensures
        spec_components(path_text(spec_components(p))) == spec_components(p),
{
    let comps = spec_components(p);
    lemma_components_wf(p);
    assert(comps.len() >= 1 && comps[0] == Comp::Root);
    let segs = comps.drop_first().map_values(|c: Comp| c->Normal_0);
    assert forall|k: int| 0 <= k < segs.len() implies name_ok(#[trigger] segs[k]) by {
        assert(comps[k + 1] is Normal);
        assert(comp_wf(comps[k + 1]));
    }
    assert forall|i: int| 0 <= i < comps.len() implies comps[i] == (seq![Comp::Root] + normals(segs))[i] by {
        if i >= 1 {
            assert(comps[i] is Normal);
            assert(segs[i - 1] == comps[i]->Normal_0);
        }
    }
    assert(comps =~= seq![Comp::Root] + normals(segs));
    lemma_text_of_rendered(segs);
    lemma_components_of_rendered(segs);
}

/// A path's `file://` URI is a file URI whose decoded path bytes are the UTF-8 text that
/// the path's components spell; reading it back as a path therefore yields that text.
pub proof fn law_file_uri_roundtrip(p: Seq<char>)
    ensures
        file_uri_path_bytes(spec_file_uri(p)) == Some(encode_utf8(path_text(spec_components(p)))),
        valid_utf8(encode_utf8(path_text(spec_components(p)))),
        decode_utf8(encode_utf8(path_text(spec_components(p)))) == path_text(spec_components(p)),
        plain_absolute(p) ==> spec_components(path_text(spec_components(p))) == spec_components(p),
{
    let comps = spec_components(p);
    lemma_components_wf(p);
    if plain_absolute(p) {
        lemma_plain_absolute_text(p);
    }
    lemma_uri_tail_decodes(comps);
    let uri = spec_file_uri(p);
    assert(uri.take(7) =~= file_scheme());
    assert(uri.skip(7) =~= uri_tail(comps));
    vstd::utf8::encode_utf8_valid_utf8(path_text(comps));
    vstd::utf8::encode_utf8_decode_utf8(path_text(comps));
}


proof fn lemma_split_append_plain(x: Seq<char>, t: Seq<char>)
    requires
        forall|i: int| 0 <= i < t.len() ==> t[i] != '/',
    ensures
        split_slash(x + t) == split_slash(x).update(
            split_slash(x).len() - 1,
            split_slash(x).last() + t,
        ),
    decreases t.len(),
{
    lemma_split_len(x);
    if t.len() == 0 {
        assert(x + t =~= x);
        assert(split_slash(x).last() + t =~= split_slash(x).last());
        assert(split_slash(x).update(split_slash(x).len() - 1, split_slash(x).last())
            =~= split_slash(x));
    } else {
        let t0 = t.drop_last();
        lemma_split_append_plain(x, t0);
        assert((x + t).drop_last() =~= x + t0);
        assert((x + t).last() == t.last());
        let prev = split_slash(x + t0);
        lemma_split_len(x + t0);
        assert(split_slash(x + t) == prev.update(prev.len() - 1, prev.last().push(t.last())));
        assert(prev.last() =~= split_slash(x).last() + t0);
        assert(split_slash(x).last() + t0 + seq![t.last()] =~= split_slash(x).last() + t);
        let sx = split_slash(x);
        assert(prev.len() == sx.len());
        assert(prev.last().push(t.last()) =~= sx.last() + t);
        assert(prev.update(prev.len() - 1, sx.last() + t) =~= sx.update(sx.len() - 1, sx.last() + t));
        assert(split_slash(x + t) =~= split_slash(x).update(
            split_slash(x).len() - 1,
            split_slash(x).last() + t,
        ));
    }
}

proof fn lemma_split_join(x: Seq<char>, segs: Seq<Seq<char>>)
    requires
        segs.len() > 0,
        forall|k: int| 0 <= k < segs.len() ==> name_ok(#[trigger] segs[k]),
    ensures
        split_slash(x + seq!['/'] + join_slash(segs)) == split_slash(x) + segs,
    decreases segs.len(),
{
    lemma_split_len(x);
    let last = segs.last();
    assert(name_ok(last));
    if segs.len() == 1 {
        let y = x + seq!['/'];
        assert(y.drop_last() =~= x);
        assert(split_slash(y) == split_slash(x).push(Seq::<char>::empty()));
        lemma_split_append_plain(y, segs[0]);
        assert(x + seq!['/'] + join_slash(segs) =~= y + segs[0]);
        assert(Seq::<char>::empty() + segs[0] =~= segs[0]);
        assert(split_slash(x) + segs =~= split_slash(x).push(Seq::<char>::empty()).update(
            split_slash(x).len() as int,
            Seq::<char>::empty() + segs[0],
        ));
    } else {
        let prev = segs.drop_last();
        assert forall|k: int| 0 <= k < prev.len() implies name_ok(#[trigger] prev[k]) by {
            assert(prev[k] == segs[k]);
        }
        lemma_split_join(x, prev);
        let y = x + seq!['/'] + join_slash(prev);
        let z = y + seq!['/'];
        assert(z.drop_last() =~= y);
        assert(split_slash(z) == split_slash(y).push(Seq::<char>::empty()));
        lemma_split_append_plain(z, last);
        assert(x + seq!['/'] + join_slash(segs) =~= z + last);
        assert(Seq::<char>::empty() + last =~= last);
        assert(split_slash(x) + segs =~= (split_slash(x) + prev).push(last));
        assert(split_slash(z + last) =~= split_slash(x) + segs);
    }
}

proof fn lemma_comps_of_pieces_append(a: Seq<Seq<char>>, b: Seq<Seq<char>>)
    ensures
        comps_of_pieces(a + b) == comps_of_pieces(a) + comps_of_pieces(b),
    decreases b.len(),
{
    if b.len() == 0 {
        assert(a + b =~= a);
        assert(comps_of_pieces(a) + comps_of_pieces(b) =~= comps_of_pieces(a));
    } else {
        lemma_comps_of_pieces_append(a, b.drop_last());
        assert((a + b).drop_last() =~= a + b.drop_last());
        assert((a + b).last() == b.last());
        assert(comps_of_pieces(a + b) =~= comps_of_pieces(a) + comps_of_pieces(b));
    }
}

/// The components that a sequence of segment names spells.
pub open spec fn normals(segs: Seq<Seq<char>>) -> Seq<Comp> {
    segs.map_values(|s: Seq<char>| Comp::Normal(s))
}

proof fn lemma_comps_of_names(segs: Seq<Seq<char>>)
    requires
        forall|k: int| 0 <= k < segs.len() ==> name_ok(#[trigger] segs[k]),
    ensures
        comps_of_pieces(segs) == normals(segs),
    decreases segs.len(),
{
    if segs.len() > 0 {
        let prev = segs.drop_last();
        assert forall|k: int| 0 <= k < prev.len() implies name_ok(#[trigger] prev[k]) by {
            assert(prev[k] == segs[k]);
        }
        lemma_comps_of_names(prev);
        let last = segs.last();
        assert(name_ok(last));
        assert(last.len() != 0);
        assert(classify_piece(last) == seq![Comp::Normal(last)]);
        assert(normals(segs) =~= normals(prev) + seq![Comp::Normal(last)]);
    }
}

/// An absolute path rendered from segment names has the root and those names as components.
proof fn lemma_components_of_rendered(segs: Seq<Seq<char>>)
    requires
        forall|k: int| 0 <= k < segs.len() ==> name_ok(#[trigger] segs[k]),
    ensures
        spec_components(render_state((true, segs))) == seq![Comp::Root] + normals(segs),
{
    let t = render_state((true, segs));
    assert(has_root(t));
    if segs.len() == 0 {
        assert(t =~= seq!['/']);
        assert(t.drop_last() =~= Seq::<char>::empty());
        assert(t.last() == '/');
        assert(split_slash(Seq::<char>::empty()) =~= seq![Seq::<char>::empty()]);
        assert(split_slash(t) == split_slash(t.drop_last()).push(Seq::<char>::empty()));
        assert(split_slash(t) =~= seq![Seq::<char>::empty(), Seq::<char>::empty()]);
        assert(split_slash(t).drop_last() =~= seq![Seq::<char>::empty()]);
        assert(seq![Seq::<char>::empty()].drop_last() =~= Seq::<Seq<char>>::empty());
        assert(classify_piece(Seq::<char>::empty()) =~= Seq::<Comp>::empty());
        assert(comps_of_pieces(Seq::<Seq<char>>::empty()) =~= Seq::<Comp>::empty());
        assert(comps_of_pieces(seq![Seq::<char>::empty()]) =~= Seq::<Comp>::empty());
        assert(comps_of_pieces(split_slash(t)) =~= Seq::<Comp>::empty());
        assert(normals(segs) =~= Seq::<Comp>::empty());
        assert(spec_components(t) =~= seq![Comp::Root] + normals(segs));
    } else {
        lemma_split_join(Seq::<char>::empty(), segs);
        assert(Seq::<char>::empty() + seq!['/'] + join_slash(segs) =~= t);
        assert(split_slash(Seq::<char>::empty()) =~= seq![Seq::<char>::empty()]);
        lemma_comps_of_pieces_append(seq![Seq::<char>::empty()], segs);
        assert(seq![Seq::<char>::empty()].drop_last() =~= Seq::<Seq<char>>::empty());
        assert(classify_piece(Seq::<char>::empty()) =~= Seq::<Comp>::empty());
        assert(comps_of_pieces(Seq::<Seq<char>>::empty()) =~= Seq::<Comp>::empty());
        assert(comps_of_pieces(seq![Seq::<char>::empty()]) =~= Seq::<Comp>::empty());
        lemma_comps_of_names(segs);
        assert(comps_of_pieces(split_slash(t)) =~= normals(segs));
    }
}

proof fn lemma_text_of_rendered(segs: Seq<Seq<char>>)
    requires
        forall|k: int| 0 <= k < segs.len() ==> name_ok(#[trigger] segs[k]),
    ensures
        path_text(seq![Comp::Root] + normals(segs)) == render_state((true, segs)),
    decreases segs.len(),
{
    if segs.len() == 0 {
        assert(seq![Comp::Root] + normals(segs) =~= seq![Comp::Root]);
        assert(seq![Comp::Root].drop_last() =~= Seq::<Comp>::empty());
        assert(render_state((true, segs)) =~= seq!['/']);
        assert(path_text(Seq::<Comp>::empty()) =~= Seq::<char>::empty());
        assert(seq![Comp::Root].last() == Comp::Root);
        assert(path_text(seq![Comp::Root]) =~= seq!['/']);
    } else {
        let prev = segs.drop_last();
        assert forall|k: int| 0 <= k < prev.len() implies name_ok(#[trigger] prev[k]) by {
            assert(prev[k] == segs[k]);
        }
        lemma_text_of_rendered(prev);
        let cs = seq![Comp::Root] + normals(segs);
        assert(cs.drop_last() =~= seq![Comp::Root] + normals(prev));
        assert(cs.last() == Comp::Normal(segs.last()));
        let pt = render_state((true, prev));
        assert(name_ok(segs.last()));
        if prev.len() == 0 {
            assert(pt =~= seq!['/']);
            assert(segs =~= seq![segs[0]]);
            assert(render_state((true, segs)) =~= pt + segs.last());
        } else {
            assert(name_ok(prev.last()));
            assert(pt.last() == prev.last().last());
            assert(render_state((true, segs)) =~= pt + seq!['/'] + segs.last());
        }
    }
}

proof fn lemma_norm_fold_names(segs: Seq<Seq<char>>)
    ensures
        norm_fold(seq![Comp::Root] + normals(segs), true) == (true, segs),
    decreases segs.len(),
{
    let cs = seq![Comp::Root] + normals(segs);
    if segs.len() == 0 {
        assert(cs =~= seq![Comp::Root]);
        assert(cs.drop_last() =~= Seq::<Comp>::empty());
        assert(segs =~= Seq::<Seq<char>>::empty());
    } else {
        lemma_norm_fold_names(segs.drop_last());
        assert(cs.drop_last() =~= seq![Comp::Root] + normals(segs.drop_last()));
        assert(cs.last() == Comp::Normal(segs.last()));
        assert(segs.drop_last().push(segs.last()) =~= segs);
    }
}

proof fn lemma_norm_fold_absolute(comps: Seq<Comp>)
    requires
        comps.len() > 0,
        comps[0] == Comp::Root,
        comps_wf(comps),
    ensures
        norm_fold(comps, true).0,
        forall|k: int| 0 <= k < norm_fold(comps, true).1.len() ==> name_ok(
            #[trigger] norm_fold(comps, true).1[k],
        ),
    decreases comps.len(),
{
    if comps.len() == 1 {
        assert(comps.drop_last() =~= Seq::<Comp>::empty());
    } else {
        let prev = comps.drop_last();
        assert(comps_wf(prev)) by {
            assert forall|i: int| 0 <= i < prev.len() implies comp_wf(#[trigger] prev[i]) by {
                assert(prev[i] == comps[i]);
            }
        }
        lemma_norm_fold_absolute(prev);
        let st = norm_fold(prev, true);
        let c = comps.last();
        assert(comp_wf(c)) by {
            assert(c == comps[comps.len() - 1]);
        }
        let next = norm_step(st, c, true);
        assert(next == norm_fold(comps, true));
        assert forall|k: int| 0 <= k < next.1.len() implies name_ok(#[trigger] next.1[k]) by {
            match c {
                Comp::Root => {},
                Comp::Cur => {},
                Comp::Parent => {
                    if st.1.len() > 0 {
                        assert(next.1[k] == st.1[k]);
                    }
                },
                Comp::Normal(x) => {
                    if k < st.1.len() {
                        assert(next.1[k] == st.1[k]);
                    }
                },
            }
        }
        assert(c == Comp::Root ==> next.1.len() == 0);
    }
}

/// The normal form of an absolute path is a fixed point of normalization, and its text is
/// exactly what its components spell (so its `file://` URI reads back to it unchanged).
pub proof fn law_normalized_absolute_path(p: Seq<char>)
    requires
        has_root(p),
    ensures
        has_root(spec_normalize_path(p)),
        spec_normalize_path(spec_normalize_path(p)) == spec_normalize_path(p),
        path_text(spec_components(spec_normalize_path(p))) == spec_normalize_path(p),
        spec_components(spec_normalize_path(p)).len() >= 1,
        spec_components(spec_normalize_path(p))[0] == Comp::Root,
        forall|i: int|
            1 <= i < spec_components(spec_normalize_path(p)).len() ==> #[trigger] spec_components(
                spec_normalize_path(p),
            )[i] is Normal,
{
    let comps = spec_components(p);
    lemma_components_wf(p);
    assert(comps[0] == Comp::Root);
    lemma_norm_fold_absolute(comps);
    let st = norm_fold(comps, true);
    let segs = st.1;
    let q = spec_normalize_path(p);
    assert(q == render_state((true, segs)));
    assert(q[0] == '/');
    lemma_components_of_rendered(segs);
    lemma_text_of_rendered(segs);
    lemma_norm_fold_names(segs);
}

} // verus!
