//! Paths as sequences of components.
//!
//! Both `/` and `\` separate components, and empty components are dropped,
//! so `TestRoot\` and `TestRoot` name the same path, as do `Config/A.ini`
//! and `Config\A.ini`.
use vstd::prelude::*;
use vstd::string::*;

verus! {

/// Whether `c` separates two path components.
pub open spec fn is_sep(c: char) -> bool {
    c == '/' || c == '\\'
}

/// Reading `s` left to right: the components completed so far and the
/// component still being read.
pub open spec fn scan(s: Seq<char>) -> (Seq<Seq<char>>, Seq<char>)
    decreases s.len(),
{
    if s.len() == 0 {
        (Seq::empty(), Seq::empty())
    } else {
        let (done, cur) = scan(s.drop_last());
        if is_sep(s.last()) {
            if cur.len() > 0 {
                (done.push(cur), Seq::empty())
            } else {
                (done, cur)
            }
        } else {
            (done, cur.push(s.last()))
        }
    }
}

/// The components of `s`: its maximal runs of characters without a separator.
pub open spec fn components(s: Seq<char>) -> Seq<Seq<char>> {
    let (done, cur) = scan(s);
    if cur.len() > 0 {
        done.push(cur)
    } else {
        done
    }
}

/// Whether the text `s` starts at the root of the file system.
pub open spec fn rooted(s: Seq<char>) -> bool {
    s.len() > 0 && is_sep(s[0])
}

/// The index of the last `c` in `s`, or -1 when there is none.
pub open spec fn last_index_of(s: Seq<char>, c: char) -> int
    decreases s.len(),
{
    if s.len() == 0 {
        -1
    } else if s.last() == c {
        s.len() - 1
    } else {
        last_index_of(s.drop_last(), c)
    }
}

/// A file name without its extension: the text before the last dot, unless
/// the name has no dot or only a leading one.
pub open spec fn stem_of(name: Seq<char>) -> Seq<char> {
    let i = last_index_of(name, '.');
    if i <= 0 {
        name
    } else {
        name.take(i)
    }
}

/// `name` with its extension replaced by `ext` (removed when `ext` is empty).
pub open spec fn with_ext(name: Seq<char>, ext: Seq<char>) -> Seq<char> {
    if ext.len() == 0 {
        stem_of(name)
    } else {
        stem_of(name) + seq!['.'] + ext
    }
}

/// A path: whether it starts at the root, and its components.
#[derive(Debug, Clone, PartialEq, Eq)]
pub struct FsPath {
    rooted: bool,
    parts: Vec<String>,
}

/// The mathematical value of a path.
pub struct PathView {
    pub rooted: bool,
    pub parts: Seq<Seq<char>>,
}

pub open spec fn parts_view(v: Seq<String>) -> Seq<Seq<char>> {
    v.map_values(|s: String| s@)
}

impl View for FsPath {
    type V = PathView;

    closed spec fn view(&self) -> PathView {
        PathView { rooted: self.rooted, parts: parts_view(self.parts@) }
    }
}

/// The path that the text `s` denotes.
pub open spec fn path_of(s: Seq<char>) -> PathView {
    PathView { rooted: rooted(s), parts: components(s) }
}

/// `p` followed by the components of `s`.
pub open spec fn joined(p: PathView, s: Seq<char>) -> PathView {
    PathView { rooted: p.rooted, parts: p.parts + components(s) }
}

/// `p` with the extension of its last component replaced by `ext`.
pub open spec fn extension_set(p: PathView, ext: Seq<char>) -> PathView {
    if p.parts.len() == 0 {
        p
    } else {
        PathView {
            rooted: p.rooted,
            parts: p.parts.drop_last().push(with_ext(p.parts.last(), ext)),
        }
    }
}

/// `p` with its last component replaced by the components of `name`.
pub open spec fn file_name_set(p: PathView, name: Seq<char>) -> PathView {
    if p.parts.len() == 0 {
        PathView { rooted: p.rooted, parts: components(name) }
    } else {
        PathView { rooted: p.rooted, parts: p.parts.drop_last() + components(name) }
    }
}

/// The text of a path, with `/` between components.
pub open spec fn text_of(p: PathView) -> Seq<char> {
    let body = joined_text(p.parts);
    if p.rooted {
        seq!['/'] + body
    } else {
        body
    }
}

/// The components of a path with `/` between them.
pub open spec fn joined_text(parts: Seq<Seq<char>>) -> Seq<char>
    decreases parts.len(),
{
    if parts.len() == 0 {
        Seq::empty()
    } else if parts.len() == 1 {
        parts[0]
    } else {
        joined_text(parts.drop_last()) + seq!['/'] + parts.last()
    }
}

/// A non-empty text without separators is a single component.
pub proof fn lemma_components_plain(s: Seq<char>)
    requires
        s.len() > 0,
        forall|i: int| 0 <= i < s.len() ==> !is_sep(#[trigger] s[i]),
    ensures
        components(s) == seq![s],
{
    lemma_scan_plain(s);
}

proof fn lemma_scan_plain(s: Seq<char>)
    requires
        forall|i: int| 0 <= i < s.len() ==> !is_sep(#[trigger] s[i]),
    ensures
        scan(s) == (Seq::<Seq<char>>::empty(), s),
    decreases s.len(),
{
    if s.len() > 0 {
        let t = s.drop_last();
        assert forall|i: int| 0 <= i < t.len() implies !is_sep(#[trigger] t[i]) by {
            assert(t[i] == s[i]);
        }
        lemma_scan_plain(t);
        assert(!is_sep(s[s.len() - 1]));
        assert(t.push(s.last()) =~= s);
    }
}

proof fn lemma_take_step(s: Seq<char>, i: int)
    requires
        0 <= i < s.len(),
    ensures
        s.take(i + 1).drop_last() == s.take(i),
        s.take(i + 1).last() == s[i],
{
    assert(s.take(i + 1).drop_last() =~= s.take(i));
}

/// Appends the components of `s` to `parts`.
fn push_components(parts: &mut Vec<String>, s: &str)
    ensures
        parts_view(final(parts)@) == parts_view(old(parts)@) + components(s@),
{
    let n = s.unicode_len();
    let ghost base = parts_view(parts@);
    let mut start: usize = 0;
    let mut i: usize = 0;
    while i < n
        invariant
            n == s@.len(),
            start <= i <= n,
            parts_view(parts@) == base + scan(s@.take(i as int)).0,
            s@.subrange(start as int, i as int) == scan(s@.take(i as int)).1,
        decreases n - i,
    {
        let c = s.get_char(i);
        proof {
            lemma_take_step(s@, i as int);
        }
        if c == '/' || c == '\\' {
            if start < i {
                let part = s.substring_char(start, i);
                let ghost before = parts@;
                parts.push(part.to_owned());
                proof {
                    assert(parts_view(parts@) =~= parts_view(before).push(part@));
                }
            }
            start = i + 1;
            assert(s@.subrange(start as int, i + 1) =~= Seq::<char>::empty());
        } else {
            assert(s@.subrange(start as int, i + 1) =~= s@.subrange(start as int, i as int).push(c));
        }
        i = i + 1;
    }
    assert(s@.take(n as int) =~= s@);
    if start < n {
        let part = s.substring_char(start, n);
        let ghost before = parts@;
        parts.push(part.to_owned());
        proof {
            assert(parts_view(parts@) =~= parts_view(before).push(part@));
        }
    }
}

impl FsPath {
    /// The path that the text `s` denotes.
    pub fn new(s: &str) -> (r: FsPath)
        ensures
            r@ == path_of(s@),
    {
        let mut parts: Vec<String> = Vec::new();
        push_components(&mut parts, s);
        assert(parts_view(Seq::<String>::empty()) =~= Seq::<Seq<char>>::empty());
        assert(components(s@) =~= Seq::<Seq<char>>::empty() + components(s@));
        let lead = if s.unicode_len() > 0 {
            let c = s.get_char(0);
            c == '/' || c == '\\'
        } else {
            false
        };
        FsPath { rooted: lead, parts }
    }

    /// A copy of this path.
    pub fn copy(&self) -> (r: FsPath)
        ensures
            r@ == self@,
    {
        let mut parts: Vec<String> = Vec::new();
        let mut i: usize = 0;
        while i < self.parts.len()
            invariant
                i <= self.parts@.len(),
                parts_view(parts@) == parts_view(self.parts@).take(i as int),
            decreases self.parts@.len() - i,
        {
            let ghost before = parts@;
            parts.push(self.parts[i].clone());
            proof {
                assert(parts_view(parts@) =~= parts_view(before).push(self.parts@[i as int]@));
                assert(parts_view(self.parts@).take(i + 1) =~= parts_view(self.parts@).take(
                    i as int,
                ).push(self.parts@[i as int]@));
            }
            i = i + 1;
        }
        assert(parts_view(self.parts@).take(i as int) =~= parts_view(self.parts@));
        FsPath { rooted: self.rooted, parts }
    }

    /// This path followed by the components of `s`, which is read as a
    /// relative path.
    pub fn join(&self, s: &str) -> (r: FsPath)
        ensures
            r@ == joined(self@, s@),
    {
        let mut r = self.copy();
        push_components(&mut r.parts, s);
        r
    }

    /// This path followed by the components of `other`, whose root is
    /// ignored.
    pub fn join_path(&self, other: &FsPath) -> (r: FsPath)
        ensures
            r@ == (PathView { rooted: self@.rooted, parts: self@.parts + other@.parts }),
    {
        let mut r = self.copy();
        let mut i: usize = 0;
        while i < other.parts.len()
            invariant
                i <= other.parts@.len(),
                r.rooted == self.rooted,
                parts_view(r.parts@) == parts_view(self.parts@) + parts_view(other.parts@).take(
                    i as int,
                ),
            decreases other.parts@.len() - i,
        {
            let ghost before = r.parts@;
            r.parts.push(other.parts[i].clone());
            proof {
                assert(parts_view(r.parts@) =~= parts_view(before).push(other.parts@[i as int]@));
                assert(parts_view(other.parts@).take(i + 1) =~= parts_view(other.parts@).take(
                    i as int,
                ).push(other.parts@[i as int]@));
            }
            i = i + 1;
        }
        assert(parts_view(other.parts@).take(i as int) =~= parts_view(other.parts@));
        r
    }

    /// This path with the extension of its last component replaced by `ext`.
    pub fn with_extension(&self, ext: &str) -> (r: FsPath)
        ensures
            r@ == extension_set(self@, ext@),
    {
        let mut r = self.copy();
        if r.parts.len() == 0 {
            return r;
        }
        let ghost full = r.parts@;
        let last = r.parts.pop().unwrap();
        assert(last@ == parts_view(full).last());
        assert(parts_view(full) == parts_view(self.parts@));
        let name = last.as_str();
        let n = name.unicode_len();
        let mut i: usize = n;
        assert(name@.take(n as int) =~= name@);
        while i > 0 && name.get_char(i - 1) != '.'
            invariant
                i <= n == name@.len(),
                last_index_of(name@, '.') == last_index_of(name@.take(i as int), '.'),
            decreases i,
        {
            assert(name@.take(i as int).drop_last() =~= name@.take(i - 1));
            i = i - 1;
        }
        assert(name@.take(n as int) =~= name@);
        proof {
            if i > 0 {
                assert(name@.take(i as int).last() == name@[i - 1]);
            } else {
                assert(name@.take(0) =~= Seq::<char>::empty());
            }
        }
        let stem = if i <= 1 {
            name
        } else {
            name.substring_char(0, i - 1)
        };
        assert(stem@ == stem_of(name@));
        let ghost before = r.parts@;
        if ext.unicode_len() == 0 {
            r.parts.push(stem.to_owned());
        } else {
            let mut new_name = stem.to_owned();
            new_name.append(".");
            new_name.append(ext);
            proof {
                reveal_strlit(".");
                assert(new_name@ =~= stem_of(name@) + seq!['.'] + ext@);
            }
            r.parts.push(new_name);
        }
        proof {
            assert(parts_view(r.parts@) =~= parts_view(before).push(r.parts@.last()@));
            assert(parts_view(before) =~= parts_view(self.parts@).drop_last());
        }
        assert(parts_view(r.parts@) =~= parts_view(self.parts@).drop_last().push(
            with_ext(parts_view(self.parts@).last(), ext@),
        ));
        r
    }

    /// This path with its last component replaced by the components of `name`.
    pub fn with_file_name(&self, name: &str) -> (r: FsPath)
        ensures
            r@ == file_name_set(self@, name@),
    {
        let mut r = self.copy();
        if r.parts.len() > 0 {
            let ghost before = r.parts@;
            r.parts.pop();
            assert(parts_view(r.parts@) =~= parts_view(before).drop_last());
        }
        let ghost mid = parts_view(r.parts@);
        push_components(&mut r.parts, name);
        proof {
            if self.parts@.len() == 0 {
                assert(mid =~= Seq::<Seq<char>>::empty());
                assert(mid + components(name@) =~= components(name@));
            }
        }
        r
    }

    /// The last component, if there is one.
    pub fn file_name(&self) -> (r: Option<String>)
        ensures
            self@.parts.len() == 0 ==> r is None,
            self@.parts.len() > 0 ==> r is Some && r->Some_0@ == self@.parts.last(),
    {
        if self.parts.len() == 0 {
            None
        } else {
            Some(self.parts[self.parts.len() - 1].clone())
        }
    }

    /// Whether two paths have the same components and the same root.
    pub fn same_as(&self, other: &FsPath) -> (r: bool)
        ensures
            r == (self@ == other@),
    {
        if self.rooted != other.rooted || self.parts.len() != other.parts.len() {
            proof {
                if self@ == other@ {
                    assert(parts_view(self.parts@).len() == self.parts@.len());
                }
            }
            return false;
        }
        let mut i: usize = 0;
        while i < self.parts.len()
            invariant
                i <= self.parts@.len() == other.parts@.len(),
                forall|j: int| 0 <= j < i ==> self.parts@[j]@ == other.parts@[j]@,
            decreases self.parts@.len() - i,
        {
            if self.parts[i] != other.parts[i] {
                assert(parts_view(self.parts@)[i as int] != parts_view(other.parts@)[i as int]);
                return false;
            }
            i = i + 1;
        }
        assert(parts_view(self.parts@) =~= parts_view(other.parts@));
        true
    }

    /// The text of this path, with `/` between components; it starts with
    /// `/` when the path starts at the root.
    pub fn to_text(&self) -> (r: String)
        ensures
            r@ == text_of(self@),
    {
        let mut body = String::new();
        let mut i: usize = 0;
        proof {
            reveal_strlit("/");
        }
        while i < self.parts.len()
            invariant
                i <= self.parts@.len(),
                body@ == joined_text(parts_view(self.parts@).take(i as int)),
            decreases self.parts@.len() - i,
        {
            let ghost prev = parts_view(self.parts@).take(i as int);
            assert(parts_view(self.parts@).take(i + 1).drop_last() =~= prev);
            if i > 0 {
                body.append("/");
            }
            body.append(self.parts[i].as_str());
            proof {
                reveal_strlit("/");
                assert(parts_view(self.parts@).take(i + 1).last() == self.parts@[i as int]@);
                if i == 0 {
                    assert(body@ =~= parts_view(self.parts@).take(1)[0]);
                } else {
                    assert(body@ =~= joined_text(prev) + seq!['/'] + self.parts@[i as int]@);
                }
            }
            i = i + 1;
        }
        assert(parts_view(self.parts@).take(i as int) =~= parts_view(self.parts@));
        if self.rooted {
            let mut r = String::new();
            r.append("/");
            r.append(body.as_str());
            r
        } else {
            body
        }
    }
}

} // verus!
