//! Filesystem paths as sequences of components.
use vstd::prelude::*;

verus! {

/// A path held as its components: the first is the base the path starts
/// from, each later one a single directory or file name.
#[derive(Debug)]
pub struct BuildPath {
    pub segments: Vec<String>,
}

impl View for BuildPath {
    type V = Seq<Seq<char>>;

    open spec fn view(&self) -> Seq<Seq<char>> {
        self.segments.deep_view()
    }
}

/// The components of `p` written out with `/` between them.
pub open spec fn render(p: Seq<Seq<char>>) -> Seq<char>
    decreases p.len(),
{
    if p.len() == 0 {
        Seq::empty()
    } else if p.len() == 1 {
        p[0]
    } else {
        render(p.drop_last()) + "/"@ + p.last()
    }
}

/// `k` is the last `.` of `name` past its first character.
pub open spec fn is_last_dot(name: Seq<char>, k: int) -> bool {
    &&& 1 <= k < name.len()
    &&& name[k] == '.'
    &&& forall|m: int| k < m < name.len() ==> name[m] != '.'
}

/// Length of the stem of a file name: up to its last `.` past the first
/// character, or the whole name where there is none.
pub open spec fn stem_end(name: Seq<char>) -> int {
    if exists|k: int| is_last_dot(name, k) {
        choose|k: int| is_last_dot(name, k)
    } else {
        name.len() as int
    }
}

/// `name` with its extension replaced by `ext`.
pub open spec fn with_ext(name: Seq<char>, ext: Seq<char>) -> Seq<char> {
    name.subrange(0, stem_end(name)) + "."@ + ext
}

pub fn copy_strings(v: &Vec<String>) -> (r: Vec<String>)
    ensures
        r.deep_view() == v.deep_view(),
{
    let mut r: Vec<String> = Vec::new();
    let mut i: usize = 0;
    while i < v.len()
        invariant
            i <= v@.len(),
            r@.len() == i,
            forall|k: int| 0 <= k < i ==> #[trigger] r@[k]@ == v@[k]@,
        decreases v.len() - i,
    {
        let s = v[i].clone();
        r.push(s);
        i = i + 1;
    }
    assert(r.deep_view() =~= v.deep_view());
    r
}

/// Length of the stem of the file name `v`.
pub fn stem_len(v: &Vec<char>) -> (e: usize)
    ensures
        e == stem_end(v@),
{
    let n = v.len();
    let mut j = n;
    while j > 1 && v[j - 1] != '.'
        invariant
            j <= n == v@.len(),
            forall|m: int| j <= m < n ==> v@[m] != '.',
        decreases j,
    {
        j = j - 1;
    }
    if j > 1 {
        let k = j - 1;
        assert(is_last_dot(v@, k as int));
        let ghost c = choose|c: int| is_last_dot(v@, c);
        assert(c == k) by {
            if c < k {
                assert(v@[k as int] == '.');
            } else if c > k {
                assert(v@[c] == '.');
            }
        }
        k
    } else {
        assert(forall|k: int| !is_last_dot(v@, k)) by {
            assert forall|k: int| !is_last_dot(v@, k) by {
                if 1 <= k < n && v@[k] == '.' {
                    assert(j <= k);
                }
            }
        }
        n
    }
}

impl BuildPath {
    /// A path made of a single base component.
    pub fn new(base: &str) -> (r: BuildPath)
        ensures
            r@ == seq![base@],
    {
        let mut segments: Vec<String> = Vec::new();
        segments.push(String::from_str(base));
        let r = BuildPath { segments };
        assert(r@ =~= seq![base@]);
        r
    }

    /// This path with `name` appended as its last component.
    pub fn join(&self, name: &str) -> (r: BuildPath)
        ensures
            r@ == self@.push(name@),
    {
        let mut segments = copy_strings(&self.segments);
        segments.push(String::from_str(name));
        let r = BuildPath { segments };
        assert(r@ =~= self@.push(name@));
        r
    }

    /// This path with the extension of its last component set to `ext`.
    pub fn with_extension(&self, ext: &str) -> (r: BuildPath)
        requires
            self@.len() > 0,
        ensures
            r@ == self@.drop_last().push(with_ext(self@.last(), ext@)),
    {
        let mut segments = copy_strings(&self.segments);
        let last = segments.pop().unwrap();
        let chars = crate::text::chars_of(last.as_str());
        let e = stem_len(&chars);
        let stem = last.as_str().substring_char(0, e);
        let name = String::from_str(stem).concat(".").concat(ext);
        segments.push(name);
        let r = BuildPath { segments };
        assert(r@ =~= self@.drop_last().push(with_ext(self@.last(), ext@)));
        r
    }

    /// A copy of this path.
    pub fn duplicate(&self) -> (r: BuildPath)
        ensures
            r@ == self@,
    {
        BuildPath { segments: copy_strings(&self.segments) }
    }

    /// The path written out with `/` between its components.
    pub fn display(&self) -> (r: String)
        ensures
            r@ == render(self@),
    {
        let mut out = String::new();
        let mut i: usize = 0;
        while i < self.segments.len()
            invariant
                i <= self@.len(),
                out@ == render(self@.subrange(0, i as int)),
            decreases self.segments.len() - i,
        {
            assert(self@.subrange(0, i + 1).drop_last() =~= self@.subrange(0, i as int));
            if i > 0 {
                out.append("/");
            }
            out.append(self.segments[i].as_str());
            i = i + 1;
        }
        assert(self@.subrange(0, self@.len() as int) =~= self@);
        out
    }
}

} // verus!
