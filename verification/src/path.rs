//! A plain model of file paths.
//!
//! A [`FilePath`] is an absoluteness flag together with a sequence of name
//! components. The embedding application translates between this model and
//! the platform's native path type; inside the library every path operation
//! (joining, taking the parent, splitting a name into stem and extension)
//! is ordinary verified code over these components.

use vstd::prelude::*;
use vstd::string::StrSliceExecFns;
use vstd::string::StringExecFns;

verus! {

/// A file path: a flag saying whether it is rooted, and its name components
/// in order. Components are plain names; they carry no separator characters.
#[derive(Debug)]
pub struct FilePath {
    /// True for a rooted path such as `/usr/bin`, false for a relative one.
    pub absolute: bool,
    /// The name components, outermost first.
    pub components: Vec<String>,
}

impl View for FilePath {
    type V = Seq<Seq<char>>;

    open spec fn view(&self) -> Seq<Seq<char>> {
        self.components.deep_view()
    }
}

/// The components of `base` joined with `other`, following the platform rule
/// that joining an absolute path replaces the base entirely.
pub open spec fn spec_join_components(base: FilePath, other: FilePath) -> Seq<Seq<char>> {
    if other.absolute {
        other@
    } else {
        base@ + other@
    }
}

/// Whether `base` joined with `other` is absolute.
pub open spec fn spec_join_absolute(base: FilePath, other: FilePath) -> bool {
    if other.absolute {
        true
    } else {
        base.absolute
    }
}

/// The position of the dot separating stem from extension in `name`,
/// looking only at `name[0..n]`: the last dot at an index of at least 1,
/// or 0 when there is none. A dot in first position never separates, so a
/// name such as `.profile` has no extension.
pub open spec fn spec_split_index_upto(name: Seq<char>, n: int) -> int
    decreases n,
{
    if n <= 1 {
        0
    } else if name[n - 1] == '.' {
        n - 1
    } else {
        spec_split_index_upto(name, n - 1)
    }
}

/// The position of the dot separating stem from extension, or 0 when the
/// name has no extension.
pub open spec fn spec_split_index(name: Seq<char>) -> int {
    spec_split_index_upto(name, name.len() as int)
}

/// Whether a name has an extension: a dot at an index of at least 1.
pub open spec fn spec_has_extension(name: Seq<char>) -> bool {
    spec_split_index(name) >= 1
}

/// The stem of a name: everything before the separating dot, or the whole
/// name when there is no extension.
pub open spec fn spec_stem(name: Seq<char>) -> Seq<char> {
    if spec_has_extension(name) {
        name.subrange(0, spec_split_index(name))
    } else {
        name
    }
}

/// The extension of a name: everything after the separating dot.
/// Meaningful only when `spec_has_extension(name)` holds.
pub open spec fn spec_extension(name: Seq<char>) -> Seq<char> {
    name.subrange(spec_split_index(name) + 1, name.len() as int)
}

/// The split index is 0, or an in-range position holding a dot.
proof fn lemma_split_index_upto_bounds(name: Seq<char>, n: int)
    requires
        n <= name.len(),
    ensures
        spec_split_index_upto(name, n) == 0 || (1 <= spec_split_index_upto(name, n) < n
            && name[spec_split_index_upto(name, n)] == '.'),
    decreases n,
{
    if n > 1 && name[n - 1] != '.' {
        lemma_split_index_upto_bounds(name, n - 1);
    }
}

/// The split index of a name is 0, or an in-range position holding a dot.
proof fn lemma_split_index_bounds(name: Seq<char>)
    ensures
        spec_split_index(name) == 0 || (1 <= spec_split_index(name) < name.len()
            && name[spec_split_index(name)] == '.'),
{
    lemma_split_index_upto_bounds(name, name.len() as int);
}

/// The position of the dot separating stem from extension in `name`, or 0
/// when the name has no extension.
fn split_index(name: &str) -> (r: usize)
    ensures
        r == spec_split_index(name@),
{
    let len = name.unicode_len();
    let mut i = len;
    while i > 1
        invariant
            i <= len,
            len == name@.len(),
            spec_split_index_upto(name@, len as int) == spec_split_index_upto(name@, i as int),
        decreases i,
    {
        if name.get_char(i - 1) == '.' {
            return i - 1;
        }
        i = i - 1;
    }
    0
}

/// Copies a vector of components.
fn clone_components(v: &Vec<String>) -> (r: Vec<String>)
    ensures
        r.deep_view() == v.deep_view(),
{
    let mut r: Vec<String> = Vec::new();
    let mut i: usize = 0;
    while i < v.len()
        invariant
            i <= v.len(),
            r.deep_view() =~= v.deep_view().subrange(0, i as int),
        decreases v.len() - i,
    {
        let c = v[i].clone();
        proof {
            assert(c@ == v.deep_view()[i as int]);
            assert(r.deep_view().len() == r@.len());
            assert(r@.len() == i as int);
            assert(forall|j: int| 0 <= j < i ==> r.deep_view()[j] == #[trigger] r@[j]@);
        }
        r.push(c);
        proof {
            assert(v.deep_view().len() == v@.len());
            assert(r.deep_view().len() == r@.len());
            assert forall|j: int| 0 <= j < r.deep_view().len() implies r.deep_view()[j]
                == v.deep_view().subrange(0, i + 1)[j] by {
                assert(r.deep_view()[j] == r@[j]@);
                assert(v.deep_view().subrange(0, i + 1)[j] == v.deep_view()[j]);
                assert(v.deep_view()[j] == v@[j]@);
            }
            assert(r.deep_view() =~= v.deep_view().subrange(0, i + 1));
        }
        i = i + 1;
    }
    proof {
        assert(r.deep_view() =~= v.deep_view());
    }
    r
}

impl Clone for FilePath {
    /// Copies the path; the copy has the same flag and the same components.
    fn clone(&self) -> (r: Self)
        ensures
            r.absolute == self.absolute,
            r@ == self@,
    {
        FilePath { absolute: self.absolute, components: clone_components(&self.components) }
    }
}

impl FilePath {
    /// Joins `other` onto `self`, following the platform rule that joining
    /// an absolute path replaces `self` entirely.
    pub fn join(&self, other: &FilePath) -> (r: FilePath)
        ensures
            r.absolute == spec_join_absolute(*self, *other),
            r@ == spec_join_components(*self, *other),
    {
        if other.absolute {
            other.clone()
        } else {
            let mut comps = clone_components(&self.components);
            let mut i: usize = 0;
            while i < other.components.len()
                invariant
                    i <= other.components.len(),
                    comps.deep_view() =~= self@ + other@.subrange(0, i as int),
                decreases other.components.len() - i,
            {
                let c = other.components[i].clone();
                proof {
                    assert(c@ == other@[i as int]);
                    assert(comps.deep_view().len() == comps@.len());
                    assert(comps@.len() == self@.len() + i);
                    assert(forall|j: int| 0 <= j < comps@.len() ==> comps.deep_view()[j]
                        == #[trigger] comps@[j]@);
                }
                comps.push(c);
                proof {
                    assert(comps.deep_view().len() == comps@.len());
                    assert forall|j: int| 0 <= j < comps.deep_view().len() implies
                        comps.deep_view()[j] == (self@ + other@.subrange(0, i + 1))[j] by {
                        assert(comps.deep_view()[j] == comps@[j]@);
                        assert(other@.subrange(0, i + 1)[i as int] == other@[i as int]);
                    }
                    assert(comps.deep_view() =~= self@ + other@.subrange(0, i + 1));
                }
                i = i + 1;
            }
            proof {
                assert(comps.deep_view() =~= self@ + other@);
            }
            FilePath { absolute: self.absolute, components: comps }
        }
    }

    /// The path without its final component.
    pub fn parent_path(&self) -> (r: FilePath)
        requires
            self@.len() > 0,
        ensures
            r.absolute == self.absolute,
            r@ == self@.drop_last(),
    {
        let mut comps = clone_components(&self.components);
        comps.pop();
        proof {
            assert(comps.deep_view() =~= self@.drop_last());
        }
        FilePath { absolute: self.absolute, components: comps }
    }

    /// Extends the path with one further component.
    pub fn push_component(&self, name: String) -> (r: FilePath)
        ensures
            r.absolute == self.absolute,
            r@ == self@.push(name@),
    {
        let mut comps = clone_components(&self.components);
        comps.push(name);
        proof {
            assert(comps.deep_view() =~= self@.push(comps.deep_view().last()));
        }
        FilePath { absolute: self.absolute, components: comps }
    }

    /// The stem of the final component: its name up to the dot that begins
    /// the extension. `None` on a path with no components.
    pub fn file_stem(&self) -> (r: Option<String>)
        ensures
            r is Some <==> self@.len() > 0,
            r matches Some(s) ==> s@ == spec_stem(self@.last()),
    {
        if self.components.len() == 0 {
            return None;
        }
        let name: &String = &self.components[self.components.len() - 1];
        proof {
            assert(name@ == self@.last());
            lemma_split_index_bounds(name@);
        }
        let k = split_index(name.as_str());
        if k >= 1 {
            Some(name.as_str().substring_char(0, k).to_owned())
        } else {
            Some(name.clone())
        }
    }

    /// The extension of the final component, when it has one.
    pub fn extension(&self) -> (r: Option<String>)
        ensures
            r is Some <==> self@.len() > 0 && spec_has_extension(self@.last()),
            r matches Some(e) ==> e@ == spec_extension(self@.last()),
    {
        if self.components.len() == 0 {
            return None;
        }
        let name: &String = &self.components[self.components.len() - 1];
        proof {
            assert(name@ == self@.last());
            lemma_split_index_bounds(name@);
        }
        let k = split_index(name.as_str());
        if k >= 1 {
            let len = name.as_str().unicode_len();
            Some(name.as_str().substring_char(k + 1, len).to_owned())
        } else {
            None
        }
    }
}

/// The components joined with `/` between them.
pub open spec fn spec_join_sep(cs: Seq<Seq<char>>) -> Seq<char>
    decreases cs.len(),
{
    if cs.len() == 0 {
        Seq::empty()
    } else if cs.len() == 1 {
        cs[0]
    } else {
        spec_join_sep(cs.drop_last()) + "/"@ + cs.last()
    }
}

/// The textual form of a path: its components joined with `/`, with a
/// leading `/` when the path is absolute.
pub open spec fn spec_render(p: FilePath) -> Seq<char> {
    if p.absolute {
        "/"@ + spec_join_sep(p@)
    } else {
        spec_join_sep(p@)
    }
}

impl FilePath {
    /// The textual form of the path.
    pub fn display(&self) -> (r: String)
        ensures
            r@ == spec_render(*self),
    {
        let mut s = String::new();
        let ghost pref: Seq<char> = if self.absolute {
            "/"@
        } else {
            Seq::empty()
        };
        if self.absolute {
            s.append("/");
        }
        proof {
            assert(s@ =~= pref + spec_join_sep(self@.subrange(0, 0)));
        }
        let mut i: usize = 0;
        while i < self.components.len()
            invariant
                i <= self.components.len(),
                pref == if self.absolute { "/"@ } else { Seq::<char>::empty() },
                s@ == pref + spec_join_sep(self@.subrange(0, i as int)),
            decreases self.components.len() - i,
        {
            if i > 0 {
                s.append("/");
            }
            s.append(self.components[i].as_str());
            proof {
                let prev = self@.subrange(0, i as int);
                let cur = self@.subrange(0, i + 1 as int);
                assert(cur.drop_last() =~= prev);
                assert(cur.last() == self@[i as int]);
                if i == 0 {
                    assert(spec_join_sep(cur) == cur[0]);
                    assert(s@ =~= pref + spec_join_sep(cur));
                } else {
                    assert(spec_join_sep(cur) == spec_join_sep(prev) + "/"@ + cur.last());
                    assert(s@ =~= pref + spec_join_sep(cur));
                }
            }
            i = i + 1;
        }
        proof {
            assert(self@.subrange(0, self@.len() as int) =~= self@);
            if self@.len() == 0 {
                assert(s@ =~= spec_render(*self));
            }
        }
        s
    }
}

} // verus!
