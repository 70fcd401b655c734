//! Modeled EPC and aftermarket parts catalogs as read-only directory
//! tables: directories by path, part lines at the leaves.

use vstd::prelude::*;

use crate::domain::strs;
use crate::kernel::{Error, Result};
use crate::order::{insert_sorted, strictly_sorted};
use crate::parts::{PartLine, PartLineView, PartsCatalog};
use crate::text::{chars_of, push_str, str_eq, string_of};

verus! {

/// What a catalog directory holds: its label, its path inside the
/// catalog, every directory path of the catalog, and every part line with
/// its path.
pub struct PartsDirView {
    /// Display label.
    pub label: Seq<char>,
    /// This directory's path.
    pub prefix: Seq<Seq<char>>,
    /// Every directory path of the catalog.
    pub dirs: Seq<Seq<Seq<char>>>,
    /// Every part of the catalog with its path.
    pub parts: Seq<(Seq<Seq<char>>, PartLineView)>,
}

/// What reading path `p` of directory `d` gives: the directory itself for
/// an empty path, else the part at the last segment of the directory the
/// other segments open, refusing the first segment that opens no
/// directory.
pub open spec fn path_reply(d: PartsDirView, p: Seq<Seq<char>>, r: Result<CatalogValue>) -> bool {
    &&& p.len() == 0 ==> (r matches Ok(CatalogValue::Dir(x)) && x@ == d)
    &&& p.len() > 0 ==> match r {
        Ok(CatalogValue::Part(l)) => part_in(d.parts, d.prefix + p) == Some(l@),
        Ok(CatalogValue::Nil) => part_in(d.parts, d.prefix + p) is None,
        Ok(CatalogValue::Dir(_)) => false,
        Err(_) => true,
    }
    &&& p.len() > 0 ==> (r is Ok <==> forall|k: int| 0 <= k < p.len() - 1 ==> is_dir_path(d, #[trigger] (d.prefix + p.take(k + 1))))
    &&& p.len() > 0 && r is Err ==> exists|k: int| #![trigger p[k]] {
        &&& 0 <= k < p.len() - 1
        &&& !is_dir_path(d, d.prefix + p.take(k + 1))
        &&& (r matches Err(Error::Eval(m)) && m@ == "parts catalog path segment "@ + p[k] + " is not a directory"@)
    }
}

/// A read-only directory of a modeled parts catalog.
#[derive(Clone, Debug)]
pub struct PartsDir {
    label: String,
    prefix: Vec<String>,
    dirs: Vec<Vec<String>>,
    parts: Vec<(Vec<String>, PartLine)>,
}

/// The views of a list of paths.
pub open spec fn path_views(v: Seq<Vec<String>>) -> Seq<Seq<Seq<char>>> {
    v.map_values(|p: Vec<String>| strs(p@))
}

/// The views of a list of parts with their paths.
pub open spec fn part_entry_views(v: Seq<(Vec<String>, PartLine)>) -> Seq<(Seq<Seq<char>>, PartLineView)> {
    v.map_values(|e: (Vec<String>, PartLine)| (strs(e.0@), e.1@))
}

impl View for PartsDir {
    type V = PartsDirView;

    closed spec fn view(&self) -> PartsDirView {
        PartsDirView {
            label: self.label@,
            prefix: strs(self.prefix@),
            dirs: path_views(self.dirs@),
            parts: part_entry_views(self.parts@),
        }
    }
}

/// Whether the directory holds a subdirectory `key`.
pub open spec fn dir_at(d: PartsDirView, key: Seq<char>) -> bool {
    exists|i: int| 0 <= i < d.dirs.len() && d.dirs[i] == d.prefix.push(key)
}

/// The first part keyed `key` in the directory, if any.
pub open spec fn part_in(parts: Seq<(Seq<Seq<char>>, PartLineView)>, path: Seq<Seq<char>>) -> Option<PartLineView>
    decreases parts.len(),
{
    if parts.len() == 0 {
        None
    } else if parts[0].0 == path {
        Some(parts[0].1)
    } else {
        part_in(parts.drop_first(), path)
    }
}

/// The part keyed `key` in the directory, if any.
pub open spec fn part_at(d: PartsDirView, key: Seq<char>) -> Option<PartLineView> {
    part_in(d.parts, d.prefix.push(key))
}

/// Whether the catalog has a directory at `path`.
pub open spec fn is_dir_path(d: PartsDirView, path: Seq<Seq<char>>) -> bool {
    exists|i: int| 0 <= i < d.dirs.len() && d.dirs[i] == path
}

/// The key of `path` directly under `prefix`, if it is one.
pub open spec fn child_key(prefix: Seq<Seq<char>>, path: Seq<Seq<char>>) -> Option<Seq<char>> {
    if path.len() == prefix.len() + 1 && path.take(prefix.len() as int) == prefix {
        Some(path.last())
    } else {
        None
    }
}

/// Whether `key` names a subdirectory or a part of the directory.
pub open spec fn has_key(d: PartsDirView, key: Seq<char>) -> bool {
    dir_at(d, key) || part_at(d, key) is Some
}

/// The number of part entries directly under `prefix`.
pub open spec fn parts_under(parts: Seq<(Seq<Seq<char>>, PartLineView)>, prefix: Seq<Seq<char>>) -> nat
    decreases parts.len(),
{
    if parts.len() == 0 {
        0
    } else {
        parts_under(parts.drop_last(), prefix) + (if child_key(prefix, parts.last().0) is Some { 1nat } else { 0nat })
    }
}

/// The refusal of every write to a modeled catalog.
pub open spec fn immutable_message() -> Seq<char> {
    "modeled parts catalog is immutable"@
}

/// What a catalog path reads as.
#[derive(Clone, Debug)]
pub enum CatalogValue {
    /// A directory.
    Dir(PartsDir),
    /// A part line.
    Part(PartLine),
    /// Nothing at that key.
    Nil,
}

fn copy_path(p: &Vec<String>) -> (r: Vec<String>)
    ensures
        strs(r@) == strs(p@),
{
    crate::domain::clone_strings(p.as_slice())
}

fn path_eq(a: &Vec<String>, b: &Vec<String>) -> (r: bool)
    ensures
        r == (strs(a@) == strs(b@)),
{
    if a.len() != b.len() {
        return false;
    }
    let mut i: usize = 0;
    while i < a.len()
        invariant
            a@.len() == b@.len(),
            i <= a@.len(),
            forall|k: int| 0 <= k < i ==> a@[k]@ == b@[k]@,
        decreases a@.len() - i,
    {
        if !str_eq(a[i].as_str(), b[i].as_str()) {
            assert(strs(a@)[i as int] != strs(b@)[i as int]);
            return false;
        }
        i = i + 1;
    }
    assert(strs(a@) =~= strs(b@));
    true
}

fn key_path(prefix: &Vec<String>, key: &str) -> (r: Vec<String>)
    ensures
        strs(r@) == strs(prefix@).push(key@),
{
    let mut r = copy_path(prefix);
    let ghost before = r@;
    r.push(key.to_owned());
    assert(strs(r@) =~= strs(before).push(key@));
    r
}

/// The catalog label with one more segment.
pub open spec fn sub_label(label: Seq<char>, key: Seq<char>) -> Seq<char> {
    label + seq!['/'] + key
}

impl PartsDir {
    fn same_catalog(&self, prefix: Vec<String>, label: String) -> (r: PartsDir)
        ensures
            r@ == (PartsDirView { label: label@, prefix: strs(prefix@), ..self@ }),
    {
        let mut dirs: Vec<Vec<String>> = Vec::new();
        let mut i: usize = 0;
        while i < self.dirs.len()
            invariant
                i <= self.dirs@.len(),
                dirs@.len() == i,
                forall|k: int| 0 <= k < i ==> strs((#[trigger] dirs@[k])@) == strs(self.dirs@[k]@),
            decreases self.dirs@.len() - i,
        {
            dirs.push(copy_path(&self.dirs[i]));
            i = i + 1;
        }
        let mut parts: Vec<(Vec<String>, PartLine)> = Vec::new();
        let mut j: usize = 0;
        while j < self.parts.len()
            invariant
                j <= self.parts@.len(),
                parts@.len() == j,
                forall|k: int| 0 <= k < j ==> strs((#[trigger] parts@[k]).0@) == strs(self.parts@[k].0@) && parts@[k].1@ == self.parts@[k].1@,
            decreases self.parts@.len() - j,
        {
            parts.push((copy_path(&self.parts[j].0), self.parts[j].1.duplicate()));
            j = j + 1;
        }
        let r = PartsDir { label, prefix, dirs, parts };
        assert(path_views(r.dirs@) =~= path_views(self.dirs@));
        assert(part_entry_views(r.parts@) =~= part_entry_views(self.parts@));
        r
    }

    /// Whether the directory holds a subdirectory `key`.
    pub fn is_dir(&self, key: &str) -> (r: bool)
        ensures
            r == dir_at(self@, key@),
    {
        let want = key_path(&self.prefix, key);
        let mut i: usize = 0;
        while i < self.dirs.len()
            invariant
                i <= self.dirs@.len(),
                strs(want@) == self@.prefix.push(key@),
                self@.dirs == path_views(self.dirs@),
                forall|k: int| 0 <= k < i ==> self@.dirs[k] != self@.prefix.push(key@),
            decreases self.dirs@.len() - i,
        {
            if path_eq(&self.dirs[i], &want) {
                assert(self@.dirs[i as int] == self@.prefix.push(key@));
                return true;
            }
            i = i + 1;
        }
        false
    }

    /// The part keyed `key` in the directory, if any.
    pub fn get(&self, key: &str) -> (r: Option<PartLine>)
        ensures
            match part_at(self@, key@) {
                Some(v) => r matches Some(l) && l@ == v,
                None => r is None,
            },
    {
        let want = key_path(&self.prefix, key);
        let ghost ps = self@.parts;
        let mut i: usize = 0;
        assert(ps.skip(0) =~= ps);
        while i < self.parts.len()
            invariant
                i <= self.parts@.len(),
                ps == part_entry_views(self.parts@),
                ps == self@.parts,
                strs(want@) == self@.prefix.push(key@),
                part_in(ps, strs(want@)) == part_in(ps.skip(i as int), strs(want@)),
            decreases self.parts@.len() - i,
        {
            assert(ps.skip(i as int)[0] == (strs(self.parts@[i as int].0@), self.parts@[i as int].1@));
            if path_eq(&self.parts[i].0, &want) {
                return Some(self.parts[i].1.duplicate());
            }
            assert(ps.skip(i as int).drop_first() =~= ps.skip(i + 1));
            i = i + 1;
        }
        None
    }

    /// Whether `key` names a subdirectory or a part of the directory.
    pub fn has(&self, key: &str) -> (r: bool)
        ensures
            r == has_key(self@, key@),
    {
        match self.get(key) {
            Some(_) => true,
            None => self.is_dir(key),
        }
    }

    /// The number of part entries directly in the directory.
    pub fn len(&self) -> (r: usize)
        ensures
            r == parts_under(self@.parts, self@.prefix),
    {
        let ghost ps = self@.parts;
        let mut n: usize = 0;
        let mut i: usize = 0;
        assert(ps.take(0) =~= Seq::<(Seq<Seq<char>>, PartLineView)>::empty());
        while i < self.parts.len()
            invariant
                i <= self.parts@.len(),
                ps == part_entry_views(self.parts@),
                ps == self@.parts,
                self@.prefix == strs(self.prefix@),
                n == parts_under(ps.take(i as int), self@.prefix),
                n <= i,
            decreases self.parts@.len() - i,
        {
            proof {
                assert(ps.take(i + 1).drop_last() =~= ps.take(i as int));
                assert(ps.take(i + 1).last() == ps[i as int]);
            }
            if self.is_child(&self.parts[i].0) {
                n = n + 1;
            }
            i = i + 1;
        }
        assert(ps.take(self.parts@.len() as int) =~= ps);
        n
    }

    fn is_child(&self, path: &Vec<String>) -> (r: bool)
        ensures
            r == (child_key(self@.prefix, strs(path@)) is Some),
    {
        let p = self.prefix.len();
        if path.len() == 0 || path.len() - 1 != p {
            return false;
        }
        let mut i: usize = 0;
        while i < p
            invariant
                p == self.prefix@.len(),
                path@.len() == p + 1,
                i <= p,
                forall|k: int| 0 <= k < i ==> path@[k]@ == self.prefix@[k]@,
            decreases p - i,
        {
            if !str_eq(path[i].as_str(), self.prefix[i].as_str()) {
                assert(strs(path@).take(p as int)[i as int] != strs(self.prefix@)[i as int]);
                return false;
            }
            i = i + 1;
        }
        assert(strs(path@).take(p as int) =~= strs(self.prefix@));
        true
    }

    /// The keys of the directory, subdirectories and parts alike, each once,
    /// in ascending order.
    pub fn keys(&self) -> (r: Vec<String>)
        ensures
            strictly_sorted(strs(r@)),
            forall|x: Seq<char>| strs(r@).contains(x) <==> (
                (exists|i: int| 0 <= i < self@.dirs.len() && child_key(self@.prefix, #[trigger] self@.dirs[i]) == Some(x))
                || (exists|i: int| 0 <= i < self@.parts.len() && child_key(self@.prefix, (#[trigger] self@.parts[i]).0) == Some(x))),
    {
        let mut out: Vec<String> = Vec::new();
        let mut i: usize = 0;
        while i < self.dirs.len()
            invariant
                i <= self.dirs@.len(),
                self@.dirs == path_views(self.dirs@),
                self@.prefix == strs(self.prefix@),
                strictly_sorted(strs(out@)),
                forall|x: Seq<char>| strs(out@).contains(x) <==> (exists|k: int| 0 <= k < i && child_key(self@.prefix, #[trigger] self@.dirs[k]) == Some(x)),
            decreases self.dirs@.len() - i,
        {
            if self.is_child(&self.dirs[i]) {
                let last = self.dirs[i].len() - 1;
                let ghost before = strs(out@);
                insert_sorted(&mut out, self.dirs[i][last].as_str());
                proof {
                    assert(strs(self.dirs@[i as int]@).last() == self.dirs@[i as int]@[last as int]@);
                    assert forall|x: Seq<char>| strs(out@).contains(x) <==> (exists|k: int| 0 <= k < i + 1 && child_key(self@.prefix, #[trigger] self@.dirs[k]) == Some(x)) by {
                        if x == self.dirs@[i as int]@[last as int]@ {
                            assert(child_key(self@.prefix, self@.dirs[i as int]) == Some(x));
                        }
                    }
                }
            } else {
                proof {
                    assert forall|x: Seq<char>| strs(out@).contains(x) <==> (exists|k: int| 0 <= k < i + 1 && child_key(self@.prefix, #[trigger] self@.dirs[k]) == Some(x)) by {
                        if exists|k: int| 0 <= k < i + 1 && child_key(self@.prefix, #[trigger] self@.dirs[k]) == Some(x) {
                            let k = choose|k: int| 0 <= k < i + 1 && child_key(self@.prefix, #[trigger] self@.dirs[k]) == Some(x);
                            assert(k != i);
                        }
                    }
                }
            }
            i = i + 1;
        }
        let mut j: usize = 0;
        while j < self.parts.len()
            invariant
                j <= self.parts@.len(),
                self@.parts == part_entry_views(self.parts@),
                self@.prefix == strs(self.prefix@),
                strictly_sorted(strs(out@)),
                forall|x: Seq<char>| strs(out@).contains(x) <==> (
                    (exists|k: int| 0 <= k < self@.dirs.len() && child_key(self@.prefix, #[trigger] self@.dirs[k]) == Some(x))
                    || (exists|k: int| 0 <= k < j && child_key(self@.prefix, (#[trigger] self@.parts[k]).0) == Some(x))),
            decreases self.parts@.len() - j,
        {
            if self.is_child(&self.parts[j].0) {
                let last = self.parts[j].0.len() - 1;
                insert_sorted(&mut out, self.parts[j].0[last].as_str());
                proof {
                    assert(strs(self.parts@[j as int].0@).last() == self.parts@[j as int].0@[last as int]@);
                    assert forall|x: Seq<char>| strs(out@).contains(x) <==> (
                        (exists|k: int| 0 <= k < self@.dirs.len() && child_key(self@.prefix, #[trigger] self@.dirs[k]) == Some(x))
                        || (exists|k: int| 0 <= k < j + 1 && child_key(self@.prefix, (#[trigger] self@.parts[k]).0) == Some(x))) by {
                        if x == self.parts@[j as int].0@[last as int]@ {
                            assert(child_key(self@.prefix, self@.parts[j as int].0) == Some(x));
                        }
                    }
                }
            } else {
                proof {
                    assert forall|x: Seq<char>| strs(out@).contains(x) <==> (
                        (exists|k: int| 0 <= k < self@.dirs.len() && child_key(self@.prefix, #[trigger] self@.dirs[k]) == Some(x))
                        || (exists|k: int| 0 <= k < j + 1 && child_key(self@.prefix, (#[trigger] self@.parts[k]).0) == Some(x))) by {
                        if exists|k: int| 0 <= k < j + 1 && child_key(self@.prefix, (#[trigger] self@.parts[k]).0) == Some(x) {
                            let k = choose|k: int| 0 <= k < j + 1 && child_key(self@.prefix, (#[trigger] self@.parts[k]).0) == Some(x);
                            assert(k != j);
                        }
                    }
                }
            }
            j = j + 1;
        }
        out
    }

    /// Opens subdirectory `name`: `None` when there is no such key, an
    /// error when the key names a part.
    pub fn opendir(&self, name: &str) -> (r: Result<Option<PartsDir>>)
        ensures
            dir_at(self@, name@) ==> (r matches Ok(Some(d)) && d@ == (PartsDirView {
                label: sub_label(self@.label, name@),
                prefix: self@.prefix.push(name@),
                ..self@
            })),
            !dir_at(self@, name@) && part_at(self@, name@) is Some ==> (r matches Err(Error::Eval(m))
                && m@ == "parts catalog key "@ + name@ + " is a part, not a directory"@),
            !dir_at(self@, name@) && part_at(self@, name@) is None ==> r matches Ok(None),
    {
        if self.is_dir(name) {
            let mut label = chars_of(self.label.as_str());
            label.push('/');
            push_str(&mut label, name);
            assert(label@ =~= sub_label(self@.label, name@));
            return Ok(Some(self.same_catalog(key_path(&self.prefix, name), string_of(label.as_slice()))));
        }
        match self.get(name) {
            Some(_) => {
                let mut text = chars_of("parts catalog key ");
                push_str(&mut text, name);
                push_str(&mut text, " is a part, not a directory");
                Err(Error::Eval(string_of(text.as_slice())))
            },
            None => Ok(None),
        }
    }

    /// Opens the directory at `path`, segment by segment.
    pub fn open_path(&self, path: &[String]) -> (r: Result<PartsDir>)
        ensures
            r is Ok <==> forall|k: int| 0 <= k < path@.len() ==> is_dir_path(self@, #[trigger] (self@.prefix + strs(path@).take(k + 1))),
            r matches Ok(d) ==> d@.dirs == self@.dirs && d@.parts == self@.parts && d@.prefix == self@.prefix + strs(path@),
            r is Err ==> exists|k: int| #![trigger path@[k]] {
                &&& 0 <= k < path@.len()
                &&& forall|j: int| 0 <= j < k ==> is_dir_path(self@, #[trigger] (self@.prefix + strs(path@).take(j + 1)))
                &&& !is_dir_path(self@, self@.prefix + strs(path@).take(k + 1))
                &&& (r matches Err(Error::Eval(m)) && m@ == "parts catalog path segment "@ + path@[k]@ + " is not a directory"@)
            },
    {
        let mut current = self.same_catalog(copy_path(&self.prefix), self.label.clone());
        let mut i: usize = 0;
        while i < path.len()
            invariant
                i <= path@.len(),
                current@.dirs == self@.dirs,
                current@.parts == self@.parts,
                current@.prefix == self@.prefix + strs(path@).take(i as int),
                forall|j: int| 0 <= j < i ==> is_dir_path(self@, #[trigger] (self@.prefix + strs(path@).take(j + 1))),
            decreases path@.len() - i,
        {
            let seg = path[i].as_str();
            proof {
                assert(strs(path@).take(i + 1) =~= strs(path@).take(i as int).push(path@[i as int]@));
                assert(self@.prefix + strs(path@).take(i + 1) =~= current@.prefix.push(seg@));
            }
            if !current.is_dir(seg) {
                let mut text = chars_of("parts catalog path segment ");
                push_str(&mut text, seg);
                push_str(&mut text, " is not a directory");
                return Err(Error::Eval(string_of(text.as_slice())));
            }
            let mut label = chars_of(current.label.as_str());
            label.push('/');
            push_str(&mut label, seg);
            let next = current.same_catalog(key_path(&current.prefix, seg), string_of(label.as_slice()));
            current = next;
            i = i + 1;
        }
        assert(strs(path@).take(path@.len() as int) =~= strs(path@));
        Ok(current)
    }

    /// What `path` reads as: the directory itself for an empty path, else
    /// the part at the last segment of the directory the others open.
    pub fn get_path(&self, path: &[String]) -> (r: Result<CatalogValue>)
        ensures
            path@.len() == 0 ==> (r matches Ok(CatalogValue::Dir(d)) && d@ == self@),
            path@.len() > 0 ==> match r {
                Ok(CatalogValue::Part(l)) => part_in(self@.parts, self@.prefix + strs(path@)) == Some(l@),
                Ok(CatalogValue::Nil) => part_in(self@.parts, self@.prefix + strs(path@)) is None,
                Ok(CatalogValue::Dir(_)) => false,
                Err(_) => true,
            },
            path@.len() > 0 ==> (r is Ok <==> forall|k: int|
                0 <= k < path@.len() - 1 ==> is_dir_path(self@, #[trigger] (self@.prefix + strs(path@).take(k + 1)))),
            path@.len() > 0 && r is Err ==> exists|k: int| #![trigger path@[k]] {
                &&& 0 <= k < path@.len() - 1
                &&& forall|j: int| 0 <= j < k ==> is_dir_path(self@, #[trigger] (self@.prefix + strs(path@).take(j + 1)))
                &&& !is_dir_path(self@, self@.prefix + strs(path@).take(k + 1))
                &&& (r matches Err(Error::Eval(m)) && m@ == "parts catalog path segment "@ + path@[k]@ + " is not a directory"@)
            },
            path_reply(self@, strs(path@), r),
    {
        if path.len() == 0 {
            assert(strs(self.prefix@) == self@.prefix);
            return Ok(CatalogValue::Dir(self.same_catalog(copy_path(&self.prefix), self.label.clone())));
        }
        let last = path.len() - 1;
        let mut parents: Vec<String> = Vec::new();
        let mut i: usize = 0;
        while i < last
            invariant
                i <= last,
                last == path@.len() - 1,
                parents@.len() == i,
                forall|k: int| 0 <= k < i ==> (#[trigger] parents@[k])@ == path@[k]@,
            decreases last - i,
        {
            parents.push(path[i].clone());
            i = i + 1;
        }
        assert(strs(parents@) =~= strs(path@).take(last as int));
        proof {
            assert forall|k: int| 0 <= k < last implies #[trigger] strs(parents@).take(k + 1) == strs(path@).take(k + 1) by {
                assert(strs(parents@).take(k + 1) =~= strs(path@).take(k + 1));
            }
        }
        let dir = match self.open_path(parents.as_slice()) {
            Ok(d) => d,
            Err(e) => {
                proof {
                    let k = choose|k: int| #![trigger parents@[k]] {
                        &&& 0 <= k < parents@.len()
                        &&& forall|j: int| 0 <= j < k ==> is_dir_path(self@, #[trigger] (self@.prefix + strs(parents@).take(j + 1)))
                        &&& !is_dir_path(self@, self@.prefix + strs(parents@).take(k + 1))
                        &&& (Err::<PartsDir, Error>(e) matches Err(Error::Eval(m)) && m@ == "parts catalog path segment "@ + parents@[k]@ + " is not a directory"@)
                    };
                    assert(parents@[k]@ == path@[k]@);
                    assert(strs(parents@).take(k + 1) =~= strs(path@).take(k + 1));
                    assert(!is_dir_path(self@, self@.prefix + strs(path@).take(k + 1)));
                    assert forall|j: int| 0 <= j < k implies is_dir_path(self@, #[trigger] (self@.prefix + strs(path@).take(j + 1))) by {
                        assert(strs(parents@).take(j + 1) =~= strs(path@).take(j + 1));
                        assert(is_dir_path(self@, self@.prefix + strs(parents@).take(j + 1)));
                    }
                    assert(path@[k] == path@[k]);
                    assert(strs(path@)[k] == path@[k]@);
                }
                return Err(e);
            },
        };
        proof {
            assert forall|k: int| 0 <= k < path@.len() - 1 implies is_dir_path(self@, #[trigger] (self@.prefix + strs(path@).take(k + 1))) by {
                assert(strs(parents@).take(k + 1) =~= strs(path@).take(k + 1));
                assert(is_dir_path(self@, self@.prefix + strs(parents@).take(k + 1)));
            }
        }
        assert(self@.prefix + strs(path@) =~= dir@.prefix.push(path@[last as int]@));
        match dir.get(path[last].as_str()) {
            Some(l) => Ok(CatalogValue::Part(l)),
            None => Ok(CatalogValue::Nil),
        }
    }

    /// How the directory displays: `auto/parts-dir[label]`.
    pub fn display(&self) -> (r: String)
        ensures
            r@ == "auto/parts-dir["@ + self@.label + "]"@,
    {
        let mut text = chars_of("auto/parts-dir[");
        push_str(&mut text, self.label.as_str());
        push_str(&mut text, "]");
        string_of(text.as_slice())
    }

    /// Every write is refused: the catalog is immutable.
    pub fn refuse_write(&self) -> (r: Error)
        ensures
            r matches Error::Eval(m) && m@ == immutable_message(),
    {
        Error::Eval("modeled parts catalog is immutable".to_owned())
    }
}

fn path_of(items: &[&str]) -> (r: Vec<String>)
    ensures
        strs(r@) == items@.map_values(|s: &str| s@),
{
    let mut r: Vec<String> = Vec::new();
    let mut i: usize = 0;
    while i < items.len()
        invariant
            i <= items@.len(),
            r@.len() == i,
            forall|k: int| 0 <= k < i ==> (#[trigger] r@[k])@ == items@[k]@,
        decreases items@.len() - i,
    {
        r.push(items[i].to_owned());
        i = i + 1;
    }
    assert(strs(r@) =~= items@.map_values(|s: &str| s@));
    r
}

/// The modeled EPC catalog: engine ignition coil and plug set, front brake
/// pads.
pub open spec fn epc_view() -> PartsDirView {
    PartsDirView {
        label: "epc-modeled"@,
        prefix: Seq::empty(),
        dirs: seq![seq!["engine"@], seq!["engine"@, "ignition"@], seq!["brake"@], seq!["brake"@, "front"@]],
        parts: seq![
            (seq!["engine"@, "ignition"@, "coil-1"@], ("SIM-COIL-1"@, Some("A0001500180"@), "modeled ignition coil for cylinder 1"@, 1u32)),
            (seq!["engine"@, "ignition"@, "plug-set"@], ("SIM-PLUG-SET"@, Some("A0041591803"@), "modeled spark plug service set"@, 1u32)),
            (seq!["brake"@, "front"@, "pad-set"@], ("SIM-PAD-FRONT"@, Some("A0004208700"@), "modeled front brake pad set"@, 1u32)),
        ],
    }
}

/// The modeled aftermarket catalog: one engine ignition coil.
pub open spec fn aftermarket_view() -> PartsDirView {
    PartsDirView {
        label: "aftermarket-modeled"@,
        prefix: Seq::empty(),
        dirs: seq![seq!["engine"@], seq!["engine"@, "ignition"@]],
        parts: seq![
            (seq!["engine"@, "ignition"@, "coil-1"@], ("MEK-SIM-COIL-1"@, Some("A0001500180"@), "modeled aftermarket ignition coil"@, 1u32)),
        ],
    }
}

/// Returns the modeled EPC catalog directory.
pub fn modeled_epc_dir() -> (r: PartsDir)
    ensures
        r@ == epc_view(),
{
    let d1 = path_of(&["engine"]);
    let d2 = path_of(&["engine", "ignition"]);
    let d3 = path_of(&["brake"]);
    let d4 = path_of(&["brake", "front"]);
    assert(strs(d1@) =~= seq!["engine"@]);
    assert(strs(d2@) =~= seq!["engine"@, "ignition"@]);
    assert(strs(d3@) =~= seq!["brake"@]);
    assert(strs(d4@) =~= seq!["brake"@, "front"@]);
    let dirs = vec![d1, d2, d3, d4];
    let parts = vec![
        (path_of(&["engine", "ignition", "coil-1"]), PartLine::new("SIM-COIL-1", Some("A0001500180"), "modeled ignition coil for cylinder 1", 1)),
        (path_of(&["engine", "ignition", "plug-set"]), PartLine::new("SIM-PLUG-SET", Some("A0041591803"), "modeled spark plug service set", 1)),
        (path_of(&["brake", "front", "pad-set"]), PartLine::new("SIM-PAD-FRONT", Some("A0004208700"), "modeled front brake pad set", 1)),
    ];
    let r = PartsDir { label: "epc-modeled".to_owned(), prefix: Vec::new(), dirs, parts };
    proof {
        assert(strs(r.prefix@) =~= Seq::<Seq<char>>::empty());
        assert(seq!["engine"].map_values(|s: &str| s@) =~= seq!["engine"@]);
        assert(seq!["engine", "ignition"].map_values(|s: &str| s@) =~= seq!["engine"@, "ignition"@]);
        assert(seq!["brake"].map_values(|s: &str| s@) =~= seq!["brake"@]);
        assert(seq!["brake", "front"].map_values(|s: &str| s@) =~= seq!["brake"@, "front"@]);
        assert(seq!["engine", "ignition", "coil-1"].map_values(|s: &str| s@) =~= seq!["engine"@, "ignition"@, "coil-1"@]);
        assert(seq!["engine", "ignition", "plug-set"].map_values(|s: &str| s@) =~= seq!["engine"@, "ignition"@, "plug-set"@]);
        assert(seq!["brake", "front", "pad-set"].map_values(|s: &str| s@) =~= seq!["brake"@, "front"@, "pad-set"@]);
        assert(path_views(r.dirs@) =~= epc_view().dirs);
        assert(part_entry_views(r.parts@) =~= epc_view().parts);
    }
    r
}

/// Returns the modeled aftermarket catalog directory.
pub fn modeled_aftermarket_dir() -> (r: PartsDir)
    ensures
        r@ == aftermarket_view(),
{
    let d1 = path_of(&["engine"]);
    let d2 = path_of(&["engine", "ignition"]);
    assert(strs(d1@) =~= seq!["engine"@]);
    assert(strs(d2@) =~= seq!["engine"@, "ignition"@]);
    let dirs = vec![d1, d2];
    let parts = vec![
        (path_of(&["engine", "ignition", "coil-1"]), PartLine::new("MEK-SIM-COIL-1", Some("A0001500180"), "modeled aftermarket ignition coil", 1)),
    ];
    let r = PartsDir { label: "aftermarket-modeled".to_owned(), prefix: Vec::new(), dirs, parts };
    proof {
        assert(strs(r.prefix@) =~= Seq::<Seq<char>>::empty());
        assert(seq!["engine"].map_values(|s: &str| s@) =~= seq!["engine"@]);
        assert(seq!["engine", "ignition"].map_values(|s: &str| s@) =~= seq!["engine"@, "ignition"@]);
        assert(seq!["engine", "ignition", "coil-1"].map_values(|s: &str| s@) =~= seq!["engine"@, "ignition"@, "coil-1"@]);
        assert(path_views(r.dirs@) =~= aftermarket_view().dirs);
        assert(part_entry_views(r.parts@) =~= aftermarket_view().parts);
    }
    r
}

/// Returns the modeled directory for `catalog`.
pub fn parts_dir(catalog: PartsCatalog) -> (r: PartsDir)
    ensures
        r@ == (match catalog {
            PartsCatalog::EpcModeled => epc_view(),
            PartsCatalog::AftermarketModeled => aftermarket_view(),
        }),
{
    match catalog {
        PartsCatalog::EpcModeled => modeled_epc_dir(),
        PartsCatalog::AftermarketModeled => modeled_aftermarket_dir(),
    }
}

/// What `path` reads as in the modeled directory of `catalog`.
pub fn catalog_part(catalog: PartsCatalog, path: &[String]) -> (r: Result<CatalogValue>)
    ensures
        path@.len() == 0 ==> r matches Ok(CatalogValue::Dir(_)),
        path@.len() > 0 ==> match r {
            Ok(CatalogValue::Part(l)) => part_in(parts_dir_view(catalog).parts, strs(path@)) == Some(l@),
            Ok(CatalogValue::Nil) => part_in(parts_dir_view(catalog).parts, strs(path@)) is None,
            Ok(CatalogValue::Dir(_)) => false,
            Err(_) => true,
        },
        path@.len() > 0 ==> (r is Ok <==> forall|k: int|
            0 <= k < path@.len() - 1 ==> is_dir_path(parts_dir_view(catalog), #[trigger] strs(path@).take(k + 1))),
        path@.len() > 0 && r is Err ==> exists|k: int| #![trigger path@[k]] {
            &&& 0 <= k < path@.len() - 1
            &&& !is_dir_path(parts_dir_view(catalog), strs(path@).take(k + 1))
            &&& (r matches Err(Error::Eval(m)) && m@ == "parts catalog path segment "@ + path@[k]@ + " is not a directory"@)
        },
{
    let dir = parts_dir(catalog);
    proof {
        assert(dir@.prefix + strs(path@) =~= strs(path@));
        assert(dir@.prefix.len() == 0);
        assert forall|k: int|
            #![trigger strs(path@).take(k + 1)]
            #![trigger (dir@.prefix + strs(path@).take(k + 1))]
            0 <= k < path@.len() implies (dir@.prefix + strs(path@).take(k + 1)) == strs(path@).take(k + 1) by {
            assert(dir@.prefix + strs(path@).take(k + 1) =~= strs(path@).take(k + 1));
        }
    }
    let r = dir.get_path(path);
    proof {
        if path@.len() > 0 && r is Err {
            let k = choose|k: int| #![trigger path@[k]] {
                &&& 0 <= k < path@.len() - 1
                &&& forall|j: int| 0 <= j < k ==> is_dir_path(dir@, #[trigger] (dir@.prefix + strs(path@).take(j + 1)))
                &&& !is_dir_path(dir@, dir@.prefix + strs(path@).take(k + 1))
                &&& (r matches Err(Error::Eval(m)) && m@ == "parts catalog path segment "@ + path@[k]@ + " is not a directory"@)
            };
            assert(dir@.prefix + strs(path@).take(k + 1) == strs(path@).take(k + 1));
            assert(path@[k] == path@[k]);
        }
    }
    r
}

/// The modeled directory view of a catalog.
pub open spec fn parts_dir_view(catalog: PartsCatalog) -> PartsDirView {
    match catalog {
        PartsCatalog::EpcModeled => epc_view(),
        PartsCatalog::AftermarketModeled => aftermarket_view(),
    }
}

} // verus!
