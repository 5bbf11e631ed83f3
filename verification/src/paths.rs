//! Paths as a base directory that comes from outside (the home directory,
//! the application's resource directory) and relative parts below it.
use vstd::prelude::*;

use std::path::PathBuf;

use crate::text::views;

verus! {

#[verifier::external_type_specification]
#[verifier::external_body]
pub struct ExPathBuf(std::path::PathBuf);

/// A path: `base` followed by the relative parts `parts`, in order.
pub struct AppPath {
    pub base: PathBuf,
    pub parts: Vec<String>,
}

/// The views of a vector of strings.
pub open spec fn string_views(v: Seq<String>) -> Seq<Seq<char>> {
    v.map_values(|p: String| p@)
}

/// The view of a path: its base and its relative parts.
pub struct AppPathView {
    pub base: PathBuf,
    pub parts: Seq<Seq<char>>,
}

impl View for AppPath {
    type V = AppPathView;

    open spec fn view(&self) -> AppPathView {
        AppPathView { base: self.base, parts: string_views(self.parts@) }
    }
}

/// The path `base` followed by `parts`.
pub open spec fn path_view(base: PathBuf, parts: Seq<Seq<char>>) -> AppPathView {
    AppPathView { base, parts }
}

impl AppPath {
    /// The relative parts of the path.
    pub open spec fn parts_view(&self) -> Seq<Seq<char>> {
        string_views(self.parts@)
    }

    /// The path `base` followed by `parts`.
    pub fn new(base: PathBuf, parts: &[&str]) -> (r: AppPath)
        ensures
            r@ == path_view(base, views(parts@)),
    {
        let mut v: Vec<String> = Vec::new();
        let mut i: usize = 0;
        while i < parts.len()
            invariant
                i <= parts@.len(),
                string_views(v@) == views(parts@.take(i as int)),
            decreases parts@.len() - i,
        {
            let ghost before = v@;
            v.push(String::from_str(parts[i]));
            assert(string_views(v@) =~= string_views(before).push(parts@[i as int]@));
            assert(views(parts@.take(i + 1)) =~= views(parts@.take(i as int)).push(
                parts@[i as int]@,
            ));
            i = i + 1;
        }
        assert(parts@.take(parts@.len() as int) =~= parts@);
        AppPath { base, parts: v }
    }
}

impl AppPath {
    /// A copy of the path.
    pub fn duplicate(&self) -> (r: AppPath)
        ensures
            r@ == self@,
    {
        let mut parts: Vec<String> = Vec::new();
        let mut i: usize = 0;
        while i < self.parts.len()
            invariant
                i <= self.parts@.len(),
                string_views(parts@) == string_views(self.parts@.take(i as int)),
            decreases self.parts@.len() - i,
        {
            let ghost before = parts@;
            parts.push(self.parts[i].clone());
            assert(string_views(parts@) =~= string_views(before).push(self.parts@[i as int]@));
            assert(string_views(self.parts@.take(i + 1)) =~= string_views(
                self.parts@.take(i as int),
            ).push(self.parts@[i as int]@));
            i = i + 1;
        }
        assert(self.parts@.take(self.parts@.len() as int) =~= self.parts@);
        AppPath { base: clone_path(&self.base), parts }
    }
}

/// The user's home directory, as `dirs::home_dir` finds it.
///
/// Trusted: calls `dirs::home_dir`, which reads the environment (and on Unix
/// may fall back to the password database); nothing is stated of the result,
/// which depends on the machine.
#[verifier::external_body]
pub fn home_dir() -> Option<PathBuf> {
    dirs::home_dir()
}

/// A copy of a path.
///
/// Trusted: calls `<PathBuf as Clone>::clone`, which the standard library
/// documents as producing an equal path.
#[verifier::external_body]
pub fn clone_path(p: &PathBuf) -> (r: PathBuf)
    ensures
        r == *p,
{
    p.clone()
}

} // verus!
