//! Values that activities are configured with and exchange.

use vstd::prelude::*;

use crate::protocol::SpawnMode;

verus! {

/// A named value produced by one activity for later ones.
#[derive(Clone, Debug, PartialEq, Eq)]
pub enum ArtifactValue {
    StringList(Vec<String>),
}

/// The type tag of an [`ArtifactValue`].
#[derive(Clone, Copy, Debug, PartialEq, Eq, Structural)]
pub enum ArtifactValueType {
    StringList,
}

pub open spec fn strings_view(v: Seq<String>) -> Seq<Seq<char>> {
    v.map_values(|s: String| s@)
}

impl View for ArtifactValue {
    type V = Seq<Seq<char>>;

    open spec fn view(&self) -> Seq<Seq<char>> {
        match self {
            ArtifactValue::StringList(v) => strings_view(v@),
        }
    }
}

/// A copy of `v` with the same strings.
pub fn copy_strings(v: &Vec<String>) -> (r: Vec<String>)
    ensures
        strings_view(r@) == strings_view(v@),
{
    let mut r: Vec<String> = Vec::new();
    let mut i: usize = 0;
    while i < v.len()
        invariant
            i <= v@.len(),
            r@.len() == i,
            forall|j: int| 0 <= j < i ==> (#[trigger] r@[j])@ == v@[j]@,
        decreases v@.len() - i,
    {
        let s: String = v[i].clone();
        r.push(s);
        i += 1;
    }
    assert(strings_view(r@) =~= strings_view(v@));
    r
}

/// Owned copies of `cfg`.
pub fn strings_of(cfg: &[&str]) -> (r: Vec<String>)
    ensures
        r@.len() == cfg@.len(),
        forall|i: int| 0 <= i < cfg@.len() ==> (#[trigger] r@[i])@ == cfg@[i]@,
{
    let mut r: Vec<String> = Vec::new();
    let mut i: usize = 0;
    while i < cfg.len()
        invariant
            i <= cfg@.len(),
            r@.len() == i,
            forall|j: int| 0 <= j < i ==> (#[trigger] r@[j])@ == cfg@[j]@,
        decreases cfg@.len() - i,
    {
        r.push(String::from_str(cfg[i]));
        i += 1;
    }
    r
}

impl ArtifactValue {
    pub fn value_type(&self) -> (r: ArtifactValueType)
        ensures
            r == ArtifactValueType::StringList,
    {
        match self {
            ArtifactValue::StringList(_) => ArtifactValueType::StringList,
        }
    }

    /// A copy holding the same value.
    pub fn duplicate(&self) -> (r: ArtifactValue)
        ensures
            r@ == self@,
    {
        match self {
            ArtifactValue::StringList(v) => ArtifactValue::StringList(copy_strings(v)),
        }
    }
}

/// An INI-file like configuration: global `key=value` lines and named
/// sections of such lines.
#[derive(Clone, Debug, Default, PartialEq, Eq)]
pub struct IniLike {
    pub global: Vec<String>,
    pub sections: Vec<(String, Vec<String>)>,
}

impl IniLike {
    /// A configuration with the given global lines and no section.
    pub fn with_global(cfg: &[&str]) -> (r: IniLike)
        ensures
            r.global@.len() == cfg@.len(),
            forall|i: int| 0 <= i < cfg@.len() ==> (#[trigger] r.global@[i])@ == cfg@[i]@,
            r.sections@.len() == 0,
    {
        IniLike { global: strings_of(cfg), sections: Vec::new() }
    }

    /// Appends a section named `name` with the lines `cfg`.
    pub fn section(self, name: &str, cfg: &[&str]) -> (r: IniLike)
        ensures
            r.global == self.global,
            r.sections@.len() == self.sections@.len() + 1,
            r.sections@.subrange(0, self.sections@.len() as int) == self.sections@,
            r.sections@.last().0@ == name@,
            r.sections@.last().1@.len() == cfg@.len(),
            forall|i: int|
                0 <= i < cfg@.len() ==> (#[trigger] r.sections@.last().1@[i])@ == cfg@[i]@,
    {
        let mut s = self;
        let old_sections = Ghost(s.sections@);
        s.sections.push((String::from_str(name), strings_of(cfg)));
        assert(s.sections@.subrange(0, old_sections@.len() as int) =~= old_sections@);
        s
    }
}

/// A typed activity argument.
#[derive(Clone, Debug, PartialEq, Eq)]
pub enum ConfigValue {
    String(String),
    T2String(String, String),
    /// A duration in milliseconds.
    Time(u64),
    Ini(IniLike),
    PollArgs { pattern: String, hint: Option<String> },
    LaunchArgs { comm: String, mode: SpawnMode, args: Vec<String>, hint: Option<String> },
}

} // verus!
