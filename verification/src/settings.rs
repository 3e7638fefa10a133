//! Static configuration of the metrics writer.

use vstd::prelude::*;

verus! {

/// A key with its value: a static tag of the configuration, or a tag of a
/// point.
#[derive(Debug)]
pub struct SettingsPair {
    pub key: String,
    pub val: String,
}

impl View for SettingsPair {
    type V = (Seq<char>, Seq<char>);

    open spec fn view(&self) -> (Seq<char>, Seq<char>) {
        (self.key@, self.val@)
    }
}

impl Clone for SettingsPair {
    fn clone(&self) -> (out: Self)
        ensures
            out@ == self@,
    {
        SettingsPair { key: self.key.clone(), val: self.val.clone() }
    }
}

/// The pairs of a vector, in order, each as a key and a value.
pub open spec fn pairs_view(v: Seq<SettingsPair>) -> Seq<(Seq<char>, Seq<char>)> {
    Seq::new(v.len(), |i: int| v[i]@)
}

/// A copy of a vector of pairs.
pub fn clone_pairs(v: &Vec<SettingsPair>) -> (out: Vec<SettingsPair>)
    ensures
        pairs_view(out@) == pairs_view(v@),
{
    let mut out: Vec<SettingsPair> = Vec::new();
    let mut i: usize = 0;
    while i < v.len()
        invariant
            i <= v.len(),
            out@.len() == i,
            forall|j: int| 0 <= j < i ==> (#[trigger] out@[j])@ == v@[j]@,
        decreases v.len() - i,
    {
        out.push(v[i].clone());
        i += 1;
    }
    assert(pairs_view(out@) =~= pairs_view(v@));
    out
}

/// What the writer is configured with: whether it writes at all, where the
/// database is, how to authenticate, and the static tags of every point.
#[derive(Debug)]
pub struct InfluxSettings {
    pub enable: bool,
    pub token: String,
    pub bucket: String,
    pub org: String,
    pub url: String,
    pub tags: Vec<SettingsPair>,
}

/// The configuration as plain values.
pub struct SettingsView {
    pub enable: bool,
    pub token: Seq<char>,
    pub bucket: Seq<char>,
    pub org: Seq<char>,
    pub url: Seq<char>,
    pub tags: Seq<(Seq<char>, Seq<char>)>,
}

impl View for InfluxSettings {
    type V = SettingsView;

    open spec fn view(&self) -> SettingsView {
        SettingsView {
            enable: self.enable,
            token: self.token@,
            bucket: self.bucket@,
            org: self.org@,
            url: self.url@,
            tags: pairs_view(self.tags@),
        }
    }
}

impl Clone for InfluxSettings {
    fn clone(&self) -> (out: Self)
        ensures
            out@ == self@,
    {
        InfluxSettings {
            enable: self.enable,
            token: self.token.clone(),
            bucket: self.bucket.clone(),
            org: self.org.clone(),
            url: self.url.clone(),
            tags: clone_pairs(&self.tags),
        }
    }
}

} // verus!
