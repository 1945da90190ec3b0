//! Profile data: the validated, defaulted description of one instance.

use vstd::prelude::*;

use crate::text::{lemma_lex_total, lemma_lex_transitive, lex_lt, str_lt};

verus! {

/// Provenance of the instance's root filesystem: either a catalog
/// distribution name or a root-filesystem archive on disk.
#[derive(Clone, Debug)]
pub enum ImageSource {
    Distro { name: String },
    File { path: String },
}

/// Provenance of the first-boot configuration text: a file on disk (the
/// path may hold environment-variable placeholders) or inline text.
#[derive(Clone, Debug)]
pub enum CloudInitSource {
    File { path: String },
    Inline { content: String },
}

/// One instance profile. Profiles are read-only inputs for a run's
/// duration; the hostname names both the instance and its artifacts.
#[derive(Clone, Debug)]
pub struct AppConfig {
    pub hostname: String,
    pub username: String,
    pub password: Option<String>,
    pub http_proxy: Option<String>,
    pub https_proxy: Option<String>,
    pub no_proxy: Option<String>,
    pub install_dir: String,
    pub cloud_init: Option<CloudInitSource>,
    pub override_instance: bool,
    pub image: ImageSource,
}

pub fn default_hostname() -> (r: String)
    ensures
        r@ == "UbuntuWSL"@,
{
    "UbuntuWSL".to_owned()
}

pub fn default_username() -> (r: String)
    ensures
        r@ == "wsluser"@,
{
    "wsluser".to_owned()
}

pub fn default_install_dir() -> (r: String)
    ensures
        r@ == "%userprofile%/VMs"@,
{
    "%userprofile%/VMs".to_owned()
}

pub fn default_cloud_init_path() -> (r: String)
    ensures
        r@ == "cloud-init.yaml"@,
{
    "cloud-init.yaml".to_owned()
}

pub fn default_distro() -> (r: String)
    ensures
        r@ == "Ubuntu"@,
{
    "Ubuntu".to_owned()
}

impl Default for ImageSource {
    fn default() -> (r: Self)
        ensures
            r matches ImageSource::Distro { name } && name@ == "Ubuntu"@,
    {
        ImageSource::Distro { name: default_distro() }
    }
}

/// The root configuration: profiles keyed by name, iterated in strictly
/// ascending key order, so multi-profile runs are deterministic.
pub struct RootConfig {
    entries: Vec<(String, AppConfig)>,
}

impl RootConfig {
    /// The profiles in iteration order.
    pub closed spec fn entries_view(&self) -> Seq<(String, AppConfig)> {
        self.entries@
    }

    /// The keys in iteration order.
    pub open spec fn key_seq(&self) -> Seq<Seq<char>> {
        Seq::new(self.entries_view().len(), |i: int| self.entries_view()[i].0@)
    }

    /// Keys strictly ascend, so each occurs once and iteration order is
    /// the sorted key order.
    pub open spec fn wf(&self) -> bool {
        forall|i: int|
            0 <= i < self.key_seq().len() - 1 ==> lex_lt(
                #[trigger] self.key_seq()[i],
                self.key_seq()[i + 1],
            )
    }

    /// Adjacent ascent gives ascent between any two positions.
    pub proof fn lemma_sorted(&self)
        requires
            self.wf(),
        ensures
            forall|i: int, j: int|
                0 <= i < j < self.key_seq().len() ==> lex_lt(
                    #[trigger] self.key_seq()[i],
                    #[trigger] self.key_seq()[j],
                ),
    {
        let keys = self.key_seq();
        assert forall|i: int, j: int| 0 <= i < j < keys.len() implies lex_lt(
            #[trigger] keys[i],
            #[trigger] keys[j],
        ) by {
            self.lemma_sorted_from(i, j);
        }
    }

    proof fn lemma_sorted_from(&self, i: int, j: int)
        requires
            self.wf(),
            0 <= i < j < self.key_seq().len(),
        ensures
            lex_lt(self.key_seq()[i], self.key_seq()[j]),
        decreases j - i,
    {
        if j == i + 1 {
        } else {
            self.lemma_sorted_from(i, j - 1);
            assert(lex_lt(self.key_seq()[j - 1], self.key_seq()[j]));
            lemma_lex_transitive(self.key_seq()[i], self.key_seq()[j - 1], self.key_seq()[j]);
        }
    }

    pub fn new() -> (r: RootConfig)
        ensures
            r.wf(),
            r.entries_view().len() == 0,
    {
        RootConfig { entries: Vec::new() }
    }

    /// How many profiles are configured.
    pub fn len(&self) -> (n: usize)
        ensures
            n == self.entries_view().len(),
    {
        self.entries.len()
    }

    /// The profile at one iteration position.
    pub fn entry_at(&self, i: usize) -> (r: &(String, AppConfig))
        requires
            i < self.entries_view().len(),
        ensures
            *r == self.entries_view()[i as int],
    {
        &self.entries[i]
    }

    /// Insert a profile under its name, keeping keys sorted; a profile
    /// already configured under that name is replaced.
    pub fn insert(&mut self, name: String, profile: AppConfig) -> (replaced: bool)
        requires
            old(self).wf(),
        ensures
            final(self).wf(),
            replaced == old(self).key_seq().contains(name@),
            final(self).key_seq().contains(name@),
            exists|i: int|
                {
                    &&& 0 <= i < final(self).entries_view().len()
                    &&& #[trigger] final(self).entries_view()[i] == (name, profile)
                    &&& (if replaced {
                        final(self).entries_view() == old(self).entries_view().update(
                            i,
                            (name, profile),
                        )
                    } else {
                        final(self).entries_view() == old(self).entries_view().take(i).push(
                            (name, profile),
                        ) + old(self).entries_view().skip(i)
                    })
                },
    {
        proof {
            self.lemma_sorted();
        }
        let ghost before = self.entries@;
        let mut idx: usize = 0;
        while idx < self.entries.len() && str_lt(self.entries[idx].0.as_str(), name.as_str())
            invariant
                0 <= idx <= self.entries@.len(),
                before == self.entries@,
                forall|t: int| 0 <= t < idx ==> lex_lt(#[trigger] before[t].0@, name@),
            decreases self.entries@.len() - idx,
        {
            idx += 1;
        }
        proof {
            assert forall|t: int|
                idx <= t < before.len() implies !lex_lt(#[trigger] before[t].0@, name@) by {
                if lex_lt(before[t].0@, name@) {
                    assert(!lex_lt(before[idx as int].0@, name@));
                    if t > idx {
                        assert(lex_lt(
                            old(self).key_seq()[idx as int],
                            old(self).key_seq()[t],
                        ));
                        lemma_lex_transitive(before[idx as int].0@, before[t].0@, name@);
                    }
                }
            }
        }
        if idx < self.entries.len() && self.entries[idx].0.eq(&name) {
            self.entries.remove(idx);
            self.entries.insert(idx, (name, profile));
            proof {
                assert(self.entries@ =~= before.update(idx as int, self.entries@[idx as int]));
                assert(self.key_seq() =~= old(self).key_seq().update(
                    idx as int,
                    self.entries@[idx as int].0@,
                ));
                assert(old(self).key_seq()[idx as int] == name@);
                assert(self.key_seq() =~= old(self).key_seq());
                assert(old(self).key_seq().contains(name@));
                assert(self.key_seq().contains(name@));
                assert(self.entries@[idx as int] == (name, profile));
            }
            true
        } else {
            proof {
                if idx < before.len() {
                    lemma_lex_total(before[idx as int].0@, name@);
                    assert(lex_lt(name@, before[idx as int].0@));
                }
                assert forall|t: int|
                    0 <= t < old(self).key_seq().len() implies #[trigger] old(self).key_seq()[t]
                    != name@ by {
                    if t < idx {
                        crate::text::lemma_lex_irreflexive(name@);
                    } else if t == idx {
                    } else {
                        assert(lex_lt(old(self).key_seq()[idx as int], old(self).key_seq()[t]));
                        if old(self).key_seq()[t] == name@ {
                            lemma_lex_transitive(
                                name@,
                                before[idx as int].0@,
                                old(self).key_seq()[t],
                            );
                            crate::text::lemma_lex_irreflexive(name@);
                        }
                    }
                }
                assert(!old(self).key_seq().contains(name@));
            }
            self.entries.insert(idx, (name, profile));
            proof {
                assert(self.entries@ =~= before.take(idx as int).push((name, profile))
                    + before.skip(idx as int));
                assert(self.entries@[idx as int] == (name, profile));
                assert(self.key_seq()[idx as int] == name@);
                assert(self.key_seq().contains(name@));
                assert forall|i: int|
                    0 <= i < self.key_seq().len() - 1 implies lex_lt(
                    #[trigger] self.key_seq()[i],
                    self.key_seq()[i + 1],
                ) by {
                    if i + 1 < idx {
                        assert(lex_lt(old(self).key_seq()[i], old(self).key_seq()[i + 1]));
                    } else if i + 1 == idx {
                        assert(lex_lt(before[i].0@, name@));
                    } else if i == idx {
                        assert(!lex_lt(before[i].0@, name@));
                        assert(lex_lt(name@, before[i].0@));
                    } else {
                        assert(lex_lt(old(self).key_seq()[i - 1], old(self).key_seq()[i]));
                    }
                }
            }
            false
        }
    }

    /// Look a profile up by name.
    pub fn get(&self, name: &str) -> (r: Option<&AppConfig>)
        ensures
            r is Some <==> self.key_seq().contains(name@),
            r matches Some(p) ==> exists|i: int|
                0 <= i < self.entries_view().len() && #[trigger] self.entries_view()[i].0@ == name@
                    && self.entries_view()[i].1 == *p,
    {
        let key: String = name.to_owned();
        let mut i: usize = 0;
        while i < self.entries.len()
            invariant
                key@ == name@,
                0 <= i <= self.entries@.len(),
                forall|t: int| 0 <= t < i ==> #[trigger] self.key_seq()[t] != name@,
            decreases self.entries@.len() - i,
        {
            if self.entries[i].0.eq(&key) {
                proof {
                    assert(self.key_seq()[i as int] == name@);
                    assert(self.key_seq().contains(name@));
                }
                return Some(&self.entries[i].1);
            }
            i += 1;
        }
        proof {
            assert forall|t: int|
                0 <= t < self.key_seq().len() implies #[trigger] self.key_seq()[t] != name@ by {}
            assert(!self.key_seq().contains(name@));
        }
        None
    }
}

} // verus!
