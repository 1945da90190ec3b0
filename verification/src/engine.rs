//! The backend capability: instance lifecycle operations behind a trait,
//! with a ghost log of every call issued and how it fared, so that the
//! orchestrator's call-sequencing discipline — and the fact that it only
//! fails when a backend call really failed — is part of its contract.

use vstd::prelude::*;

use crate::errors::EngineError;

verus! {

/// Terminal result of one profile's processing.
#[derive(Clone, Copy, Debug, PartialEq, Eq, Structural)]
pub enum CreateOutcome {
    Created,
    AlreadyExists,
    Skipped,
}

/// One call into a backend, as the ghost log records it.
pub ghost enum EngineCall {
    Probe { name: Seq<char> },
    Delete { name: Seq<char> },
    CreateFile { name: Seq<char>, install_dir: Seq<char>, rootfs: Seq<char> },
    CreateDistro { distro: Seq<char>, name: Seq<char> },
}

/// A call that changes what instances exist. Probes are the only
/// non-mutating calls.
pub open spec fn is_mutating(c: EngineCall) -> bool {
    !(c is Probe)
}

/// One backend call together with its result: `ok` records whether the
/// call returned success, so a contract can owe success whenever no call
/// failed.
pub ghost struct EngineEvent {
    pub call: EngineCall,
    pub ok: bool,
}

/// The events of a run in which every one of `calls` succeeded.
pub open spec fn ok_events(calls: Seq<EngineCall>) -> Seq<EngineEvent> {
    Seq::new(calls.len(), |i: int| EngineEvent { call: calls[i], ok: true })
}

/// The events of a run that aborted at its `n`-th call: the first `n - 1`
/// of `calls` succeeded and the `n`-th failed.
pub open spec fn failed_at(calls: Seq<EngineCall>, n: int) -> Seq<EngineEvent> {
    Seq::new(n as nat, |i: int| EngineEvent { call: calls[i], ok: i < n - 1 })
}

/// A concrete backend. `events` is the ghost log of every call issued
/// through the interface, with its result; `instances` is the set of
/// instance names the backend currently knows. Each method records
/// itself; on success its effect on `instances` is pinned, on failure
/// the backend's state is left open (an external tool may fail anywhere).
pub trait WslEngine: Sized {
    /// The ghost log of every call issued so far, with each call's
    /// result. The default stands for backends outside the verifier; a
    /// backend whose methods' contracts are to mean anything overrides
    /// it.
    open spec fn events(&self) -> Seq<EngineEvent> {
        Seq::empty()
    }

    /// The set of instance names the backend knows. Same default.
    open spec fn instances(&self) -> Set<Seq<char>> {
        Set::empty()
    }

    fn instance_exists(&mut self, name: &str) -> (r: Result<bool, EngineError>)
        ensures
            final(self).events() == old(self).events().push(
                EngineEvent { call: EngineCall::Probe { name: name@ }, ok: r is Ok },
            ),
            final(self).instances() == old(self).instances(),
            r matches Ok(b) ==> b == old(self).instances().contains(name@),
    ;

    fn delete_instance(&mut self, name: &str) -> (r: Result<(), EngineError>)
        ensures
            final(self).events() == old(self).events().push(
                EngineEvent { call: EngineCall::Delete { name: name@ }, ok: r is Ok },
            ),
            r is Ok ==> final(self).instances() == old(self).instances().remove(name@),
    ;

    fn create_from_file(&mut self, name: &str, install_dir: &str, rootfs_tar: &str) -> (r:
        Result<(), EngineError>)
        ensures
            final(self).events() == old(self).events().push(
                EngineEvent {
                    call: EngineCall::CreateFile {
                        name: name@,
                        install_dir: install_dir@,
                        rootfs: rootfs_tar@,
                    },
                    ok: r is Ok,
                },
            ),
            r is Ok ==> final(self).instances() == old(self).instances().insert(name@),
    ;

    fn create_from_distro(&mut self, distro_name: &str, name: &str) -> (r: Result<
        (),
        EngineError,
    >)
        ensures
            final(self).events() == old(self).events().push(
                EngineEvent {
                    call: EngineCall::CreateDistro { distro: distro_name@, name: name@ },
                    ok: r is Ok,
                },
            ),
            r is Ok ==> final(self).instances() == old(self).instances().insert(name@),
    ;
}

/// The reserved native-API backend: every method records itself and fails
/// with "not implemented".
pub struct ApiEngine {
    pub event_log: Ghost<Seq<EngineEvent>>,
}

impl ApiEngine {
    pub fn new() -> (e: ApiEngine)
        ensures
            e.events() == Seq::<EngineEvent>::empty(),
            e.instances() == Set::<Seq<char>>::empty(),
    {
        ApiEngine { event_log: Ghost(Seq::empty()) }
    }
}

impl WslEngine for ApiEngine {
    closed spec fn events(&self) -> Seq<EngineEvent> {
        self.event_log@
    }

    closed spec fn instances(&self) -> Set<Seq<char>> {
        Set::empty()
    }

    fn instance_exists(&mut self, name: &str) -> (r: Result<bool, EngineError>)
        ensures
            r matches Err(e) && e is NotImplemented,
    {
        self.event_log = Ghost(
            self.event_log@.push(
                EngineEvent { call: EngineCall::Probe { name: name@ }, ok: false },
            ),
        );
        Err(EngineError::NotImplemented)
    }

    fn delete_instance(&mut self, name: &str) -> (r: Result<(), EngineError>)
        ensures
            r matches Err(e) && e is NotImplemented,
    {
        self.event_log = Ghost(
            self.event_log@.push(
                EngineEvent { call: EngineCall::Delete { name: name@ }, ok: false },
            ),
        );
        Err(EngineError::NotImplemented)
    }

    fn create_from_file(&mut self, name: &str, install_dir: &str, rootfs_tar: &str) -> (r:
        Result<(), EngineError>)
        ensures
            r matches Err(e) && e is NotImplemented,
    {
        self.event_log = Ghost(
            self.event_log@.push(
                EngineEvent {
                    call: EngineCall::CreateFile {
                        name: name@,
                        install_dir: install_dir@,
                        rootfs: rootfs_tar@,
                    },
                    ok: false,
                },
            ),
        );
        Err(EngineError::NotImplemented)
    }

    fn create_from_distro(&mut self, distro_name: &str, name: &str) -> (r: Result<
        (),
        EngineError,
    >)
        ensures
            r matches Err(e) && e is NotImplemented,
    {
        self.event_log = Ghost(
            self.event_log@.push(
                EngineEvent {
                    call: EngineCall::CreateDistro { distro: distro_name@, name: name@ },
                    ok: false,
                },
            ),
        );
        Err(EngineError::NotImplemented)
    }
}

/// An in-memory backend: instance state is a list of names, and exec
/// counters mirror the ghost log, so that unverified callers can observe
/// how many probes and mutations a run issued. Its methods never fail,
/// which is what lets a verified caller conclude that a run completes.
/// It performs no process invocations, which is what lets the
/// orchestrator be exercised in tests.
pub struct FakeEngine {
    pub known: Vec<String>,
    pub n_probes: u64,
    pub n_deletes: u64,
    pub n_creates: u64,
    pub event_log: Ghost<Seq<EngineEvent>>,
}

impl FakeEngine {
    pub fn new() -> (e: FakeEngine)
        ensures
            e.events() == Seq::<EngineEvent>::empty(),
            e.instances() == Set::<Seq<char>>::empty(),
            e.n_probes == 0 && e.n_deletes == 0 && e.n_creates == 0,
    {
        let e = FakeEngine {
            known: Vec::new(),
            n_probes: 0,
            n_deletes: 0,
            n_creates: 0,
            event_log: Ghost(Seq::empty()),
        };
        proof {
            assert(e.instances() =~= Set::<Seq<char>>::empty());
        }
        e
    }

    /// A backend that already knows the given instances.
    pub fn with_instances(known: Vec<String>) -> (e: FakeEngine)
        ensures
            e.events() == Seq::<EngineEvent>::empty(),
            e.instances() == known.deep_view().to_set(),
            e.n_probes == 0 && e.n_deletes == 0 && e.n_creates == 0,
    {
        FakeEngine {
            known,
            n_probes: 0,
            n_deletes: 0,
            n_creates: 0,
            event_log: Ghost(Seq::empty()),
        }
    }

    fn find(&self, name: &str) -> (r: bool)
        ensures
            r == self.instances().contains(name@),
    {
        let key: String = name.to_owned();
        let mut i: usize = 0;
        while i < self.known.len()
            invariant
                key@ == name@,
                0 <= i <= self.known@.len(),
                forall|j: int| 0 <= j < i ==> self.known@[j]@ != name@,
            decreases self.known@.len() - i,
        {
            if self.known[i].eq(&key) {
                assert(self.known.deep_view()[i as int] == name@);
                assert(self.known.deep_view().contains(name@));
                return true;
            }
            i += 1;
        }
        proof {
            assert forall|j: int| 0 <= j < self.known.deep_view().len() implies self.known.deep_view()[j]
                != name@ by {
                assert(self.known@[j]@ != name@);
            }
            assert(!self.known.deep_view().contains(name@));
        }
        false
    }
}

impl WslEngine for FakeEngine {
    closed spec fn events(&self) -> Seq<EngineEvent> {
        self.event_log@
    }

    closed spec fn instances(&self) -> Set<Seq<char>> {
        self.known.deep_view().to_set()
    }

    fn instance_exists(&mut self, name: &str) -> (r: Result<bool, EngineError>)
        ensures
            r == Result::<bool, EngineError>::Ok(old(self).instances().contains(name@)),
    {
        let found = self.find(name);
        self.event_log = Ghost(
            self.event_log@.push(EngineEvent { call: EngineCall::Probe { name: name@ }, ok: true }),
        );
        if self.n_probes < u64::MAX {
            self.n_probes = self.n_probes + 1;
        }
        Ok(found)
    }

    fn delete_instance(&mut self, name: &str) -> (r: Result<(), EngineError>)
        ensures
            r is Ok,
    {
        self.event_log = Ghost(
            self.event_log@.push(
                EngineEvent { call: EngineCall::Delete { name: name@ }, ok: true },
            ),
        );
        if self.n_deletes < u64::MAX {
            self.n_deletes = self.n_deletes + 1;
        }
        let key: String = name.to_owned();
        let ghost before = self.known.deep_view();
        let mut kept: Vec<String> = Vec::new();
        let mut i: usize = 0;
        while i < self.known.len()
            invariant
                key@ == name@,
                0 <= i <= self.known@.len(),
                before == self.known.deep_view(),
                forall|x: Seq<char>| #[trigger] kept.deep_view().contains(x) ==> (
                before.subrange(0, i as int).contains(x) && x != name@),
                forall|j: int|
                    0 <= j < i && before[j] != name@ ==> kept.deep_view().contains(#[trigger] before[j]),
            decreases self.known@.len() - i,
        {
            let ghost kept_before = kept.deep_view();
            if !self.known[i].eq(&key) {
                let entry = self.known[i].clone();
                assert(entry@ == before[i as int]);
                kept.push(entry);
                proof {
                    assert(kept.deep_view() =~= kept_before.push(before[i as int]));
                    assert forall|x: Seq<char>| #[trigger] kept.deep_view().contains(x) implies (
                    before.subrange(0, i as int + 1).contains(x) && x != name@) by {
                        let idx = choose|idx: int|
                            0 <= idx < kept.deep_view().len() && kept.deep_view()[idx] == x;
                        if idx < kept_before.len() {
                            assert(kept_before.contains(x));
                            assert(before.subrange(0, i as int).contains(x));
                            let w = choose|w: int|
                                0 <= w < i && before.subrange(0, i as int)[w] == x;
                            assert(before.subrange(0, i as int + 1)[w] == x);
                        } else {
                            assert(x == before[i as int]);
                            assert(before.subrange(0, i as int + 1)[i as int] == x);
                        }
                    }
                }
            } else {
                proof {
                    assert forall|x: Seq<char>| #[trigger] kept.deep_view().contains(x) implies (
                    before.subrange(0, i as int + 1).contains(x) && x != name@) by {
                        assert(before.subrange(0, i as int).contains(x));
                        let w = choose|w: int| 0 <= w < i && before.subrange(0, i as int)[w] == x;
                        assert(before.subrange(0, i as int + 1)[w] == x);
                    }
                }
            }
            proof {
                assert forall|j: int|
                    0 <= j < i + 1 && before[j] != name@ implies kept.deep_view().contains(
                    #[trigger] before[j],
                ) by {
                    if j < i {
                        let w = choose|w: int|
                            0 <= w < kept_before.len() && kept_before[w] == before[j];
                        assert(kept.deep_view()[w] == before[j]);
                    } else {
                        assert(kept.deep_view()[kept.deep_view().len() - 1] == before[j]);
                    }
                }
            }
            i += 1;
        }
        proof {
            assert(before.subrange(0, before.len() as int) == before);
        }
        self.known = kept;
        proof {
            assert forall|x: Seq<char>| #[trigger] self.instances().contains(x) implies old(
                self,
            ).instances().remove(name@).contains(x) by {
                assert(before.contains(x));
            }
            assert forall|x: Seq<char>| old(self).instances().remove(name@).contains(
                x,
            ) implies #[trigger] self.instances().contains(x) by {
                let w = choose|w: int| 0 <= w < before.len() && before[w] == x;
                assert(self.known.deep_view().contains(before[w]));
            }
            assert(self.instances() =~= old(self).instances().remove(name@));
        }
        Ok(())
    }

    fn create_from_file(&mut self, name: &str, install_dir: &str, rootfs_tar: &str) -> (r:
        Result<(), EngineError>)
        ensures
            r is Ok,
    {
        self.event_log = Ghost(
            self.event_log@.push(
                EngineEvent {
                    call: EngineCall::CreateFile {
                        name: name@,
                        install_dir: install_dir@,
                        rootfs: rootfs_tar@,
                    },
                    ok: true,
                },
            ),
        );
        if self.n_creates < u64::MAX {
            self.n_creates = self.n_creates + 1;
        }
        let ghost before = self.known.deep_view();
        self.known.push(name.to_owned());
        proof {
            assert(self.known.deep_view() =~= before.push(name@));
            lemma_push_to_set_insert(before, name@, self.known.deep_view());
        }
        Ok(())
    }

    fn create_from_distro(&mut self, distro_name: &str, name: &str) -> (r: Result<
        (),
        EngineError,
    >)
        ensures
            r is Ok,
    {
        self.event_log = Ghost(
            self.event_log@.push(
                EngineEvent {
                    call: EngineCall::CreateDistro { distro: distro_name@, name: name@ },
                    ok: true,
                },
            ),
        );
        if self.n_creates < u64::MAX {
            self.n_creates = self.n_creates + 1;
        }
        let ghost before = self.known.deep_view();
        self.known.push(name.to_owned());
        proof {
            assert(self.known.deep_view() =~= before.push(name@));
            lemma_push_to_set_insert(before, name@, self.known.deep_view());
        }
        Ok(())
    }
}

proof fn lemma_push_to_set_insert(before: Seq<Seq<char>>, x: Seq<char>, after: Seq<Seq<char>>)
    requires
        after == before.push(x),
    ensures
        after.to_set() == before.to_set().insert(x),
{
    assert forall|y: Seq<char>| #[trigger] after.to_set().contains(y) implies before.to_set().insert(
        x,
    ).contains(y) by {
        let w = choose|w: int| 0 <= w < after.len() && after[w] == y;
        if w < before.len() {
            assert(before.contains(y));
        }
    }
    assert forall|y: Seq<char>| before.to_set().insert(x).contains(y) implies #[trigger] after.to_set().contains(
        y,
    ) by {
        if y == x {
            assert(after[after.len() - 1] == y);
        } else {
            let w = choose|w: int| 0 <= w < before.len() && before[w] == y;
            assert(after[w] == y);
        }
    }
    assert(after.to_set() =~= before.to_set().insert(x));
}

} // verus!
