//! A thin provider around the chosen backend. It makes deletion idempotent
//! (deleting a non-existent instance is a no-op, not an error) and reports
//! successful creation calls as outcome `Created`; the backend's success
//! implies the instance now exists, and the provider does not re-verify.

use vstd::prelude::*;

use crate::engine::{failed_at, ok_events, CreateOutcome, EngineCall, EngineEvent, WslEngine};
use crate::errors::EngineError;

verus! {

/// Which concrete backend to run: the process-invocation backend or the
/// reserved native-API backend.
#[derive(Clone, Copy, Debug, PartialEq, Eq, Structural)]
pub enum EngineKind {
    Cli,
    Api,
}

/// The calls an idempotent delete issues: one probe, then the real delete
/// only when the instance existed.
pub open spec fn delete_calls(name: Seq<char>, existed: bool) -> Seq<EngineCall> {
    if existed {
        seq![EngineCall::Probe { name }, EngineCall::Delete { name }]
    } else {
        seq![EngineCall::Probe { name }]
    }
}

pub struct WslProvider<E: WslEngine> {
    engine: E,
}

impl<E: WslEngine> WslProvider<E> {
    /// The ghost log of every backend call issued through this provider,
    /// with each call's result.
    pub closed spec fn events(&self) -> Seq<EngineEvent> {
        self.engine.events()
    }

    /// The set of instance names the backend currently knows.
    pub closed spec fn instances(&self) -> Set<Seq<char>> {
        self.engine.instances()
    }

    pub fn new(engine: E) -> (p: Self)
        ensures
            p.events() == engine.events(),
            p.instances() == engine.instances(),
    {
        WslProvider { engine }
    }

    /// Hand the backend back, with everything it has recorded.
    pub fn into_engine(self) -> (e: E)
        ensures
            e.events() == self.events(),
            e.instances() == self.instances(),
    {
        self.engine
    }

    /// A look at the backend, with everything it has recorded.
    pub fn engine_ref(&self) -> (e: &E)
        ensures
            e.events() == self.events(),
            e.instances() == self.instances(),
    {
        &self.engine
    }

    pub fn instance_exists(&mut self, name: &str) -> (r: Result<bool, EngineError>)
        ensures
            final(self).events() == old(self).events().push(
                EngineEvent { call: EngineCall::Probe { name: name@ }, ok: r is Ok },
            ),
            final(self).instances() == old(self).instances(),
            r matches Ok(b) ==> b == old(self).instances().contains(name@),
    {
        self.engine.instance_exists(name)
    }

    /// Idempotent delete: probe first, and only delete what exists. It
    /// fails exactly when a backend call failed; the failed call is the
    /// last event recorded.
    pub fn delete_instance(&mut self, name: &str) -> (r: Result<(), EngineError>)
        ensures
            r is Ok ==> final(self).events() == old(self).events() + ok_events(
                delete_calls(name@, old(self).instances().contains(name@)),
            ) && final(self).instances() == old(self).instances().remove(name@),
            r is Err ==> exists|n: int|
                1 <= n <= delete_calls(name@, old(self).instances().contains(name@)).len() && final(self).events() == old(self).events() + failed_at(
                    delete_calls(name@, old(self).instances().contains(name@)),
                    n,
                ),
            r is Err ==> (final(self).events().len() == old(self).events().len() + 1 ==> final(self).instances() == old(self).instances()),
    {
        let ghost start = self.events();
        let existed = match self.engine.instance_exists(name) {
            Ok(b) => b,
            Err(e) => {
                proof {
                    assert(self.events() =~= start + failed_at(
                        delete_calls(name@, old(self).instances().contains(name@)),
                        1,
                    ));
                }
                return Err(e);
            },
        };
        if !existed {
            proof {
                assert(self.events() =~= start + ok_events(delete_calls(name@, false)));
                assert(old(self).instances().remove(name@) =~= old(self).instances());
            }
            return Ok(());
        }
        match self.engine.delete_instance(name) {
            Ok(()) => {
                proof {
                    assert(self.events() =~= start + ok_events(delete_calls(name@, true)));
                }
                Ok(())
            },
            Err(e) => {
                proof {
                    assert(self.events() =~= start + failed_at(delete_calls(name@, true), 2));
                }
                Err(e)
            },
        }
    }

    pub fn create_from_file(&mut self, name: &str, install_dir: &str, rootfs_tar: &str) -> (r:
        Result<CreateOutcome, EngineError>)
        ensures
            final(self).events() == old(self).events().push(
                EngineEvent {
                    call: EngineCall::CreateFile {
                        name: name@,
                        install_dir: install_dir@,
                        rootfs: rootfs_tar@,
                    },
                    ok: r is Ok,
                },
            ),
            r matches Ok(outcome) ==> outcome == CreateOutcome::Created && final(self).instances()
                == old(self).instances().insert(name@),
    {
        match self.engine.create_from_file(name, install_dir, rootfs_tar) {
            Ok(()) => Ok(CreateOutcome::Created),
            Err(e) => Err(e),
        }
    }

    pub fn create_from_distro(&mut self, distro_name: &str, hostname: &str) -> (r: Result<
        CreateOutcome,
        EngineError,
    >)
        ensures
            final(self).events() == old(self).events().push(
                EngineEvent {
                    call: EngineCall::CreateDistro { distro: distro_name@, name: hostname@ },
                    ok: r is Ok,
                },
            ),
            r matches Ok(outcome) ==> outcome == CreateOutcome::Created && final(self).instances()
                == old(self).instances().insert(hostname@),
    {
        match self.engine.create_from_distro(distro_name, hostname) {
            Ok(()) => Ok(CreateOutcome::Created),
            Err(e) => Err(e),
        }
    }
}

} // verus!
