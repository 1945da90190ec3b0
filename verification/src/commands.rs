//! Free-standing instance commands over a backend: the idempotent delete
//! and the guarded create. Both probe before they mutate, their contracts
//! pin the exact calls issued, and both fail only when a backend call
//! really failed — the failed call is the last event recorded.

use vstd::prelude::*;

use crate::config::AppConfig;
use crate::engine::{failed_at, ok_events, EngineCall, WslEngine};
use crate::errors::EngineError;
use crate::manager::create_call_of;
use crate::provider::delete_calls;

verus! {

/// Delete the named instance if it exists; deleting a non-existent
/// instance is a no-op, not an error.
pub fn delete_instance_if_exists<E: WslEngine>(engine: &mut E, instance_name: &str) -> (r: Result<
    (),
    EngineError,
>)
    ensures
        r is Ok ==> final(engine).events() == old(engine).events() + ok_events(
            delete_calls(instance_name@, old(engine).instances().contains(instance_name@)),
        ) && final(engine).instances() == old(engine).instances().remove(instance_name@),
        r is Err ==> exists|n: int|
            1 <= n <= delete_calls(
                instance_name@,
                old(engine).instances().contains(instance_name@),
            ).len() && final(engine).events() == old(engine).events() + failed_at(
                delete_calls(instance_name@, old(engine).instances().contains(instance_name@)),
                n,
            ),
        r is Err ==> (final(engine).events().len() == old(engine).events().len() + 1 ==> final(engine).instances() == old(engine).instances()),
{
    let ghost start = engine.events();
    let ghost existed = old(engine).instances().contains(instance_name@);
    let exists_now = match engine.instance_exists(instance_name) {
        Ok(b) => b,
        Err(e) => {
            proof {
                assert(engine.events() =~= start + failed_at(
                    delete_calls(instance_name@, existed),
                    1,
                ));
            }
            return Err(e);
        },
    };
    if !exists_now {
        proof {
            assert(engine.events() =~= start + ok_events(delete_calls(instance_name@, false)));
            assert(old(engine).instances().remove(instance_name@) =~= old(engine).instances());
        }
        return Ok(());
    }
    match engine.delete_instance(instance_name) {
        Ok(()) => {
            proof {
                assert(engine.events() =~= start + ok_events(delete_calls(instance_name@, true)));
            }
            Ok(())
        },
        Err(e) => {
            proof {
                assert(engine.events() =~= start + failed_at(
                    delete_calls(instance_name@, true),
                    2,
                ));
            }
            Err(e)
        },
    }
}

/// The calls a guarded create issues: the probe, then the create only
/// when nothing of that name existed.
pub open spec fn guarded_create_calls(p: AppConfig, existed: bool) -> Seq<EngineCall> {
    if existed {
        seq![EngineCall::Probe { name: p.hostname@ }]
    } else {
        seq![EngineCall::Probe { name: p.hostname@ }, create_call_of(p)]
    }
}

/// Create the profile's instance unless one of that name already exists:
/// import the archive or install the catalog distro, always under the
/// hostname. An existing instance is left untouched.
pub fn create_instance<E: WslEngine>(engine: &mut E, profile: &AppConfig) -> (r: Result<
    (),
    EngineError,
>)
    ensures
        r is Ok ==> final(engine).events() == old(engine).events() + ok_events(
            guarded_create_calls(*profile, old(engine).instances().contains(profile.hostname@)),
        ),
        r is Ok && old(engine).instances().contains(profile.hostname@) ==> final(engine).instances()
            == old(engine).instances(),
        r is Ok && !old(engine).instances().contains(profile.hostname@) ==> final(engine).instances() == old(engine).instances().insert(profile.hostname@),
        r is Err ==> exists|n: int|
            1 <= n <= guarded_create_calls(
                *profile,
                old(engine).instances().contains(profile.hostname@),
            ).len() && final(engine).events() == old(engine).events() + failed_at(
                guarded_create_calls(
                    *profile,
                    old(engine).instances().contains(profile.hostname@),
                ),
                n,
            ),
        r is Err ==> (final(engine).events().len() == old(engine).events().len() + 1 ==> final(engine).instances() == old(engine).instances()),
{
    let ghost start = engine.events();
    let ghost existed = old(engine).instances().contains(profile.hostname@);
    let exists_now = match engine.instance_exists(profile.hostname.as_str()) {
        Ok(b) => b,
        Err(e) => {
            proof {
                assert(engine.events() =~= start + failed_at(
                    guarded_create_calls(*profile, existed),
                    1,
                ));
            }
            return Err(e);
        },
    };
    if exists_now {
        proof {
            assert(engine.events() =~= start + ok_events(guarded_create_calls(*profile, true)));
        }
        return Ok(());
    }
    let outcome = match &profile.image {
        crate::config::ImageSource::File { path } => {
            let install_dir = crate::manager::install_dir_string(profile);
            engine.create_from_file(profile.hostname.as_str(), install_dir.as_str(), path.as_str())
        },
        crate::config::ImageSource::Distro { name } => {
            engine.create_from_distro(name.as_str(), profile.hostname.as_str())
        },
    };
    match outcome {
        Ok(()) => {
            proof {
                assert(engine.events() =~= start + ok_events(
                    guarded_create_calls(*profile, false),
                ));
            }
            Ok(())
        },
        Err(e) => {
            proof {
                assert(engine.events() =~= start + failed_at(
                    guarded_create_calls(*profile, false),
                    2,
                ));
            }
            Err(e)
        },
    }
}

} // verus!
