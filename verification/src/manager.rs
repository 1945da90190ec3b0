//! The per-profile orchestrator. One existence probe decides the run:
//! with override off an existing instance is left alone; with override on
//! an existing instance is deleted first (under dry-run, only logged);
//! then the image source is validated, the cloud-init artifact rendered
//! and planned, and — outside dry-run — the instance created.
//!
//! Creation is split in two: [`WslManager::create_instance`] performs
//! everything up to and including the write plan, and
//! [`WslManager::finish_create`] issues the backend create call. The
//! caller writes the planned artifact between the two, so the artifact is
//! on disk before the instance can first boot.
//!
//! The contracts pin the exact backend call sequence of both halves
//! against [`planned_calls`], and they owe success: a run may only fail
//! with an engine error whose failed call stands recorded in the event
//! log, an image error when the image source really is invalid, or a
//! template error whose cause is pinned over the renderer's named
//! results.

use vstd::prelude::*;
use vstd::string::*;

use crate::cloud_init::{
    content_renders, prepare_cloud_init, render_success_witness, source_text,
    template_error_witness, CloudInitInput, CloudInitPlan,
};
use crate::config::{AppConfig, ImageSource};
use crate::engine::{
    failed_at, is_mutating, ok_events, CreateOutcome, EngineCall, EngineEvent, WslEngine,
};
use crate::errors::{EngineError, EnvironmentError, WslError};
use crate::provider::{delete_calls, WslProvider};
use crate::validation::{
    catalog_view, env_ok, image_source_valid, image_warning, validate_environment,
    validate_image_source, EnvironmentReport,
};

verus! {

/// Where a file-image instance is installed: the profile's install
/// directory, joined with the hostname.
pub open spec fn install_dir_of(p: AppConfig) -> Seq<char> {
    p.install_dir@ + "/"@ + p.hostname@
}

/// The exec join of install directory and hostname.
pub fn install_dir_string(profile: &AppConfig) -> (r: String)
    ensures
        r@ == install_dir_of(*profile),
{
    let mut r = profile.install_dir.clone();
    r.append("/");
    r.append(profile.hostname.as_str());
    proof {
        assert(r@ =~= install_dir_of(*profile));
    }
    r
}

/// The one backend create call a profile asks for: import the archive,
/// or install the catalog distro — always under the instance's hostname,
/// never the distro name.
pub open spec fn create_call_of(p: AppConfig) -> EngineCall {
    match p.image {
        ImageSource::File { path } => EngineCall::CreateFile {
            name: p.hostname@,
            install_dir: install_dir_of(p),
            rootfs: path@,
        },
        ImageSource::Distro { name } => EngineCall::CreateDistro {
            distro: name@,
            name: p.hostname@,
        },
    }
}

/// Whether the decision procedure reaches the create step.
pub open spec fn proceeds_to_create(p: AppConfig, existed: bool, dry_run: bool) -> bool {
    (p.override_instance || !existed) && !dry_run
}

/// The backend calls of the decision phase: the probe, then — only with
/// override on, an existing instance, and no dry-run — the idempotent
/// delete (which itself probes once more).
pub open spec fn begin_calls(p: AppConfig, existed: bool, dry_run: bool) -> Seq<EngineCall> {
    let probe = EngineCall::Probe { name: p.hostname@ };
    if p.override_instance && existed && !dry_run {
        seq![probe] + delete_calls(p.hostname@, true)
    } else {
        seq![probe]
    }
}

/// Every backend call a successful run issues for one profile.
pub open spec fn planned_calls(p: AppConfig, existed: bool, dry_run: bool) -> Seq<EngineCall> {
    if proceeds_to_create(p, existed, dry_run) {
        begin_calls(p, existed, dry_run).push(create_call_of(p))
    } else {
        begin_calls(p, existed, dry_run)
    }
}

/// The outcome a run decides, given what the probe found.
pub open spec fn decided_outcome(p: AppConfig, existed: bool, dry_run: bool) -> CreateOutcome {
    if !p.override_instance && existed {
        CreateOutcome::AlreadyExists
    } else if dry_run {
        CreateOutcome::Skipped
    } else {
        CreateOutcome::Created
    }
}

/// What the host answered for one profile: the file-image existence
/// probe, the raw catalog listing (absent when the query failed), and the
/// cloud-init inputs.
pub struct HostContext {
    pub image_file_exists: bool,
    pub catalog_raw: Option<Vec<u8>>,
    pub cloud_init: CloudInitInput,
}

/// The handover between the two halves of a creation: it names the
/// profile and the backend state it was issued for, and only
/// [`WslManager::create_instance`] can mint one.
pub struct CreateFlow {
    profile_snapshot: Ghost<AppConfig>,
    events_snapshot: Ghost<Seq<EngineEvent>>,
    instances_snapshot: Ghost<Set<Seq<char>>>,
}

impl CreateFlow {
    pub closed spec fn for_profile(&self, p: AppConfig) -> bool {
        self.profile_snapshot@ == p
    }

    pub closed spec fn at_events(&self, events: Seq<EngineEvent>) -> bool {
        self.events_snapshot@ == events
    }

    pub closed spec fn at_instances(&self, instances: Set<Seq<char>>) -> bool {
        self.instances_snapshot@ == instances
    }
}

/// How one profile's processing stands after the decision phase.
pub enum CreateStep {
    /// The run is over: the instance already existed, or dry-run stopped
    /// short of creating. The plan still holds any debug copy to write.
    /// `warning` reports the non-fatal archive-name heuristic (never for
    /// an instance left alone, whose image was not examined).
    Done { outcome: CreateOutcome, plan: CloudInitPlan, warning: bool },
    /// The artifact writes of `plan` are owed now; then
    /// [`WslManager::finish_create`] creates the instance. `warning` as
    /// in `Done`.
    Ready { plan: CloudInitPlan, flow: CreateFlow, warning: bool },
}

pub struct WslManager<E: WslEngine> {
    provider: WslProvider<E>,
}

impl<E: WslEngine> WslManager<E> {
    /// The ghost log of every backend call this manager has issued, with
    /// each call's result.
    pub closed spec fn events(&self) -> Seq<EngineEvent> {
        self.provider.events()
    }

    /// The set of instance names the backend currently knows.
    pub closed spec fn instances(&self) -> Set<Seq<char>> {
        self.provider.instances()
    }

    pub fn new(engine: E) -> (m: Self)
        ensures
            m.events() == engine.events(),
            m.instances() == engine.instances(),
    {
        WslManager { provider: WslProvider::new(engine) }
    }

    /// A second name for [`Self::new`], for call sites that read better
    /// naming the engine explicitly.
    pub fn with_engine(engine: E) -> (m: Self)
        ensures
            m.events() == engine.events(),
            m.instances() == engine.instances(),
    {
        Self::new(engine)
    }

    /// Hand the backend back, with everything it has recorded.
    pub fn into_inner_engine(self) -> (e: E)
        ensures
            e.events() == self.events(),
            e.instances() == self.instances(),
    {
        self.provider.into_engine()
    }

    /// A look at the backend, with everything it has recorded.
    pub fn engine_ref(&self) -> (e: &E)
        ensures
            e.events() == self.events(),
            e.instances() == self.instances(),
    {
        self.provider.engine_ref()
    }

    /// The run-wide environment validation, executed once before the
    /// per-profile loop; it issues no backend calls.
    pub fn validate_environment(&self, report: &EnvironmentReport, dry_run: bool) -> (r: Result<
        (),
        EnvironmentError,
    >)
        ensures
            r is Ok <==> env_ok(*report, dry_run),
    {
        validate_environment(report, dry_run)
    }

    /// The probe-and-override phase: decide from one existence probe
    /// whether to proceed, deleting an existing instance first when
    /// override asks for it (outside dry-run). It fails exactly when a
    /// backend call failed; the failed call is the last event recorded.
    fn handle_override(&mut self, profile: &AppConfig, dry_run: bool) -> (r: Result<
        bool,
        EngineError,
    >)
        ensures
            r matches Ok(proceed) ==> ({
                let existed = old(self).instances().contains(profile.hostname@);
                &&& proceed == (profile.override_instance || !existed)
                &&& final(self).events() == old(self).events() + ok_events(
                    begin_calls(*profile, existed, dry_run),
                )
                &&& final(self).instances() == if profile.override_instance && existed && !dry_run {
                    old(self).instances().remove(profile.hostname@)
                } else {
                    old(self).instances()
                }
            }),
            r is Err ==> exists|n: int|
                1 <= n <= begin_calls(
                    *profile,
                    old(self).instances().contains(profile.hostname@),
                    dry_run,
                ).len() && final(self).events() == old(self).events() + failed_at(
                    begin_calls(
                        *profile,
                        old(self).instances().contains(profile.hostname@),
                        dry_run,
                    ),
                    n,
                ),
            r is Err ==> (final(self).events().len() == old(self).events().len() + 1 ==> final(self).instances() == old(self).instances()),
    {
        let ghost start = self.events();
        let ghost existed = old(self).instances().contains(profile.hostname@);
        let exists_now = match self.provider.instance_exists(profile.hostname.as_str()) {
            Ok(b) => b,
            Err(e) => {
                proof {
                    assert(self.events() =~= start + failed_at(
                        begin_calls(*profile, existed, dry_run),
                        1,
                    ));
                }
                return Err(e);
            },
        };
        if profile.override_instance {
            if !exists_now {
                proof {
                    assert(self.events() =~= start + ok_events(
                        begin_calls(*profile, existed, dry_run),
                    ));
                }
                Ok(true)
            } else if dry_run {
                proof {
                    assert(self.events() =~= start + ok_events(
                        begin_calls(*profile, existed, dry_run),
                    ));
                }
                Ok(true)
            } else {
                match self.provider.delete_instance(profile.hostname.as_str()) {
                    Ok(()) => {
                        proof {
                            assert(self.events() =~= start + ok_events(
                                begin_calls(*profile, existed, dry_run),
                            ));
                        }
                        Ok(true)
                    },
                    Err(e) => {
                        proof {
                            let ghost probe = EngineEvent {
                                call: EngineCall::Probe { name: profile.hostname@ },
                                ok: true,
                            };
                            assert(start.push(probe) =~= start + seq![probe]);
                            let n = choose|n: int|
                                1 <= n <= 2 && self.events() == start.push(probe) + failed_at(
                                    delete_calls(profile.hostname@, true),
                                    n,
                                );
                            assert(self.events() =~= start + failed_at(
                                begin_calls(*profile, existed, dry_run),
                                1 + n,
                            ));
                        }
                        Err(e)
                    },
                }
            }
        } else if exists_now {
            proof {
                assert(self.events() =~= start + ok_events(
                    begin_calls(*profile, existed, dry_run),
                ));
            }
            Ok(false)
        } else {
            proof {
                assert(self.events() =~= start + ok_events(
                    begin_calls(*profile, existed, dry_run),
                ));
            }
            Ok(true)
        }
    }

    /// Dispatch the one create call on the image-source variant.
    fn create_profile(&mut self, profile: &AppConfig) -> (r: Result<CreateOutcome, EngineError>)
        ensures
            final(self).events() == old(self).events().push(
                EngineEvent { call: create_call_of(*profile), ok: r is Ok },
            ),
            r matches Ok(outcome) ==> outcome == CreateOutcome::Created && final(self).instances()
                == old(self).instances().insert(profile.hostname@),
    {
        match &profile.image {
            ImageSource::File { path } => {
                let install_dir = install_dir_string(profile);
                self.provider.create_from_file(
                    profile.hostname.as_str(),
                    install_dir.as_str(),
                    path.as_str(),
                )
            },
            ImageSource::Distro { name } => {
                self.provider.create_from_distro(name.as_str(), profile.hostname.as_str())
            },
        }
    }

    /// Process one profile up to the write plan: probe and apply the
    /// override policy, validate the image source, render and plan the
    /// cloud-init artifact. Exactly the calls of [`begin_calls`] are
    /// issued, all successful when the run goes on; failure is owed a
    /// cause — a failed backend call in the event log, an invalid image
    /// source, or a pinned template failure.
    pub fn create_instance(
        &mut self,
        _profile_name: &str,
        profile: &AppConfig,
        host: &HostContext,
        dry_run: bool,
        debug: bool,
    ) -> (r: Result<CreateStep, WslError>)
        ensures
            ({
                let existed = old(self).instances().contains(profile.hostname@);
                let begin = begin_calls(*profile, existed, dry_run);
                let image_ok = image_source_valid(
                    profile.image,
                    host.image_file_exists,
                    catalog_view(host.catalog_raw),
                );
                &&& (r matches Ok(step) ==> final(self).events() == old(self).events() + ok_events(
                    begin,
                ))
                &&& (r matches Ok(step) ==> (step matches CreateStep::Done {
                    outcome,
                    plan,
                    warning,
                } ==> {
                    &&& outcome == decided_outcome(*profile, existed, dry_run)
                    &&& !proceeds_to_create(*profile, existed, dry_run)
                    &&& plan.target is None
                    &&& (outcome is Skipped ==> image_ok && warning == image_warning(profile.image))
                    &&& (outcome is Skipped ==> (profile.cloud_init is Some ==> (source_text(
                        *profile,
                        host.cloud_init,
                    ) matches Some(tpl) && render_success_witness(*profile, tpl))))
                    &&& (outcome is AlreadyExists ==> !warning)
                    &&& (outcome is AlreadyExists ==> final(self).instances() == old(
                        self,
                    ).instances() && final(self).events() == old(self).events().push(
                        EngineEvent {
                            call: EngineCall::Probe { name: profile.hostname@ },
                            ok: true,
                        },
                    ))
                }))
                &&& (r matches Ok(step) ==> (step matches CreateStep::Ready {
                    plan,
                    flow,
                    warning,
                } ==> {
                    &&& image_ok
                    &&& warning == image_warning(profile.image)
                    &&& proceeds_to_create(*profile, existed, dry_run)
                    &&& decided_outcome(*profile, existed, dry_run) == CreateOutcome::Created
                    &&& flow.for_profile(*profile)
                    &&& flow.at_events(final(self).events())
                    &&& flow.at_instances(final(self).instances())
                    &&& (profile.cloud_init is Some ==> (plan.target matches Some(w)
                        && (source_text(*profile, host.cloud_init) matches Some(tpl)
                        && content_renders(*profile, tpl, w.content@))))
                    &&& (profile.cloud_init is None ==> plan.target is None && plan.debug_copy
                        is None)
                }))
                &&& (r matches Ok(step) ==> (step is Ready <==> proceeds_to_create(
                    *profile,
                    existed,
                    dry_run,
                )))
                &&& (r matches Err(e) ==> (e is Engine || e is Image || e is Template))
                &&& (r matches Err(e) ==> (e is Engine ==> exists|n: int|
                    1 <= n <= begin.len() && final(self).events() == old(self).events()
                        + failed_at(begin, n)))
                &&& (r matches Err(e) ==> (e is Image ==> !image_ok && final(self).events() == old(
                    self,
                ).events() + ok_events(begin)))
                &&& (r matches Err(e) ==> (e matches WslError::Template(te) ==> image_ok
                    && profile.cloud_init is Some && final(self).events() == old(self).events()
                    + ok_events(begin) && template_error_witness(te, *profile, host.cloud_init)))
                &&& (r matches Err(e) ==> (!(e is Engine) ==> final(self).instances() == (
                if profile.override_instance && existed && !dry_run {
                    old(self).instances().remove(profile.hostname@)
                } else {
                    old(self).instances()
                })))
                &&& (r matches Err(e) ==> (e is Engine ==> (final(self).events().len() == old(
                    self,
                ).events().len() + 1 ==> final(self).instances() == old(self).instances())))
            }),
    {
        let ghost existed = old(self).instances().contains(profile.hostname@);
        let ghost start = self.events();
        let proceed = match self.handle_override(profile, dry_run) {
            Ok(p) => p,
            Err(e) => {
                return Err(WslError::Engine(e));
            },
        };
        if !proceed {
            proof {
                assert(self.events() =~= start + ok_events(
                    begin_calls(*profile, existed, dry_run),
                ));
                assert(self.events() =~= start.push(
                    EngineEvent { call: EngineCall::Probe { name: profile.hostname@ }, ok: true },
                ));
            }
            return Ok(
                CreateStep::Done {
                    outcome: CreateOutcome::AlreadyExists,
                    plan: CloudInitPlan { target: None, debug_copy: None },
                    warning: false,
                },
            );
        }
        let warn = match validate_image_source(profile, host.image_file_exists, &host.catalog_raw) {
            Ok(w) => w,
            Err(e) => {
                return Err(WslError::Image(e));
            },
        };
        let plan = match prepare_cloud_init(profile, &host.cloud_init, dry_run, debug) {
            Ok(p) => p,
            Err(e) => {
                return Err(WslError::Template(e));
            },
        };
        if dry_run {
            return Ok(CreateStep::Done { outcome: CreateOutcome::Skipped, plan, warning: warn });
        }
        let flow = CreateFlow {
            profile_snapshot: Ghost(*profile),
            events_snapshot: Ghost(self.events()),
            instances_snapshot: Ghost(self.instances()),
        };
        Ok(CreateStep::Ready { plan, flow, warning: warn })
    }

    /// The second half of a creation: issue the one backend create call
    /// for the profile the flow was minted for. It fails exactly when
    /// that call failed, and the failed call stands recorded.
    pub fn finish_create(&mut self, flow: CreateFlow, profile: &AppConfig) -> (r: Result<
        CreateOutcome,
        WslError,
    >)
        requires
            flow.for_profile(*profile),
            flow.at_events(old(self).events()),
            flow.at_instances(old(self).instances()),
        ensures
            final(self).events() == old(self).events().push(
                EngineEvent { call: create_call_of(*profile), ok: r is Ok },
            ),
            r matches Ok(outcome) ==> outcome == CreateOutcome::Created && final(self).instances()
                == old(self).instances().insert(profile.hostname@),
            r matches Err(e) ==> e is Engine,
    {
        let _ = flow;
        match self.create_profile(profile) {
            Ok(outcome) => Ok(outcome),
            Err(e) => Err(WslError::Engine(e)),
        }
    }

    /// The outcome message for this run, phrased for the image-source
    /// variant that produced it.
    pub fn log_create_outcome(&self, outcome: CreateOutcome, hostname: &str, is_distro: bool) -> (r:
        String)
        ensures
            r@ == crate::reporting::outcome_message_spec(outcome, hostname@, is_distro),
    {
        crate::reporting::outcome_message(outcome, hostname, is_distro)
    }

    /// The summary lines of one profile, as logged before creation.
    pub fn log_config_summary(&self, profile_name: &str, profile: &AppConfig) -> (r: Vec<String>)
        ensures
            exists|shown: Seq<char>|
                {
                    &&& #[trigger] r.deep_view() == crate::reporting::summary_lines_spec(
                        profile_name@,
                        *profile,
                        shown,
                    )
                    &&& (crate::helpers::placeholder_free(profile.install_dir@) ==> shown
                        == profile.install_dir@)
                },
    {
        crate::reporting::log_config_summary(profile_name, profile)
    }
}

/// Every run probes before it mutates: the planned sequence opens with
/// the existence probe, and every mutating call stands strictly after it.
pub proof fn lemma_probe_before_mutation(p: AppConfig, existed: bool, dry_run: bool)
    ensures
        planned_calls(p, existed, dry_run).len() > 0,
        planned_calls(p, existed, dry_run)[0] == (EngineCall::Probe { name: p.hostname@ }),
        forall|i: int|
            0 <= i < planned_calls(p, existed, dry_run).len() && is_mutating(
                #[trigger] planned_calls(p, existed, dry_run)[i],
            ) ==> i >= 1,
{
}

/// With override off against an existing instance, a run is exactly one
/// probe with outcome `AlreadyExists`: no create, no delete, and the
/// backend state unchanged — so every repetition decides the same way.
pub proof fn lemma_already_exists_idempotent(p: AppConfig, dry_run: bool)
    requires
        !p.override_instance,
    ensures
        planned_calls(p, true, dry_run) == seq![EngineCall::Probe { name: p.hostname@ }],
        decided_outcome(p, true, dry_run) == CreateOutcome::AlreadyExists,
        forall|i: int|
            0 <= i < planned_calls(p, true, dry_run).len() ==> !is_mutating(
                #[trigger] planned_calls(p, true, dry_run)[i],
            ),
{
    assert(planned_calls(p, true, dry_run) =~= seq![EngineCall::Probe { name: p.hostname@ }]);
}

/// With override on against an existing instance, outside dry-run, the
/// run deletes exactly once, strictly before its one create call.
pub proof fn lemma_override_deletes_once_before_create(p: AppConfig)
    requires
        p.override_instance,
    ensures
        planned_calls(p, true, false) == seq![
            EngineCall::Probe { name: p.hostname@ },
            EngineCall::Probe { name: p.hostname@ },
            EngineCall::Delete { name: p.hostname@ },
            create_call_of(p),
        ],
        planned_calls(p, true, false)[2] is Delete,
        forall|i: int|
            0 <= i < planned_calls(p, true, false).len() && i != 2 ==> !(
            #[trigger] planned_calls(p, true, false)[i] is Delete),
        !(create_call_of(p) is Delete),
        !(create_call_of(p) is Probe),
{
    assert(planned_calls(p, true, false) =~= seq![
        EngineCall::Probe { name: p.hostname@ },
        EngineCall::Probe { name: p.hostname@ },
        EngineCall::Delete { name: p.hostname@ },
        create_call_of(p),
    ]);
}

/// The calls of `n` back-to-back runs against an instance that exists and
/// stays: each run leaves the backend state unchanged, so each plans the
/// same calls.
pub open spec fn repeated_run_calls(p: AppConfig, dry_run: bool, n: nat) -> Seq<EngineCall>
    decreases n,
{
    if n == 0 {
        Seq::empty()
    } else {
        repeated_run_calls(p, dry_run, (n - 1) as nat) + planned_calls(p, true, dry_run)
    }
}

/// Idempotence of repetition: with override off against an existing
/// instance, every one of `n` repeated runs decides `AlreadyExists`, and
/// together they issue exactly `n` probes — no mutation ever.
pub proof fn lemma_repeated_runs_idempotent(p: AppConfig, dry_run: bool, n: nat)
    requires
        !p.override_instance,
    ensures
        decided_outcome(p, true, dry_run) == CreateOutcome::AlreadyExists,
        repeated_run_calls(p, dry_run, n).len() == n,
        forall|i: int|
            0 <= i < n ==> #[trigger] repeated_run_calls(p, dry_run, n)[i] == (EngineCall::Probe {
                name: p.hostname@,
            }),
    decreases n,
{
    lemma_already_exists_idempotent(p, dry_run);
    if n > 0 {
        lemma_repeated_runs_idempotent(p, dry_run, (n - 1) as nat);
    }
}

/// Under dry-run no backend mutation is ever planned, and a would-be-new
/// instance's outcome is `Skipped`.
pub proof fn lemma_dry_run_no_mutations(p: AppConfig, existed: bool)
    ensures
        forall|i: int|
            0 <= i < planned_calls(p, existed, true).len() ==> !is_mutating(
                #[trigger] planned_calls(p, existed, true)[i],
            ),
        !existed ==> decided_outcome(p, existed, true) == CreateOutcome::Skipped,
        !(!p.override_instance && existed) ==> decided_outcome(p, existed, true)
            == CreateOutcome::Skipped,
{
    assert(planned_calls(p, existed, true) =~= seq![EngineCall::Probe { name: p.hostname@ }]);
}

} // verus!
