//! Decision logic for locating, installing and upgrading the language-server
//! package.
//!
//! The host editor owns every effect: checking whether the entry script is on
//! disk, querying npm versions, installing the package, and posting status
//! notifications. This module decides *which* of those effects to run next.
//! A resolution is a run of the state machine below: the driver starts at
//! [`Phase::Start`] with [`Event::Begin`], performs the [`HostQuery`] each
//! [`Step::Ask`] names (posting the notification first, when one is attached),
//! and feeds the outcome back as the next [`Event`], until [`Step::Done`]
//! delivers the relative path of the entry script or an error.

use vstd::prelude::*;
use vstd::string::StringExecFns;

verus! {

/// Relative path at which the installed package's entry script must reside.
pub open spec fn spec_server_path() -> Seq<char> {
    "node_modules/@bajrangcoder/unocss-language-server/bin/index.js"@
}

/// npm name of the language-server package.
pub open spec fn spec_package_name() -> Seq<char> {
    "@bajrangcoder/unocss-language-server"@
}

/// Error reported when an install succeeds but the entry script is absent.
pub open spec fn spec_missing_script_error() -> Seq<char> {
    "installed package '@bajrangcoder/unocss-language-server' did not contain expected path 'node_modules/@bajrangcoder/unocss-language-server/bin/index.js'"@
}

pub fn server_path() -> (r: &'static str)
    ensures
        r@ == spec_server_path(),
{
    "node_modules/@bajrangcoder/unocss-language-server/bin/index.js"
}

pub fn package_name() -> (r: &'static str)
    ensures
        r@ == spec_package_name(),
{
    "@bajrangcoder/unocss-language-server"
}

fn missing_script_error() -> (r: String)
    ensures
        r@ == spec_missing_script_error(),
{
    String::from_str(
        "installed package '@bajrangcoder/unocss-language-server' did not contain expected path 'node_modules/@bajrangcoder/unocss-language-server/bin/index.js'",
    )
}

/// Installation-status notification for the host to display.
pub enum StatusNote {
    CheckingForUpdate,
    Downloading,
}

/// An effect the driver must perform on the machine's behalf.
pub enum HostQuery {
    /// Does the entry script exist on disk? Answer with [`Event::ServerExists`].
    ServerExists,
    /// Latest published version of the package. Answer with [`Event::LatestVersion`].
    LatestVersion,
    /// Currently installed version, if any. Answer with [`Event::InstalledVersion`].
    InstalledVersion,
    /// Install the named version of the package. Answer with [`Event::InstallFinished`].
    Install(String),
}

/// What the machine asks of its driver after a step.
pub enum Step {
    /// Post `notify` (when present), perform `query`, feed the outcome back.
    Ask { notify: Option<StatusNote>, query: HostQuery },
    /// Resolution finished: the entry script's relative path, or an error.
    Done(Result<String, String>),
}

/// Where a resolution stands between steps.
pub enum Phase {
    Start,
    AwaitExists,
    AwaitLatest { script_found: bool },
    AwaitInstalled { script_found: bool, latest: String },
    AwaitInstall,
    AwaitRecheck { install_error: Option<String> },
    Finished,
}

/// The driver's answer to the previous [`HostQuery`].
pub enum Event {
    Begin,
    ServerExists(bool),
    LatestVersion(Result<String, String>),
    InstalledVersion(Result<Option<String>, String>),
    InstallFinished(Result<(), String>),
}

/// The events a phase can consume: each phase accepts exactly the answers to
/// the query it asked for.
pub open spec fn accepts(phase: Phase, event: Event) -> bool {
    match (phase, event) {
        (Phase::Start, Event::Begin) => true,
        (Phase::AwaitExists, Event::ServerExists(_)) => true,
        (Phase::AwaitLatest { .. }, Event::LatestVersion(_)) => true,
        (Phase::AwaitInstalled { .. }, Event::InstalledVersion(_)) => true,
        (Phase::AwaitInstall, Event::InstallFinished(_)) => true,
        (Phase::AwaitRecheck { .. }, Event::ServerExists(_)) => true,
        _ => false,
    }
}

/// The installed version is present and equals the latest published one.
/// Versions are opaque strings, compared only for equality.
pub open spec fn installed_is_latest(installed: Option<String>, latest: String) -> bool {
    installed matches Some(v) && v@ == latest@
}

/// The step delivers the entry script's relative path.
pub open spec fn done_with_path(step: Step) -> bool {
    step matches Step::Done(r) && r matches Ok(p) && p@ == spec_server_path()
}

/// The install outcome carried into the recheck: `None` for success, the
/// install error otherwise.
pub open spec fn install_error_of(r: Result<(), String>) -> Option<String> {
    match r {
        Ok(_) => None,
        Err(e) => Some(e),
    }
}

/// The resolver's transition relation: from flag `flag0` and phase `phase`,
/// consuming `event`, the machine moves to flag `flag1` and phase `phase1`
/// and answers `step`. False on any phase/event pair `accepts` refuses.
pub open spec fn transition(
    flag0: bool,
    phase: Phase,
    event: Event,
    flag1: bool,
    phase1: Phase,
    step: Step,
) -> bool {
    match (phase, event) {
        (Phase::Start, Event::Begin) => {
            &&& flag1 == flag0
            &&& phase1 == Phase::AwaitExists
            &&& step == (Step::Ask { notify: None, query: HostQuery::ServerExists })
        },
        (Phase::AwaitExists, Event::ServerExists(script_found)) => {
            if flag0 && script_found {
                &&& flag1 == flag0
                &&& phase1 == Phase::Finished
                &&& done_with_path(step)
            } else {
                &&& flag1 == flag0
                &&& phase1 == (Phase::AwaitLatest { script_found })
                &&& step == (Step::Ask {
                    notify: Some(StatusNote::CheckingForUpdate),
                    query: HostQuery::LatestVersion,
                })
            }
        },
        (Phase::AwaitLatest { script_found }, Event::LatestVersion(res)) => {
            match res {
                Ok(latest) => {
                    &&& flag1 == flag0
                    &&& phase1 == (Phase::AwaitInstalled { script_found, latest })
                    &&& step == (Step::Ask { notify: None, query: HostQuery::InstalledVersion })
                },
                Err(error) => {
                    &&& flag1 == flag0
                    &&& phase1 == Phase::Finished
                    &&& step == Step::Done(Err(error))
                },
            }
        },
        (Phase::AwaitInstalled { script_found, latest }, Event::InstalledVersion(res)) => {
            match res {
                Ok(installed) => {
                    if !script_found || !installed_is_latest(installed, latest) {
                        &&& flag1 == flag0
                        &&& phase1 == Phase::AwaitInstall
                        &&& step == (Step::Ask {
                            notify: Some(StatusNote::Downloading),
                            query: HostQuery::Install(latest),
                        })
                    } else {
                        &&& flag1 == true
                        &&& phase1 == Phase::Finished
                        &&& done_with_path(step)
                    }
                },
                Err(error) => {
                    &&& flag1 == flag0
                    &&& phase1 == Phase::Finished
                    &&& step == Step::Done(Err(error))
                },
            }
        },
        (Phase::AwaitInstall, Event::InstallFinished(res)) => {
            &&& flag1 == flag0
            &&& phase1 == (Phase::AwaitRecheck { install_error: install_error_of(res) })
            &&& step == (Step::Ask { notify: None, query: HostQuery::ServerExists })
        },
        (Phase::AwaitRecheck { install_error }, Event::ServerExists(script_found)) => {
            if script_found {
                &&& flag1 == true
                &&& phase1 == Phase::Finished
                &&& done_with_path(step)
            } else {
                match install_error {
                    None => {
                        &&& flag1 == flag0
                        &&& phase1 == Phase::Finished
                        &&& step matches Step::Done(r) && r matches Err(m) && m@
                            == spec_missing_script_error()
                    },
                    Some(error) => {
                        &&& flag1 == flag0
                        &&& phase1 == Phase::Finished
                        &&& step == Step::Done(Err(error))
                    },
                }
            }
        },
        _ => false,
    }
}

/// Fast path: when the script was found before (`did_find_server` true) and
/// the initial existence check answers true, the resolution finishes right
/// after that check — no version query, no install, and no status
/// notification is ever asked of the driver.
pub proof fn fast_path_needs_no_oracle(
    flag1: bool,
    p1: Phase,
    s1: Step,
    flag2: bool,
    p2: Phase,
    s2: Step,
)
    requires
        transition(true, Phase::Start, Event::Begin, flag1, p1, s1),
        transition(flag1, p1, Event::ServerExists(true), flag2, p2, s2),
    ensures
        s1 == (Step::Ask { notify: None, query: HostQuery::ServerExists }),
        p2 == Phase::Finished,
        flag2,
        done_with_path(s2),
{
}

/// When the existence check answered false, the machine orders an install of
/// the latest version whatever the installed-version oracle reported — even a
/// version equal to the latest one.
pub proof fn absent_script_forces_install(
    latest: String,
    installed: Option<String>,
    flag0: bool,
    flag1: bool,
    p1: Phase,
    s1: Step,
)
    requires
        transition(
            flag0,
            Phase::AwaitInstalled { script_found: false, latest },
            Event::InstalledVersion(Ok(installed)),
            flag1,
            p1,
            s1,
        ),
    ensures
        p1 == Phase::AwaitInstall,
        s1 == (Step::Ask {
            notify: Some(StatusNote::Downloading),
            query: HostQuery::Install(latest),
        }),
{
}

/// When the script exists and the installed version equals the latest one,
/// the resolution finishes without ordering an install.
pub proof fn matching_version_skips_install(
    latest: String,
    installed: String,
    flag0: bool,
    flag1: bool,
    p1: Phase,
    s1: Step,
)
    requires
        installed@ == latest@,
        transition(
            flag0,
            Phase::AwaitInstalled { script_found: true, latest },
            Event::InstalledVersion(Ok(Some(installed))),
            flag1,
            p1,
            s1,
        ),
    ensures
        p1 == Phase::Finished,
        flag1,
        done_with_path(s1),
{
}

/// When the install failed but the recheck finds the script on disk (say,
/// left by an earlier run), the resolution succeeds and the install error is
/// not propagated.
pub proof fn failed_install_masked_by_present_script(
    install_error: String,
    flag0: bool,
    flag1: bool,
    p1: Phase,
    s1: Step,
)
    requires
        transition(
            flag0,
            Phase::AwaitRecheck { install_error: Some(install_error) },
            Event::ServerExists(true),
            flag1,
            p1,
            s1,
        ),
    ensures
        p1 == Phase::Finished,
        flag1,
        done_with_path(s1),
{
}

/// When the install reported success but the recheck does not find the
/// script, the resolution fails with the error that names the missing path.
pub proof fn successful_install_without_script_fails(
    flag0: bool,
    flag1: bool,
    p1: Phase,
    s1: Step,
)
    requires
        transition(
            flag0,
            Phase::AwaitRecheck { install_error: None },
            Event::ServerExists(false),
            flag1,
            p1,
            s1,
        ),
    ensures
        p1 == Phase::Finished,
        flag1 == flag0,
        s1 matches Step::Done(r) && r matches Err(m) && m@ == spec_missing_script_error(),
{
}

/// The structural install error literally names the expected entry-script
/// path: the path stands in the message as the characters 88 to 150.
pub proof fn missing_script_error_names_path()
    ensures
        spec_missing_script_error().subrange(88, 150) == spec_server_path(),
{
    reveal_strlit(
        "installed package '@bajrangcoder/unocss-language-server' did not contain expected path 'node_modules/@bajrangcoder/unocss-language-server/bin/index.js'",
    );
    reveal_strlit("node_modules/@bajrangcoder/unocss-language-server/bin/index.js");
    assert(spec_missing_script_error().subrange(88, 150) =~= spec_server_path());
}

/// A resolution that delivers the script's path also leaves the found-flag
/// raised.
pub proof fn success_raises_flag(
    flag0: bool,
    phase: Phase,
    event: Event,
    flag1: bool,
    p1: Phase,
    s1: Step,
)
    requires
        transition(flag0, phase, event, flag1, p1, s1),
        done_with_path(s1),
    ensures
        flag1,
{
}

/// The found-flag is raised only by a step that has just confirmed the entry
/// script on disk: either an existence check answered true, or the machine
/// compared versions knowing the initial existence check answered true.
pub proof fn flag_raised_only_with_script_on_disk(
    flag0: bool,
    phase: Phase,
    event: Event,
    flag1: bool,
    p1: Phase,
    s1: Step,
)
    requires
        transition(flag0, phase, event, flag1, p1, s1),
        flag1,
        !flag0,
    ensures
        event == Event::ServerExists(true) || (phase matches Phase::AwaitInstalled {
            script_found,
            ..
        } && script_found),
{
}

/// The extension's only persistent state: whether a valid entry script has
/// been confirmed on disk during this process's lifetime.
pub struct UnoCSSExtension {
    pub did_find_server: bool,
}

impl UnoCSSExtension {
    /// A fresh extension instance; the script has not been located yet.
    pub fn new() -> (r: UnoCSSExtension)
        ensures
            !r.did_find_server,
    {
        UnoCSSExtension { did_find_server: false }
    }

    /// Run one step of a resolution: consume the driver's answer to the
    /// previous query and say what to do next.
    pub fn resolve_step(&mut self, phase: Phase, event: Event) -> (r: (Phase, Step))
        requires
            accepts(phase, event),
        ensures
            transition(
                old(self).did_find_server,
                phase,
                event,
                final(self).did_find_server,
                r.0,
                r.1,
            ),
    {
        match (phase, event) {
            (Phase::Start, Event::Begin) => (
                Phase::AwaitExists,
                Step::Ask { notify: None, query: HostQuery::ServerExists },
            ),
            (Phase::AwaitExists, Event::ServerExists(script_found)) => {
                if self.did_find_server && script_found {
                    (Phase::Finished, Step::Done(Ok(String::from_str(server_path()))))
                } else {
                    (
                        Phase::AwaitLatest { script_found },
                        Step::Ask {
                            notify: Some(StatusNote::CheckingForUpdate),
                            query: HostQuery::LatestVersion,
                        },
                    )
                }
            },
            (Phase::AwaitLatest { script_found }, Event::LatestVersion(res)) => {
                match res {
                    Ok(latest) => (
                        Phase::AwaitInstalled { script_found, latest },
                        Step::Ask { notify: None, query: HostQuery::InstalledVersion },
                    ),
                    Err(error) => (Phase::Finished, Step::Done(Err(error))),
                }
            },
            (Phase::AwaitInstalled { script_found, latest }, Event::InstalledVersion(res)) => {
                match res {
                    Ok(installed) => {
                        let up_to_date = match &installed {
                            Some(v) => *v == latest,
                            None => false,
                        };
                        if !script_found || !up_to_date {
                            (
                                Phase::AwaitInstall,
                                Step::Ask {
                                    notify: Some(StatusNote::Downloading),
                                    query: HostQuery::Install(latest),
                                },
                            )
                        } else {
                            self.did_find_server = true;
                            (Phase::Finished, Step::Done(Ok(String::from_str(server_path()))))
                        }
                    },
                    Err(error) => (Phase::Finished, Step::Done(Err(error))),
                }
            },
            (Phase::AwaitInstall, Event::InstallFinished(res)) => {
                let install_error = match res {
                    Ok(_) => None,
                    Err(error) => Some(error),
                };
                (
                    Phase::AwaitRecheck { install_error },
                    Step::Ask { notify: None, query: HostQuery::ServerExists },
                )
            },
            (Phase::AwaitRecheck { install_error }, Event::ServerExists(script_found)) => {
                if script_found {
                    self.did_find_server = true;
                    (Phase::Finished, Step::Done(Ok(String::from_str(server_path()))))
                } else {
                    match install_error {
                        None => (Phase::Finished, Step::Done(Err(missing_script_error()))),
                        Some(error) => (Phase::Finished, Step::Done(Err(error))),
                    }
                }
            },
            _ => unreached(),
        }
    }
}

} // verus!
