//! The synchronization stages: ordered, named, idempotent reconciliation
//! steps. Each stage decides its work from plain values — the live
//! hostname as read from disk, the package listings as produced by the
//! backend's commands — and reports `Done` or `Skipped`, or fails.
//!
//! The pipeline runs the stages strictly in the fixed order and halts at
//! the first failure; stages already applied are not rolled back (a
//! deliberate, documented limitation).

use vstd::prelude::*;
use vstd::string::StringExecFns;
use crate::config::Config;
use crate::config::ConfigV;
use crate::differ::seq_diff;
use crate::differ::CommandInvocation;
use crate::differ::CommandInvocationV;
use crate::differ::lemma_to_remove_empty_when_subset;
use crate::errors::Error;
use crate::errors::ErrorV;
use crate::package_manager::install_plan_spec;
use crate::package_manager::remove_plan_spec;
use crate::package_manager::PackageManager;
use crate::package_manager::PackageManagerV;
use crate::text::basename;
use crate::text::basename_spec;
use crate::text::trim;
use crate::text::trim_spec;

verus! {

/// What applying one stage reported.
#[derive(Debug, PartialEq, Eq, Structural, Clone, Copy)]
pub enum StageResult {
    /// The stage changed the system.
    Done,
    /// The system already matched; nothing was changed.
    Skipped,
}

/// The hostname reconciliation stage.
#[derive(Debug)]
pub struct Hostname {}

/// The package reconciliation stage.
#[derive(Debug)]
pub struct Packages {}

/// A stage delegated to an external script.
#[derive(Debug)]
pub struct CustomStage {
    /// The script's path.
    pub path: String,
}

/// The closed set of stages the pipeline can run.
#[derive(Debug)]
pub enum Stage {
    Hostname(Hostname),
    Packages(Packages),
    Custom(CustomStage),
}

impl Stage {
    /// The stage's name, as reported in logs: which stage ran, was
    /// skipped, or failed.
    pub open spec fn spec_name(&self) -> Seq<char> {
        match self {
            Stage::Hostname(_) => "Hostname"@,
            Stage::Packages(_) => "Packages"@,
            Stage::Custom(c) => basename_spec(c.path@),
        }
    }

    /// The stage's name; a custom stage is named after its script file.
    pub fn name(&self) -> (r: String)
        ensures
            r@ == self.spec_name(),
    {
        match self {
            Stage::Hostname(_) => String::from_str("Hostname"),
            Stage::Packages(_) => String::from_str("Packages"),
            Stage::Custom(c) => basename(c.path.as_str()),
        }
    }
}

/// The fixed pipeline order: hostname first, then packages.
pub fn stage_order() -> (r: Vec<Stage>)
    ensures
        r@.len() == 2,
        r@[0] matches Stage::Hostname(_),
        r@[1] matches Stage::Packages(_),
{
    let mut v: Vec<Stage> = Vec::new();
    v.push(Stage::Hostname(Hostname {  }));
    v.push(Stage::Packages(Packages {  }));
    v
}

/// What the hostname stage decides to do.
#[derive(Debug)]
pub enum HostnameAction {
    /// The live hostname already matches: nothing is written.
    Keep,
    /// Write this content over the hostname file (the configured name and
    /// a final newline). The change takes effect on reboot or reload.
    Write(String),
}

/// The hostname decision: nothing when the live hostname (trimmed as read
/// from disk) equals the configured one, else the content to write.
pub open spec fn hostname_action_spec(raw_live: Seq<char>, configured: Seq<char>) -> Option<
    Seq<char>,
> {
    if trim_spec(raw_live) == configured {
        Option::None
    } else {
        Option::Some(configured + "\n"@)
    }
}

impl Hostname {
    /// Decide the hostname stage from the hostname file's raw contents and
    /// the configured hostname.
    pub fn decide(raw_live: &str, configured: &String) -> (r: HostnameAction)
        ensures
            (match hostname_action_spec(raw_live@, configured@) {
                Option::None => r matches HostnameAction::Keep,
                Option::Some(content) => r matches HostnameAction::Write(s) && s@ == content,
            }),
    {
        let live = trim(raw_live);
        if live.eq(configured) {
            HostnameAction::Keep
        } else {
            let mut content = configured.clone();
            content.append("\n");
            HostnameAction::Write(content)
        }
    }
}

impl HostnameAction {
    /// The stage outcome this action reports: `Skipped` exactly when there
    /// was nothing to write.
    pub fn stage_result(&self) -> (r: StageResult)
        ensures
            (r == StageResult::Skipped) <==> (self matches HostnameAction::Keep),
    {
        match self {
            HostnameAction::Keep => StageResult::Skipped,
            HostnameAction::Write(_) => StageResult::Done,
        }
    }
}

impl Packages {
    /// The packages the configuration asks to manage. `None` means the
    /// configuration manages no packages this run and the stage is
    /// skipped without consulting the backend at all.
    pub fn desired_packages<'a>(config: &'a Config) -> (r: Option<&'a Vec<String>>)
        ensures
            (match config@.packages {
                Option::Some(l) => r matches Option::Some(v) && v.deep_view() == l,
                Option::None => r is None,
            }),
    {
        match &config.packages {
            Option::Some(v) => Option::Some(v),
            Option::None => Option::None,
        }
    }

    /// The outcome the stage reports once its work has gone through
    /// without error: `Skipped` exactly when the configuration manages no
    /// packages (nothing was consulted or run), and `Done` when a package
    /// list is managed and both halves of its plan completed — the
    /// zero-work case included.
    pub fn stage_result(config: &Config) -> (r: StageResult)
        ensures
            (r == StageResult::Skipped) <==> (config@.packages is None),
    {
        match &config.packages {
            Option::Some(_) => StageResult::Done,
            Option::None => StageResult::Skipped,
        }
    }
}

/// The view of an optional invocation.
pub open spec fn opt_invocation_view(o: Option<CommandInvocation>) -> Option<CommandInvocationV> {
    match o {
        Option::Some(i) => Option::Some(i@),
        Option::None => Option::None,
    }
}

/// Both halves of the package stage's work, install before remove.
#[derive(Debug)]
pub struct PackagesPlan {
    /// The invocation that installs the missing packages, if any are
    /// missing.
    pub install: Option<CommandInvocation>,
    /// The invocation that removes the unneeded packages, if any are
    /// unneeded.
    pub remove: Option<CommandInvocation>,
}

/// The package stage's plan: the install invocation over what `desired`
/// adds, then the removal invocation over what `currently_explicit` no
/// longer deserves. The install half is planned first; its error wins.
pub open spec fn packages_plan_spec(
    pm: PackageManagerV,
    desired: Seq<Seq<char>>,
    all_installed: Seq<Seq<char>>,
    currently_explicit: Seq<Seq<char>>,
) -> Result<(Option<CommandInvocationV>, Option<CommandInvocationV>), ErrorV> {
    match install_plan_spec(pm, desired, all_installed) {
        Result::Err(e) => Result::Err(e),
        Result::Ok(inst) => match remove_plan_spec(pm, desired, currently_explicit) {
            Result::Err(e) => Result::Err(e),
            Result::Ok(rem) => Result::Ok((inst, rem)),
        },
    }
}

/// Plan the package stage against the resolved package manager and the
/// already-materialized listings of installed and explicitly installed
/// packages.
pub fn packages_plan(
    pm: &PackageManager,
    desired: &Vec<String>,
    all_installed: &Vec<String>,
    currently_explicit: &Vec<String>,
) -> (r: Result<PackagesPlan, Error>)
    ensures
        (match packages_plan_spec(
            pm@,
            desired.deep_view(),
            all_installed.deep_view(),
            currently_explicit.deep_view(),
        ) {
            Result::Ok(p) => r matches Ok(plan) && opt_invocation_view(plan.install) == p.0
                && opt_invocation_view(plan.remove) == p.1,
            Result::Err(ev) => r matches Err(e) && e@ == ev,
        }),
{
    let install = match pm.install_plan(desired, all_installed) {
        Ok(i) => i,
        Err(e) => {
            return Err(e);
        },
    };
    let remove = match pm.remove_plan(desired, currently_explicit) {
        Ok(i) => i,
        Err(e) => {
            return Err(e);
        },
    };
    Ok(PackagesPlan { install, remove })
}

/// A plan's invocations in execution order.
pub open spec fn plan_order_spec(p: PackagesPlan) -> Seq<CommandInvocation> {
    (match p.install {
        Option::Some(i) => seq![i],
        Option::None => Seq::empty(),
    }) + (match p.remove {
        Option::Some(i) => seq![i],
        Option::None => Seq::empty(),
    })
}

impl PackagesPlan {
    /// The invocations to run, in order: install always precedes remove.
    pub fn in_order(self) -> (r: Vec<CommandInvocation>)
        ensures
            r@ == plan_order_spec(self),
    {
        let ghost me = self;
        let mut v: Vec<CommandInvocation> = Vec::new();
        let PackagesPlan { install, remove } = self;
        match install {
            Option::Some(i) => {
                v.push(i);
            },
            Option::None => {},
        }
        match remove {
            Option::Some(i) => {
                v.push(i);
            },
            Option::None => {},
        }
        proof {
            assert(v@ =~= plan_order_spec(me));
        }
        v
    }
}

impl CustomStage {
    /// The outcome a custom stage reports for the result of calling its
    /// script's entry point: success is work done, and any failure of the
    /// call is the pipeline's failure.
    pub fn outcome(call_result: Result<(), Error>) -> (r: Result<StageResult, Error>)
        ensures
            (match call_result {
                Result::Ok(_) => r matches Ok(s) && s == StageResult::Done,
                Result::Err(e) => r matches Err(e2) && e2@ == e@,
            }),
    {
        match call_result {
            Result::Ok(_) => Ok(StageResult::Done),
            Result::Err(e) => Err(e),
        }
    }
}

/// Synchronizing twice is idempotent at the level of decisions: once a run
/// has brought the system in line with the configuration — the live
/// hostname equals the configured one, every desired package is installed,
/// and nothing beyond the desired set is still explicitly installed — a
/// second run writes no hostname and plans no package command. (With a
/// package list configured the stage still reports `Done`, as the
/// zero-work case counts as completing both operations; without one it is
/// skipped outright.)
pub proof fn lemma_second_run_skips(
    config: ConfigV,
    pm: PackageManagerV,
    raw_live: Seq<char>,
    all_installed: Seq<Seq<char>>,
    currently_explicit: Seq<Seq<char>>,
)
    requires
        trim_spec(raw_live) == config.hostname,
        (match config.packages {
            Option::Some(desired) => (forall|p: Seq<char>|
                desired.contains(p) ==> all_installed.contains(p)) && (forall|p: Seq<char>|
                currently_explicit.contains(p) ==> desired.contains(p)),
            Option::None => true,
        }),
    ensures
        hostname_action_spec(raw_live, config.hostname) is None,
        (match config.packages {
            Option::Some(desired) => install_plan_spec(pm, desired, all_installed)
                == Result::<Option<CommandInvocationV>, ErrorV>::Ok(Option::None)
                && remove_plan_spec(pm, desired, currently_explicit) == Result::<
                Option<CommandInvocationV>,
                ErrorV,
            >::Ok(Option::None),
            Option::None => true,
        }),
{
    match config.packages {
        Option::Some(desired) => {
            lemma_to_remove_empty_when_subset(all_installed, desired);
            lemma_to_remove_empty_when_subset(desired, currently_explicit);
            assert(seq_diff(desired, all_installed).len() == 0);
            assert(seq_diff(currently_explicit, desired).len() == 0);
        },
        Option::None => {},
    }
}

} // verus!
