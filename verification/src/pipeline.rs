//! The provisioning pipeline as an explicit ordered step list. The pipeline
//! never performs a side effect itself: it tells a thin runner what to do
//! next, and the runner reports each step's outcome back. A step is reached
//! only after every earlier step has succeeded, and the first failure halts
//! the pipeline for good.

use vstd::prelude::*;
use crate::extlinux::{extlinux_config, spec_extlinux_config};
use crate::fstab::{FstabPlan, MountTableError, plan_mount_table, spec_plan, spec_root_entry};
use crate::naming::{get_partition_name, spec_partition_name};

verus! {

/// The steps of a provisioning run, in the order they must execute.
#[derive(Clone, Copy, Debug, PartialEq, Eq, Structural)]
pub enum Step {
    /// Destroy every existing partition-table structure on the device.
    ZapAll,
    /// Create the fixed-size boot partition, labeled `boot`.
    CreateBoot,
    /// Create the root partition over the remaining space, labeled `root`.
    CreateRoot,
    /// Mark the boot partition with the legacy-boot attribute.
    SetBootFlag,
    /// Format the boot partition with ext4.
    FormatBoot,
    /// Format the root partition with ext4.
    FormatRoot,
    /// Mount the root partition at the root mount path.
    MountRoot,
    /// Create the boot mount directory beneath the root mount path.
    MakeBootDir,
    /// Mount the boot partition at the boot mount path.
    MountBoot,
    /// Fetch the compressed root-filesystem archive and stage it locally.
    FetchImage,
    /// Decompress and unpack the staged archive into the root mount path.
    ExtractArchive,
    /// Query the filesystem identifiers of both partitions in one batch.
    QueryIdentifiers,
    /// Append the two planned entries to the persistent mount table.
    AppendMountTable,
    /// Write the boot-menu configuration under the boot mount path.
    WriteBootConfig,
}

/// How many steps a run has.
pub open spec fn step_count() -> int {
    14
}

/// The step at position `i` of the run.
pub open spec fn step_of(i: int) -> Step {
    if i == 0 {
        Step::ZapAll
    } else if i == 1 {
        Step::CreateBoot
    } else if i == 2 {
        Step::CreateRoot
    } else if i == 3 {
        Step::SetBootFlag
    } else if i == 4 {
        Step::FormatBoot
    } else if i == 5 {
        Step::FormatRoot
    } else if i == 6 {
        Step::MountRoot
    } else if i == 7 {
        Step::MakeBootDir
    } else if i == 8 {
        Step::MountBoot
    } else if i == 9 {
        Step::FetchImage
    } else if i == 10 {
        Step::ExtractArchive
    } else if i == 11 {
        Step::QueryIdentifiers
    } else if i == 12 {
        Step::AppendMountTable
    } else {
        Step::WriteBootConfig
    }
}

/// What the runner must do to carry out one step.
pub enum Action {
    /// Run the program with the arguments and report its exit status and
    /// captured standard output.
    RunCommand { program: String, args: Vec<String> },
    /// Stream the body of a GET of `url` into the local file `dest`.
    FetchFile { url: String, dest: String },
    /// Decompress the staged archive and unpack it into `dest`.
    UnpackArchive { archive: String, dest: String },
    /// Append `first` and then `second` to the file at `path`.
    AppendFile { path: String, first: String, second: String },
    /// Create the directory `dir` and write `contents` to the file at `path`.
    WriteFile { dir: String, path: String, contents: String },
}

/// The mathematical shape of an action: every path and text as a sequence.
pub enum ActionModel {
    RunCommand { program: Seq<char>, args: Seq<Seq<char>> },
    FetchFile { url: Seq<char>, dest: Seq<char> },
    UnpackArchive { archive: Seq<char>, dest: Seq<char> },
    AppendFile { path: Seq<char>, first: Seq<char>, second: Seq<char> },
    WriteFile { dir: Seq<char>, path: Seq<char>, contents: Seq<char> },
}

impl View for Action {
    type V = ActionModel;

    open spec fn view(&self) -> ActionModel {
        match self {
            Action::RunCommand { program, args } => (ActionModel::RunCommand {
                program: program@,
                args: args.deep_view(),
            }),
            Action::FetchFile { url, dest } => (ActionModel::FetchFile {
                url: url@,
                dest: dest@,
            }),
            Action::UnpackArchive { archive, dest } => (ActionModel::UnpackArchive {
                archive: archive@,
                dest: dest@,
            }),
            Action::AppendFile { path, first, second } => (ActionModel::AppendFile {
                path: path@,
                first: first@,
                second: second@,
            }),
            Action::WriteFile { dir, path, contents } => (ActionModel::WriteFile {
                dir: dir@,
                path: path@,
                contents: contents@,
            }),
        }
    }
}

/// What the runner reports back for one step.
pub enum StepOutcome {
    /// The step completed; `stdout` is what it printed (empty where nothing
    /// is captured).
    Success { stdout: String },
    /// The step failed; `code` is the non-zero exit status where the step ran
    /// a command that reported one.
    Failure { code: Option<i32> },
}

/// Why a run halted.
#[derive(Clone, Copy, Debug, PartialEq, Eq, Structural)]
pub enum PipelineError {
    /// A step's outside work failed; `code` mirrors the failing command's
    /// exit status where one was reported.
    StepFailed { step: Step, code: Option<i32> },
    /// The identifier query succeeded but its output failed the partition
    /// identity check.
    Identity { error: MountTableError },
}

/// The provisioning pipeline: the target device, the derived partition
/// paths, how many steps have completed, and whether a step has failed.
pub struct Pipeline {
    /// The target block device path.
    pub device: String,
    /// The root partition's device-node path, partition 3 of the device.
    pub root_part: String,
    /// The boot partition's device-node path, partition 2 of the device.
    pub boot_part: String,
    /// How many steps have completed successfully.
    pub done_steps: usize,
    /// Whether a step has failed; a failed pipeline issues no more actions.
    pub failed: bool,
    /// The planned mount-table edit, present once the identifier query has
    /// been parsed and validated.
    pub plan: Option<FstabPlan>,
    /// The steps that have completed successfully, in order.
    pub history: Ghost<Seq<Step>>,
}

impl Pipeline {
    /// The pipeline's invariant: partition paths are derived from the device,
    /// the history holds exactly the first `done_steps` steps in order, and
    /// the mount-table plan is present from the moment a step needs it.
    pub open spec fn wf(self) -> bool {
        &&& self.done_steps <= step_count()
        &&& self.root_part@ == spec_partition_name(self.device@, 3)
        &&& self.boot_part@ == spec_partition_name(self.device@, 2)
        &&& self.history@ == Seq::new(self.done_steps as nat, |i: int| step_of(i))
        &&& (self.done_steps > 11 ==> self.plan is Some)
        &&& (match self.plan {
            Option::Some(p) => p.root_entry@ == spec_root_entry(p.root_uuid@),
            Option::None => true,
        })
    }

    /// The next step to run, or `None` when the run is over: every step done,
    /// or one failed.
    pub open spec fn spec_next_step(self) -> Option<Step> {
        if self.failed || self.done_steps >= step_count() {
            None
        } else {
            Some(step_of(self.done_steps as int))
        }
    }

    /// The action that carries out `step` in this pipeline's state.
    pub open spec fn spec_action_of(self, step: Step) -> ActionModel {
        match step {
            Step::ZapAll => (ActionModel::RunCommand {
                program: "sgdisk"@,
                args: seq!["--zap-all"@, self.device@],
            }),
            Step::CreateBoot => (ActionModel::RunCommand {
                program: "sgdisk"@,
                args: seq!["-n 2:0:+512M -t 2:8300 -c 2:\"boot\""@, self.device@],
            }),
            Step::CreateRoot => (ActionModel::RunCommand {
                program: "sgdisk"@,
                args: seq!["-n 3:0:0 -t 3:8300 -c 3:\"root\""@, self.device@],
            }),
            Step::SetBootFlag => (ActionModel::RunCommand {
                program: "sgdisk"@,
                args: seq!["-A 2:set:2"@, self.device@],
            }),
            Step::FormatBoot => (ActionModel::RunCommand {
                program: "mkfs.ext4"@,
                args: seq![self.boot_part@],
            }),
            Step::FormatRoot => (ActionModel::RunCommand {
                program: "mkfs.ext4"@,
                args: seq![self.root_part@],
            }),
            Step::MountRoot => (ActionModel::RunCommand {
                program: "mount"@,
                args: seq![self.root_part@, "/mnt"@],
            }),
            Step::MakeBootDir => (ActionModel::RunCommand {
                program: "mkdir"@,
                args: seq!["/mnt/boot"@],
            }),
            Step::MountBoot => (ActionModel::RunCommand {
                program: "mount"@,
                args: seq![self.boot_part@, "/mnt/boot"@],
            }),
            Step::FetchImage => (ActionModel::FetchFile {
                url: "http://os.archlinuxarm.org/os/ArchLinuxARM-aarch64-latest.tar.gz"@,
                dest: "archlinux.tar.gz"@,
            }),
            Step::ExtractArchive => (ActionModel::UnpackArchive {
                archive: "archlinux.tar.gz"@,
                dest: "/mnt"@,
            }),
            Step::QueryIdentifiers => (ActionModel::RunCommand {
                program: "blkid"@,
                args: seq![self.root_part@, self.boot_part@],
            }),
            Step::AppendMountTable => (ActionModel::AppendFile {
                path: "/mnt/etc/fstab"@,
                first: self.plan.unwrap().root_entry@,
                second: self.plan.unwrap().boot_entry@,
            }),
            Step::WriteBootConfig => (ActionModel::WriteFile {
                dir: "/mnt/boot/extlinux/extlinux"@,
                path: "/mnt/boot/extlinux/extlinux.conf"@,
                contents: spec_extlinux_config(self.plan.unwrap().root_uuid@),
            }),
        }
    }

    /// The action the runner must perform next, or `None` when the run is
    /// over.
    pub open spec fn spec_next_action(self) -> Option<ActionModel> {
        match self.spec_next_step() {
            Option::None => None,
            Option::Some(step) => Some(self.spec_action_of(step)),
        }
    }

    /// A fresh pipeline for `device`: nothing done, nothing failed, partition
    /// paths derived by the naming rule.
    pub fn new(device: String) -> (p: Pipeline)
        ensures
            p.wf(),
            p.device@ == device@,
            p.done_steps == 0,
            !p.failed,
            p.spec_next_step() == Some(Step::ZapAll),
    {
        let root_part = get_partition_name(device.as_str(), 3);
        let boot_part = get_partition_name(device.as_str(), 2);
        let p = Pipeline {
            device,
            root_part,
            boot_part,
            done_steps: 0,
            failed: false,
            plan: None,
            history: Ghost(Seq::empty()),
        };
        proof {
            assert(p.history@ =~= Seq::new(0, |i: int| step_of(i)));
        }
        p
    }

    /// The next step to run, or `None` when the run is over.
    pub fn next_step(&self) -> (s: Option<Step>)
        ensures
            s == self.spec_next_step(),
    {
        if self.failed || self.done_steps >= 14 {
            None
        } else if self.done_steps == 0 {
            Some(Step::ZapAll)
        } else if self.done_steps == 1 {
            Some(Step::CreateBoot)
        } else if self.done_steps == 2 {
            Some(Step::CreateRoot)
        } else if self.done_steps == 3 {
            Some(Step::SetBootFlag)
        } else if self.done_steps == 4 {
            Some(Step::FormatBoot)
        } else if self.done_steps == 5 {
            Some(Step::FormatRoot)
        } else if self.done_steps == 6 {
            Some(Step::MountRoot)
        } else if self.done_steps == 7 {
            Some(Step::MakeBootDir)
        } else if self.done_steps == 8 {
            Some(Step::MountBoot)
        } else if self.done_steps == 9 {
            Some(Step::FetchImage)
        } else if self.done_steps == 10 {
            Some(Step::ExtractArchive)
        } else if self.done_steps == 11 {
            Some(Step::QueryIdentifiers)
        } else if self.done_steps == 12 {
            Some(Step::AppendMountTable)
        } else {
            Some(Step::WriteBootConfig)
        }
    }

    /// The action that carries out the next step, or `None` when the run is
    /// over.
    pub fn next_action(&self) -> (a: Option<Action>)
        requires
            self.wf(),
        ensures
            match (a, self.spec_next_action()) {
                (Option::Some(act), Option::Some(m)) => act@ == m,
                (Option::None, Option::None) => true,
                _ => false,
            },
    {
        let step = match self.next_step() {
            Option::None => {
                return None;
            },
            Option::Some(s) => s,
        };
        match step {
            Step::ZapAll => {
                let mut args: Vec<String> = Vec::new();
                args.push(String::from_str("--zap-all"));
                args.push(self.device.clone());
                proof {
                    assert(args.deep_view() =~= seq!["--zap-all"@, self.device@]);
                }
                Some(Action::RunCommand { program: String::from_str("sgdisk"), args })
            },
            Step::CreateBoot => {
                let mut args: Vec<String> = Vec::new();
                args.push(String::from_str("-n 2:0:+512M -t 2:8300 -c 2:\"boot\""));
                args.push(self.device.clone());
                proof {
                    assert(args.deep_view()
                        =~= seq!["-n 2:0:+512M -t 2:8300 -c 2:\"boot\""@, self.device@]);
                }
                Some(Action::RunCommand { program: String::from_str("sgdisk"), args })
            },
            Step::CreateRoot => {
                let mut args: Vec<String> = Vec::new();
                args.push(String::from_str("-n 3:0:0 -t 3:8300 -c 3:\"root\""));
                args.push(self.device.clone());
                proof {
                    assert(args.deep_view()
                        =~= seq!["-n 3:0:0 -t 3:8300 -c 3:\"root\""@, self.device@]);
                }
                Some(Action::RunCommand { program: String::from_str("sgdisk"), args })
            },
            Step::SetBootFlag => {
                let mut args: Vec<String> = Vec::new();
                args.push(String::from_str("-A 2:set:2"));
                args.push(self.device.clone());
                proof {
                    assert(args.deep_view() =~= seq!["-A 2:set:2"@, self.device@]);
                }
                Some(Action::RunCommand { program: String::from_str("sgdisk"), args })
            },
            Step::FormatBoot => {
                let mut args: Vec<String> = Vec::new();
                args.push(self.boot_part.clone());
                proof {
                    assert(args.deep_view() =~= seq![self.boot_part@]);
                }
                Some(Action::RunCommand { program: String::from_str("mkfs.ext4"), args })
            },
            Step::FormatRoot => {
                let mut args: Vec<String> = Vec::new();
                args.push(self.root_part.clone());
                proof {
                    assert(args.deep_view() =~= seq![self.root_part@]);
                }
                Some(Action::RunCommand { program: String::from_str("mkfs.ext4"), args })
            },
            Step::MountRoot => {
                let mut args: Vec<String> = Vec::new();
                args.push(self.root_part.clone());
                args.push(String::from_str("/mnt"));
                proof {
                    assert(args.deep_view() =~= seq![self.root_part@, "/mnt"@]);
                }
                Some(Action::RunCommand { program: String::from_str("mount"), args })
            },
            Step::MakeBootDir => {
                let mut args: Vec<String> = Vec::new();
                args.push(String::from_str("/mnt/boot"));
                proof {
                    assert(args.deep_view() =~= seq!["/mnt/boot"@]);
                }
                Some(Action::RunCommand { program: String::from_str("mkdir"), args })
            },
            Step::MountBoot => {
                let mut args: Vec<String> = Vec::new();
                args.push(self.boot_part.clone());
                args.push(String::from_str("/mnt/boot"));
                proof {
                    assert(args.deep_view() =~= seq![self.boot_part@, "/mnt/boot"@]);
                }
                Some(Action::RunCommand { program: String::from_str("mount"), args })
            },
            Step::FetchImage => {
                Some(Action::FetchFile {
                    url: String::from_str(
                        "http://os.archlinuxarm.org/os/ArchLinuxARM-aarch64-latest.tar.gz"),
                    dest: String::from_str("archlinux.tar.gz"),
                })
            },
            Step::ExtractArchive => {
                Some(Action::UnpackArchive {
                    archive: String::from_str("archlinux.tar.gz"),
                    dest: String::from_str("/mnt"),
                })
            },
            Step::QueryIdentifiers => {
                let mut args: Vec<String> = Vec::new();
                args.push(self.root_part.clone());
                args.push(self.boot_part.clone());
                proof {
                    assert(args.deep_view() =~= seq![self.root_part@, self.boot_part@]);
                }
                Some(Action::RunCommand { program: String::from_str("blkid"), args })
            },
            Step::AppendMountTable => {
                let plan = self.plan.as_ref().unwrap();
                Some(Action::AppendFile {
                    path: String::from_str("/mnt/etc/fstab"),
                    first: plan.root_entry.clone(),
                    second: plan.boot_entry.clone(),
                })
            },
            Step::WriteBootConfig => {
                let plan = self.plan.as_ref().unwrap();
                Some(Action::WriteFile {
                    dir: String::from_str("/mnt/boot/extlinux/extlinux"),
                    path: String::from_str("/mnt/boot/extlinux/extlinux.conf"),
                    contents: extlinux_config(plan.root_uuid.as_str()),
                })
            },
        }
    }

    /// Records the outcome of the step the runner just performed. A success
    /// moves the run one step forward; the identifier query's output is
    /// parsed and validated here, and any identity error halts the run; any
    /// failure halts the run with no step counted done.
    pub fn report(&mut self, outcome: StepOutcome) -> (r: Result<(), PipelineError>)
        requires
            old(self).wf(),
            old(self).spec_next_step() is Some,
        ensures
            final(self).wf(),
            final(self).device@ == old(self).device@,
            final(self).root_part@ == old(self).root_part@,
            final(self).boot_part@ == old(self).boot_part@,
            match outcome {
                StepOutcome::Failure { code } => {
                    &&& r == Err::<(), PipelineError>(PipelineError::StepFailed {
                        step: old(self).spec_next_step().unwrap(),
                        code,
                    })
                    &&& final(self).failed
                    &&& final(self).done_steps == old(self).done_steps
                    &&& final(self).spec_next_action() is None
                },
                StepOutcome::Success { stdout } => {
                    if old(self).spec_next_step() == Some(Step::QueryIdentifiers) {
                        match spec_plan(stdout@, old(self).root_part@, old(self).boot_part@) {
                            Ok(t) => {
                                &&& r is Ok
                                &&& !final(self).failed
                                &&& final(self).done_steps == old(self).done_steps + 1
                                &&& final(self).plan is Some
                                &&& final(self).plan.unwrap().root_uuid@ == t.0
                                &&& final(self).plan.unwrap().root_entry@ == t.1
                                &&& final(self).plan.unwrap().boot_entry@ == t.2
                                &&& final(self).history@ == old(self).history@.push(
                                    Step::QueryIdentifiers)
                            },
                            Err(e) => {
                                &&& r == Err::<(), PipelineError>(
                                    PipelineError::Identity { error: e })
                                &&& final(self).failed
                                &&& final(self).done_steps == old(self).done_steps
                                &&& final(self).spec_next_action() is None
                            },
                        }
                    } else {
                        &&& r is Ok
                        &&& !final(self).failed
                        &&& final(self).done_steps == old(self).done_steps + 1
                        &&& final(self).plan == old(self).plan
                        &&& final(self).history@ == old(self).history@.push(
                            old(self).spec_next_step().unwrap())
                    }
                },
            },
    {
        let step = self.next_step().unwrap();
        match outcome {
            StepOutcome::Failure { code } => {
                self.failed = true;
                Err(PipelineError::StepFailed { step, code })
            },
            StepOutcome::Success { stdout } => {
                match step {
                    Step::QueryIdentifiers => {
                        match plan_mount_table(
                            stdout.as_str(),
                            self.root_part.as_str(),
                            self.boot_part.as_str(),
                        ) {
                            Ok(plan) => {
                                self.plan = Some(plan);
                                proof {
                                    self.history@ = self.history@.push(step);
                                }
                                self.done_steps = self.done_steps + 1;
                                proof {
                                    assert(self.history@ =~= Seq::new(
                                        self.done_steps as nat, |i: int| step_of(i)));
                                }
                                Ok(())
                            },
                            Err(e) => {
                                self.failed = true;
                                Err(PipelineError::Identity { error: e })
                            },
                        }
                    },
                    _ => {
                        proof {
                            self.history@ = self.history@.push(step);
                        }
                        self.done_steps = self.done_steps + 1;
                        proof {
                            assert(self.history@ =~= Seq::new(
                                self.done_steps as nat, |i: int| step_of(i)));
                        }
                        Ok(())
                    },
                }
            },
        }
    }

    /// The resolved root filesystem identifier, present once the identifier
    /// query has been parsed and validated.
    pub fn root_uuid(&self) -> (r: Option<&String>)
        ensures
            match (r, self.plan) {
                (Option::Some(u), Option::Some(p)) => u@ == p.root_uuid@,
                (Option::None, Option::None) => true,
                _ => false,
            },
    {
        match &self.plan {
            Option::Some(p) => Some(&p.root_uuid),
            Option::None => None,
        }
    }
}

/// The ordering invariant of the run: when a step is due, every earlier step
/// of the ordered list has already completed successfully.
pub proof fn lemma_steps_strictly_ordered(p: Pipeline, k: int)
    requires
        p.wf(),
        p.spec_next_step() is Some,
        0 <= k < p.done_steps,
    ensures
        p.history@.contains(step_of(k)),
{
    assert(p.history@[k] == step_of(k));
}

/// The ordering invariant of the run: the archive is unpacked only after the
/// root mount step has completed successfully, so extraction never begins
/// before the root mount path is active.
pub proof fn lemma_extract_only_after_root_mounted(p: Pipeline)
    requires
        p.wf(),
        p.spec_next_step() == Some(Step::ExtractArchive),
    ensures
        p.history@.contains(Step::MountRoot),
{
    assert(p.done_steps == 10);
    assert(p.history@[6] == step_of(6));
}

/// A failed pipeline issues no further actions: the first failure halts the
/// run, and no later step's side effects can occur.
pub proof fn lemma_failure_halts(p: Pipeline)
    requires
        p.failed,
    ensures
        p.spec_next_action() is None,
{
}

} // verus!
