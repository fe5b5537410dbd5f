//! The command state machine.
//!
//! One single-threaded command loop feeds events in; at most one
//! background update worker exists at a time.  The machine holds the
//! cached bank-status snapshot, the shared progress cell and the
//! `Idle`/`Updating` tag, and decides every transition.  The caller
//! performs the I/O each decision asks for (mounting, formatting,
//! downloading, reading markers) and hands the outcome back as plain
//! values.

use vstd::prelude::*;

use crate::bank::Bank;
use crate::pipeline::Credentials;
use crate::pipeline::validate_credentials;
use crate::progress::ProgressState;
use crate::status::{BankInfoView, DetectedBankInfo};

verus! {

/// The five supported commands, as decoded from the wire.
pub enum Command {
    GetStatus,
    Update { from_url: String, username: Option<String>, password: Option<String> },
    FormatOtherBank,
    CopyConfig,
    SetDesiredBank { bank: Bank },
}

/// The one reply every command receives.
pub enum CommandResult {
    Error { detail: String },
    Status { banks: DetectedBankInfo, progress: Option<i32> },
    Okay { detail: String },
}

/// What a reply says, at the specification level.
pub ghost enum CommandResultView {
    Error { detail: Seq<char> },
    Status { banks: BankInfoView, progress: Option<int> },
    Okay { detail: Seq<char> },
}

impl View for CommandResult {
    type V = CommandResultView;

    open spec fn view(&self) -> CommandResultView {
        match self {
            CommandResult::Error { detail } => CommandResultView::Error { detail: detail@ },
            CommandResult::Status { banks, progress } => CommandResultView::Status {
                banks: banks@,
                progress: match progress {
                    None => None,
                    Some(p) => Some(*p as int),
                },
            },
            CommandResult::Okay { detail } => CommandResultView::Okay { detail: detail@ },
        }
    }
}

/// Whether an update task is outstanding.
#[derive(Clone, Copy, Debug, PartialEq, Eq, Structural)]
pub enum MachineState {
    Idle,
    Updating,
}

/// What the background worker's dispatch decided: begin the download,
/// or reject the request with a ready reply.
pub enum UpdateDispatch {
    Begin { credentials: Option<Credentials> },
    Reject { reply: CommandResult },
}

/// The command state machine: the cached snapshot, the progress cell,
/// and the update-task tag.
pub struct StateMachine {
    pub state: MachineState,
    pub progress_state: ProgressState,
    pub bank_info_cache: DetectedBankInfo,
}

impl StateMachine {
    /// The progress cell is well-formed and holds a percentage exactly
    /// while an update task is outstanding.
    pub open spec fn wf(self) -> bool {
        &&& self.progress_state.wf()
        &&& (self.state is Updating <==> self.progress_state.spec_progress() is Some)
    }

    /// A fresh machine: idle, no progress, with the snapshot the caller
    /// detected at start-up.
    pub fn new(initial_info: DetectedBankInfo) -> (r: StateMachine)
        ensures
            r.wf(),
            r.state is Idle,
            r.progress_state.spec_progress() is None,
            r.bank_info_cache@ == initial_info@,
    {
        StateMachine {
            state: MachineState::Idle,
            progress_state: ProgressState::new(),
            bank_info_cache: initial_info,
        }
    }

    /// Answers `GetStatus`.  `finished` is the outcome of the update
    /// task if one exists and has already finished — the caller joins it
    /// and, on success, hands in the snapshot re-detected from the still
    /// mounted bank.  Harvesting folds that snapshot into the cache,
    /// clears progress to `None` and returns to `Idle`, all in one step;
    /// without a finished task nothing changes and the live progress is
    /// reported.
    pub fn handle_get_status(&mut self, finished: Option<Result<DetectedBankInfo, String>>) -> (r:
        CommandResult)
        requires
            old(self).wf(),
            old(self).state is Idle ==> finished is None,
        ensures
            final(self).wf(),
            match finished {
                None => {
                    &&& final(self).state == old(self).state
                    &&& final(self).progress_state.spec_progress() == old(
                        self,
                    ).progress_state.spec_progress()
                    &&& final(self).bank_info_cache@ == old(self).bank_info_cache@
                    &&& r@ == (CommandResultView::Status {
                        banks: old(self).bank_info_cache@,
                        progress: old(self).progress_state.spec_progress(),
                    })
                },
                Some(outcome) => {
                    &&& final(self).state is Idle
                    &&& final(self).progress_state.spec_progress() is None
                    &&& final(self).bank_info_cache@ == (match outcome {
                        Ok(info) => info@,
                        Err(_) => old(self).bank_info_cache@,
                    })
                    &&& r@ == (CommandResultView::Status {
                        banks: final(self).bank_info_cache@,
                        progress: None::<int>,
                    })
                },
            },
    {
        match finished {
            None => {},
            Some(Ok(info)) => {
                self.bank_info_cache = info;
                self.progress_state.clear();
                self.state = MachineState::Idle;
            },
            Some(Err(_)) => {
                // the worker's failure was reported by the caller; the
                // cache keeps the last good snapshot
                self.progress_state.clear();
                self.state = MachineState::Idle;
            },
        }
        CommandResult::Status {
            banks: self.bank_info_cache.duplicate(),
            progress: self.progress_state.current(),
        }
    }

    /// Decides an `Update` request.  While a task is outstanding the
    /// request is rejected and no second worker may be spawned; with a
    /// one-sided credential pair it is rejected before any network call;
    /// otherwise the download may begin with the validated credentials.
    pub fn handle_update_request(&self, username: Option<String>, password: Option<String>) -> (r:
        UpdateDispatch)
        ensures
            self.state is Updating ==> (r matches UpdateDispatch::Reject { reply } && reply@
                == (CommandResultView::Error { detail: "update already ongoing"@ })),
            self.state is Idle ==> match (username, password) {
                (Some(u), Some(p)) => (r matches UpdateDispatch::Begin { credentials }
                    && (credentials matches Some(c) && c.username@ == u@ && c.password@ == p@)),
                (None, None) => (r matches UpdateDispatch::Begin { credentials }
                    && credentials is None),
                _ => (r matches UpdateDispatch::Reject { reply } && reply@
                    == (CommandResultView::Error {
                    detail: "Specify both username and password, or neither"@,
                })),
            },
    {
        match self.state {
            MachineState::Updating => UpdateDispatch::Reject {
                reply: CommandResult::Error {
                    detail: String::from_str("update already ongoing"),
                },
            },
            MachineState::Idle => match validate_credentials(username, password) {
                Ok(credentials) => UpdateDispatch::Begin { credentials },
                Err(_) => UpdateDispatch::Reject {
                    reply: CommandResult::Error {
                        detail: String::from_str("Specify both username and password, or neither"),
                    },
                },
            },
        }
    }

    /// Records that the worker was spawned: the machine is updating and
    /// progress starts at zero.
    pub fn begin_update(&mut self) -> (r: CommandResult)
        requires
            old(self).wf(),
            old(self).state is Idle,
        ensures
            final(self).wf(),
            final(self).state is Updating,
            final(self).progress_state.spec_progress() == Some(0int),
            final(self).bank_info_cache@ == old(self).bank_info_cache@,
            r@ == (CommandResultView::Okay { detail: "Update started"@ }),
    {
        self.state = MachineState::Updating;
        self.progress_state.update_progress(0);
        CommandResult::Okay { detail: String::from_str("Update started") }
    }

    /// Folds a percentage reported by the running worker into the
    /// progress cell.  Progress never goes down: a report below the
    /// value held leaves it unchanged, so what successive status polls
    /// observe during one update is non-decreasing.
    pub fn note_progress(&mut self, percent: i32)
        requires
            old(self).wf(),
            old(self).state is Updating,
            0 <= percent <= 100,
        ensures
            final(self).wf(),
            final(self).state == old(self).state,
            final(self).bank_info_cache@ == old(self).bank_info_cache@,
            final(self).progress_state.spec_progress() == (match old(
                self,
            ).progress_state.spec_progress() {
                Some(p) => if p >= percent as int {
                    Some(p)
                } else {
                    Some(percent as int)
                },
                None => Some(percent as int),
            }),
            match (old(self).progress_state.spec_progress(), final(self).progress_state.spec_progress()) {
                (Some(before), Some(after)) => before <= after,
                _ => true,
            },
    {
        match self.progress_state.current() {
            Some(held) => {
                if percent > held {
                    self.progress_state.update_progress(percent);
                }
            },
            None => {
                self.progress_state.update_progress(percent);
            },
        }
    }

    /// Folds the outcome of a synchronous `FormatOtherBank` into the
    /// machine: on success the caller re-detected the banks and the
    /// cache takes the new snapshot.
    pub fn handle_format_outcome(&mut self, outcome: Result<DetectedBankInfo, String>) -> (r:
        CommandResult)
        requires
            old(self).wf(),
        ensures
            final(self).wf(),
            final(self).state == old(self).state,
            final(self).progress_state.spec_progress() == old(self).progress_state.spec_progress(),
            match outcome {
                Ok(info) => final(self).bank_info_cache@ == info@ && r@
                    == (CommandResultView::Okay { detail: "Other bank formatted"@ }),
                Err(d) => final(self).bank_info_cache@ == old(self).bank_info_cache@ && r@
                    == (CommandResultView::Error { detail: d@ }),
            },
    {
        match outcome {
            Ok(info) => {
                self.bank_info_cache = info;
                CommandResult::Okay { detail: String::from_str("Other bank formatted") }
            },
            Err(detail) => CommandResult::Error { detail },
        }
    }

    /// Shapes the reply of a synchronous `CopyConfig`: the bank the
    /// configuration went to, or the failure.  The cache is untouched.
    pub fn handle_copy_config_outcome(&self, outcome: Result<Bank, String>) -> (r: CommandResult)
        ensures
            match outcome {
                Ok(b) => r@ == (CommandResultView::Okay {
                    detail: "Config copied to bank "@ + b.spec_name(),
                }),
                Err(d) => r@ == (CommandResultView::Error { detail: d@ }),
            },
    {
        match outcome {
            Ok(bank) => {
                let mut detail = String::from_str("Config copied to bank ");
                detail.append(bank.name());
                CommandResult::Okay { detail }
            },
            Err(detail) => CommandResult::Error { detail },
        }
    }

    /// Folds the outcome of `SetDesiredBank` into the machine: on
    /// success the boot-loader variable was written and the caller
    /// re-detected the banks.
    pub fn handle_set_desired_outcome(
        &mut self,
        bank: Bank,
        outcome: Result<DetectedBankInfo, String>,
    ) -> (r: CommandResult)
        requires
            old(self).wf(),
        ensures
            final(self).wf(),
            final(self).state == old(self).state,
            final(self).progress_state.spec_progress() == old(self).progress_state.spec_progress(),
            match outcome {
                Ok(info) => final(self).bank_info_cache@ == info@ && r@
                    == (CommandResultView::Okay {
                    detail: "Configured to boot bank "@ + bank.spec_name(),
                }),
                Err(d) => final(self).bank_info_cache@ == old(self).bank_info_cache@ && r@
                    == (CommandResultView::Error { detail: d@ }),
            },
    {
        match outcome {
            Ok(info) => {
                self.bank_info_cache = info;
                let mut detail = String::from_str("Configured to boot bank ");
                detail.append(bank.name());
                CommandResult::Okay { detail }
            },
            Err(detail) => CommandResult::Error { detail },
        }
    }
}

} // verus!
