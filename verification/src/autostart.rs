//! Run-on-login registration via the per-user `Run` registry key.
//!
//! Writing or removing the `brightvol` value under
//! `HKCU\Software\Microsoft\Windows\CurrentVersion\Run` is a short protocol of
//! registry calls. This module decides each step of it; the caller performs
//! the registry call that a step asks for and reports its status back.
use vstd::prelude::*;
use vstd::string::*;
use crate::decimal::{decimal, push_decimal};

verus! {

/// Status of a registry call that succeeded.
pub const ERROR_SUCCESS: u32 = 0;

/// Status of a registry call on a value that does not exist.
pub const ERROR_FILE_NOT_FOUND: u32 = 2;

/// UTF-16 code unit of `"`.
pub const QUOTE: u16 = 34;

/// The registry value for an executable at `exe` (UTF-16): the path in double
/// quotes, null-terminated.
pub open spec fn run_value(exe: Seq<u16>) -> Seq<u16> {
    seq![QUOTE] + exe + seq![QUOTE, 0u16]
}

/// The bytes of the UTF-16 code units `wide`, each unit low byte first.
pub open spec fn le_bytes(wide: Seq<u16>) -> Seq<u8> {
    Seq::new(
        2 * wide.len(),
        |k: int|
            if k % 2 == 0 {
                (wide[k / 2] % 256) as u8
            } else {
                (wide[k / 2] / 256) as u8
            },
    )
}

/// Message for a `Run` key that could not be opened.
pub open spec fn open_failure_text(status: u32) -> Seq<char> {
    "cannot open Run key (error "@ + decimal(status as nat) + ")"@
}

/// Message for a `Run` value that could not be written or removed.
pub open spec fn write_failure_text(status: u32) -> Seq<char> {
    "cannot write Run value (error "@ + decimal(status as nat) + ")"@
}

/// The quoted, null-terminated wide path to the executable at `exe`.
pub fn exe_value(exe: &[u16]) -> (value: Vec<u16>)
    ensures
        value@ == run_value(exe@),
        value@.len() == exe@.len() + 3,
        value@[0] == QUOTE,
        value@[value@.len() - 2] == QUOTE,
        value@[value@.len() - 1] == 0,
        forall|i: int| 0 <= i < exe@.len() ==> value@[i + 1] == exe@[i],
{
    let mut value: Vec<u16> = Vec::new();
    value.push(QUOTE);
    let mut i: usize = 0;
    while i < exe.len()
        invariant
            i <= exe@.len(),
            value@ == seq![QUOTE] + exe@.take(i as int),
        decreases exe@.len() - i,
    {
        value.push(exe[i]);
        i += 1;
        assert(value@ =~= seq![QUOTE] + exe@.take(i as int));
    }
    value.push(QUOTE);
    value.push(0u16);
    assert(exe@.take(exe@.len() as int) =~= exe@);
    assert(value@ =~= run_value(exe@));
    value
}

/// The bytes that a `REG_SZ` value holding the code units `wide` is written as.
pub fn value_bytes(wide: &[u16]) -> (bytes: Vec<u8>)
    ensures
        bytes@ == le_bytes(wide@),
        bytes@.len() == 2 * wide@.len(),
        forall|k: int|
            0 <= k < wide@.len() ==> bytes@[2 * k] + 256 * bytes@[2 * k + 1] == wide@[k],
{
    let mut bytes: Vec<u8> = Vec::new();
    let mut i: usize = 0;
    while i < wide.len()
        invariant
            i <= wide@.len(),
            bytes@ == le_bytes(wide@.take(i as int)),
        decreases wide@.len() - i,
    {
        let unit = wide[i];
        bytes.push((unit % 256) as u8);
        bytes.push((unit / 256) as u8);
        i += 1;
        assert(bytes@ =~= le_bytes(wide@.take(i as int)));
    }
    assert(wide@.take(wide@.len() as int) =~= wide@);
    bytes
}

/// The Run value of any executable path is that path between double quotes,
/// followed by a terminating zero.
pub proof fn law_run_value_quotes_path(exe: Seq<u16>)
    ensures
        run_value(exe).len() == exe.len() + 3,
        run_value(exe)[0] == QUOTE,
        run_value(exe)[exe.len() as int + 1] == QUOTE,
        run_value(exe)[exe.len() as int + 1 + 1] == 0,
        run_value(exe).subrange(1, exe.len() as int + 1) == exe,
{
    assert(run_value(exe).subrange(1, exe.len() as int + 1) =~= exe);
}

/// The bytes written for UTF-16 code units decode back to those units: two
/// bytes per unit, low byte first.
pub proof fn law_le_bytes_decode(wide: Seq<u16>)
    ensures
        le_bytes(wide).len() == 2 * wide.len(),
        forall|k: int|
            0 <= k < wide.len() ==> #[trigger] le_bytes(wide)[2 * k] + 256 * le_bytes(wide)[2 * k
                + 1] == wide[k],
{
    assert forall|k: int| 0 <= k < wide.len() implies #[trigger] le_bytes(wide)[2 * k] + 256
        * le_bytes(wide)[2 * k + 1] == wide[k] by {
        let w = wide[k] as int;
        assert((2 * k) % 2 == 0 && (2 * k) / 2 == k);
        assert((2 * k + 1) % 2 == 1 && (2 * k + 1) / 2 == k);
        assert(w % 256 + 256 * (w / 256) == w) by (nonlinear_arith)
            requires
                0 <= w,
        ;
        assert(w / 256 < 256) by (nonlinear_arith)
            requires
                0 <= w < 65536,
        ;
    }
}

fn open_failure(status: u32) -> (msg: String)
    ensures
        msg@ == open_failure_text(status),
{
    let mut msg = String::from_str("cannot open Run key (error ");
    push_decimal(&mut msg, status as u64);
    msg.append(")");
    msg
}

fn write_failure(status: u32) -> (msg: String)
    ensures
        msg@ == write_failure_text(status),
{
    let mut msg = String::from_str("cannot write Run value (error ");
    push_decimal(&mut msg, status as u64);
    msg.append(")");
    msg
}

/// Where a change of the run-on-login setting stands.
pub enum SetStage {
    /// Waiting for the `Run` key to be opened for writing.
    Opening,
    /// Waiting for the path of the running executable.
    ReadingExe,
    /// Waiting for the `brightvol` value to be written.
    Writing,
    /// Waiting for the `brightvol` value to be removed.
    Deleting,
    /// Waiting for the key to be closed; holds the status to report.
    Closing(u32),
    /// The outcome has been reported.
    Finished,
}

/// The registry call that a step asks for, or the outcome.
pub enum SetAction {
    /// Open `HKCU\Software\Microsoft\Windows\CurrentVersion\Run` for writing.
    OpenRunKey,
    /// Find the path of the running executable.
    ReadExePath,
    /// Write these bytes as the `REG_SZ` value `brightvol`.
    WriteRunValue(Vec<u8>),
    /// Remove the value `brightvol`.
    DeleteRunValue,
    /// Close the opened key.
    CloseRunKey,
    /// The change is over with this outcome.
    Finish(Result<(), String>),
}

/// What the last registry call returned.
pub enum SetEvent {
    /// Status of opening the key.
    KeyOpened(u32),
    /// The executable's path in UTF-16, or why it could not be found.
    ExePath(Result<Vec<u16>, String>),
    /// Status of writing the value.
    ValueWritten(u32),
    /// Status of removing the value.
    ValueDeleted(u32),
    /// The key was closed.
    KeyClosed,
}

/// A change of the run-on-login setting in progress.
pub struct SetAutostart {
    pub enabled: bool,
    pub stage: SetStage,
}

/// `event` is the answer to the call that a machine in `stage` asked for.
pub open spec fn answers(stage: SetStage, event: SetEvent) -> bool {
    match stage {
        SetStage::Opening => event is KeyOpened,
        SetStage::ReadingExe => event is ExePath,
        SetStage::Writing => event is ValueWritten,
        SetStage::Deleting => event is ValueDeleted,
        SetStage::Closing(_) => event is KeyClosed,
        SetStage::Finished => false,
    }
}

impl SetAutostart {
    /// Begin enabling (`enabled`) or disabling run-on-login: the first call
    /// opens the `Run` key.
    pub fn start(enabled: bool) -> (res: (SetAutostart, SetAction))
        ensures
            res.0.enabled == enabled,
            res.0.stage is Opening,
            res.1 is OpenRunKey,
    {
        (SetAutostart { enabled, stage: SetStage::Opening }, SetAction::OpenRunKey)
    }

    /// Whether `event` answers the call this change is waiting for.
    pub fn expects(&self, event: &SetEvent) -> (b: bool)
        ensures
            b == answers(self.stage, *event),
            self.stage is Opening ==> (b <==> event is KeyOpened),
            self.stage is ReadingExe ==> (b <==> event is ExePath),
            self.stage is Writing ==> (b <==> event is ValueWritten),
            self.stage is Deleting ==> (b <==> event is ValueDeleted),
            self.stage is Closing ==> (b <==> event is KeyClosed),
            self.stage is Finished ==> !b,
    {
        match (&self.stage, event) {
            (SetStage::Opening, SetEvent::KeyOpened(_)) => true,
            (SetStage::ReadingExe, SetEvent::ExePath(_)) => true,
            (SetStage::Writing, SetEvent::ValueWritten(_)) => true,
            (SetStage::Deleting, SetEvent::ValueDeleted(_)) => true,
            (SetStage::Closing(_), SetEvent::KeyClosed) => true,
            _ => false,
        }
    }

    /// Take the answer to the pending call and decide the next step.
    ///
    /// A key that cannot be opened fails the change; enabling writes the
    /// quoted executable path, disabling removes the value (a value that is
    /// already absent counts as removed); the key is closed and the status of
    /// the write or removal is reported. A path that cannot be found fails
    /// the change at once, with the key left open.
    pub fn resume(&mut self, event: SetEvent) -> (action: SetAction)
        requires
            answers(old(self).stage, event),
        ensures
            final(self).enabled == old(self).enabled,
            match event {
                SetEvent::KeyOpened(status) => if status != ERROR_SUCCESS {
                    &&& final(self).stage is Finished
                    &&& action matches SetAction::Finish(Err(msg))
                    &&& msg@ == open_failure_text(status)
                } else if old(self).enabled {
                    final(self).stage is ReadingExe && action is ReadExePath
                } else {
                    final(self).stage is Deleting && action is DeleteRunValue
                },
                SetEvent::ExePath(Err(e)) => {
                    &&& final(self).stage is Finished
                    &&& action matches SetAction::Finish(Err(msg))
                    &&& msg == e
                },
                SetEvent::ExePath(Ok(exe)) => {
                    &&& final(self).stage is Writing
                    &&& action matches SetAction::WriteRunValue(bytes)
                    &&& bytes@ == le_bytes(run_value(exe@))
                },
                SetEvent::ValueWritten(status) => final(self).stage == SetStage::Closing(status)
                    && action is CloseRunKey,
                SetEvent::ValueDeleted(status) => final(self).stage == SetStage::Closing(
                    if status == ERROR_FILE_NOT_FOUND {
                        ERROR_SUCCESS
                    } else {
                        status
                    },
                ) && action is CloseRunKey,
                SetEvent::KeyClosed => {
                    &&& final(self).stage is Finished
                    &&& old(self).stage matches SetStage::Closing(status)
                    &&& if status == ERROR_SUCCESS {
                        action matches SetAction::Finish(Ok(()))
                    } else {
                        action matches SetAction::Finish(Err(msg)) && msg@ == write_failure_text(
                            status,
                        )
                    }
                },
            },
    {
        match event {
            SetEvent::KeyOpened(status) => {
                if status != ERROR_SUCCESS {
                    self.stage = SetStage::Finished;
                    SetAction::Finish(Err(open_failure(status)))
                } else if self.enabled {
                    self.stage = SetStage::ReadingExe;
                    SetAction::ReadExePath
                } else {
                    self.stage = SetStage::Deleting;
                    SetAction::DeleteRunValue
                }
            },
            SetEvent::ExePath(Err(e)) => {
                self.stage = SetStage::Finished;
                SetAction::Finish(Err(e))
            },
            SetEvent::ExePath(Ok(exe)) => {
                self.stage = SetStage::Writing;
                let value = exe_value(exe.as_slice());
                SetAction::WriteRunValue(value_bytes(value.as_slice()))
            },
            SetEvent::ValueWritten(status) => {
                self.stage = SetStage::Closing(status);
                SetAction::CloseRunKey
            },
            SetEvent::ValueDeleted(status) => {
                let status = if status == ERROR_FILE_NOT_FOUND {
                    ERROR_SUCCESS
                } else {
                    status
                };
                self.stage = SetStage::Closing(status);
                SetAction::CloseRunKey
            },
            SetEvent::KeyClosed => {
                let status = match self.stage {
                    SetStage::Closing(status) => status,
                    _ => ERROR_SUCCESS,
                };
                self.stage = SetStage::Finished;
                if status == ERROR_SUCCESS {
                    SetAction::Finish(Ok(()))
                } else {
                    SetAction::Finish(Err(write_failure(status)))
                }
            },
        }
    }
}

/// Each registry call that a change asks for is answered by the report of
/// that call, whatever its status: opening by `KeyOpened`, finding the path by
/// `ExePath`, writing by `ValueWritten`, removing by `ValueDeleted`, closing by
/// `KeyClosed`; a finished change accepts nothing.
pub proof fn law_set_requests_are_answerable(
    status: u32,
    exe: Result<Vec<u16>, String>,
    pending: u32,
    event: SetEvent,
)
    ensures
        answers(SetStage::Opening, SetEvent::KeyOpened(status)),
        answers(SetStage::ReadingExe, SetEvent::ExePath(exe)),
        answers(SetStage::Writing, SetEvent::ValueWritten(status)),
        answers(SetStage::Deleting, SetEvent::ValueDeleted(status)),
        answers(SetStage::Closing(pending), SetEvent::KeyClosed),
        !answers(SetStage::Finished, event),
{
}

/// Whether the `brightvol` Run value is currently present, given the status
/// of opening the `Run` key for reading and, when it opened, the status of
/// querying the value.
pub fn is_enabled(open_status: u32, query_status: Option<u32>) -> (present: bool)
    ensures
        present == (open_status == ERROR_SUCCESS && query_status == Some(ERROR_SUCCESS)),
{
    open_status == ERROR_SUCCESS && match query_status {
        Some(status) => status == ERROR_SUCCESS,
        None => false,
    }
}

} // verus!
