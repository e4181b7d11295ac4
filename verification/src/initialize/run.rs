//! One run of the command.
//!
//! The file must not exist, unless it may be replaced; then its old contents are overwritten
//! first. The key is wrapped through the C interface, and the payload is written. Touching files
//! and calling the interface is the caller's part: a [`RunStep`] says what to do next, and takes
//! the answer.
use crate::abi::{reported_length_suffices, wrap_reply};
use crate::bytes::bytes_or_reason;
use crate::crypto::{unwrapped, DEK_LEN};
use crate::error::ErrorView;
use crate::files::change_view;
use crate::initialize::arguments::{Args, ArgsView};
use crate::initialize::service::{
    base64_decode, base64_decoded, charset_message, check_dek, checked_dek, combine_service,
    combined_service, describe_status, is_service_name, status_description,
    validate_service_charset,
};
use crate::operations::Agreement;
use crate::primitives::memory::{scrub, zeros};
use crate::status;
use crate::text::{concat2, concat4, decimal, decimal_text};
use vstd::prelude::*;

verus! {

/// Permission bits of the file: its owner may read and write it, its group may read it.
pub const KEY_FILE_MODE: u32 = 0o640;

/// Bytes that are first offered for the payload.
pub const INITIAL_WRAPPED_CAPACITY: usize = 512;

/// What to do next for a run.
pub enum RunStep {
    /// Find out whether the file exists.
    Exists(ExistsQuery),
    /// Overwrite the file and remove it.
    Delete(DeleteQuery),
    /// Wrap the key through the C interface.
    Wrap(WrapQuery),
    /// Write the file.
    Output(OutputQuery),
    /// The run has succeeded; this is the message for the user.
    Done(String),
    /// The run has failed; this is the message for the user.
    Failed(String),
}

/// Whether the file exists is to be found out.
pub struct ExistsQuery {
    args: Args,
}

/// The file is to be overwritten and removed.
pub struct DeleteQuery {
    args: Args,
}

/// The key is to be wrapped.
pub struct WrapQuery {
    path: String,
    service: String,
    dek: [u8; DEK_LEN],
    capacity: usize,
    retried: bool,
}

/// The file is to be written.
pub struct OutputQuery {
    path: String,
    service: String,
    wrapped: Vec<u8>,
    stage: OutputStage,
}

/// The stages of writing the file.
#[derive(Debug, Clone, Copy, PartialEq, Eq, Structural)]
pub enum OutputStage {
    /// Open the file, empty, made with [`KEY_FILE_MODE`] where it is missing.
    Open,
    /// Write the payload.
    Write,
    /// Set the permission bits to [`KEY_FILE_MODE`].
    Limit,
}

/// What the C interface replied.
pub struct WrapReply {
    /// The status code.
    pub code: i32,
    /// The buffer that was offered.
    pub buffer: Vec<u8>,
    /// The length that was reported.
    pub len: usize,
}

/// A [`WrapReply`] with its buffer as a sequence.
pub struct WrapReplyView {
    pub code: i32,
    pub buffer: Seq<u8>,
    pub len: nat,
}

/// A key on its way through the C interface.
pub struct Wrapping {
    pub path: Seq<char>,
    pub service: Seq<char>,
    pub dek: Seq<u8>,
    pub capacity: nat,
    pub retried: bool,
}

/// A payload on its way to the file.
pub struct Writing {
    pub path: Seq<char>,
    pub service: Seq<char>,
    pub wrapped: Seq<u8>,
    pub stage: OutputStage,
}

/// A [`RunStep`] by its contents.
pub enum RunView {
    Exists(ArgsView),
    Delete(ArgsView),
    Wrap(Wrapping),
    Output(Writing),
    Done(Seq<char>),
    Failed(Seq<char>),
}

impl View for WrapReply {
    type V = WrapReplyView;

    open spec fn view(&self) -> WrapReplyView {
        WrapReplyView { code: self.code, buffer: self.buffer@, len: self.len as nat }
    }
}

impl View for RunStep {
    type V = RunView;

    open spec fn view(&self) -> RunView {
        match self {
            RunStep::Exists(query) => RunView::Exists(query.arguments()),
            RunStep::Delete(query) => RunView::Delete(query.arguments()),
            RunStep::Wrap(query) => RunView::Wrap(query.wrapping()),
            RunStep::Output(query) => RunView::Output(query.writing()),
            RunStep::Done(message) => RunView::Done(message@),
            RunStep::Failed(message) => RunView::Failed(message@),
        }
    }
}

/// The step once the file is out of the way, given what the key's text decodes to.
pub open spec fn prepared(args: ArgsView, decoded: Result<Seq<u8>, Seq<char>>) -> RunView {
    let service = combined_service(args.service_name, args.material_identifier);
    match checked_dek(decoded) {
        Err(message) => RunView::Failed(message),
        Ok(dek) => if !is_service_name(service) {
            RunView::Failed(charset_message(service))
        } else {
            RunView::Wrap(
                Wrapping {
                    path: args.key_file_path,
                    service,
                    dek,
                    capacity: INITIAL_WRAPPED_CAPACITY as nat,
                    retried: false,
                },
            )
        },
    }
}

/// The step after it was found out whether the file exists, given what the key's text decodes to.
pub open spec fn after_exists(
    args: ArgsView,
    exists: bool,
    decoded: Result<Seq<u8>, Seq<char>>,
) -> RunView {
    if !exists {
        prepared(args, decoded)
    } else if args.force {
        RunView::Delete(args)
    } else {
        RunView::Failed(
            args.key_file_path + " already exists; pass --force|-f to overwrite"@,
        )
    }
}

/// The step after the file was removed or was not, given what the key's text decodes to.
pub open spec fn after_delete(
    args: ArgsView,
    answer: Result<(), Seq<char>>,
    decoded: Result<Seq<u8>, Seq<char>>,
) -> RunView {
    match answer {
        Ok(_) => prepared(args, decoded),
        Err(message) => RunView::Failed(message),
    }
}

/// The step after the C interface replied: one more try with the length that it reported where
/// the buffer was too small.
pub open spec fn after_wrap(wrapping: Wrapping, reply: WrapReplyView) -> RunView {
    if reply.code == status::BUFFER_TOO_SMALL && !wrapping.retried {
        RunView::Wrap(Wrapping { capacity: reply.len, retried: true, ..wrapping })
    } else if reply.code != status::OK {
        RunView::Failed("hkdfguard_wrap_dek failed: "@ + status_description(reply.code))
    } else {
        RunView::Output(
            Writing {
                path: wrapping.path,
                service: wrapping.service,
                wrapped: if reply.len < reply.buffer.len() {
                    reply.buffer.take(reply.len as int)
                } else {
                    reply.buffer
                },
                stage: OutputStage::Open,
            },
        )
    }
}

/// The step after a stage of writing the file.
pub open spec fn after_output(writing: Writing, answer: Result<(), Seq<char>>) -> RunView {
    match answer {
        Ok(_) => match writing.stage {
            OutputStage::Open => RunView::Output(Writing { stage: OutputStage::Write, ..writing }),
            OutputStage::Write => RunView::Output(Writing { stage: OutputStage::Limit, ..writing }),
            OutputStage::Limit => RunView::Done(
                "wrapped key written to "@ + writing.path + " ("@ + decimal(writing.wrapped.len())
                    + " bytes, service \""@ + writing.service + "\")"@,
            ),
        },
        Err(reason) => match writing.stage {
            OutputStage::Open => RunView::Failed(
                "failed to open "@ + writing.path + ": "@ + reason,
            ),
            OutputStage::Write => RunView::Failed(
                "failed to write "@ + writing.path + ": "@ + reason,
            ),
            OutputStage::Limit => RunView::Failed(
                "failed to set permissions on "@ + writing.path + ": "@ + reason,
            ),
        },
    }
}

/// Starts a run.
pub fn run(args: Args) -> (step: RunStep)
    ensures
        step@ == RunView::Exists(args@),
{
    RunStep::Exists(ExistsQuery { args })
}

/// Goes on once the file is out of the way, given what the key's text decodes to.
pub fn prepare_with(args: Args, decoded: Result<Vec<u8>, String>) -> (step: RunStep)
    ensures
        step@ == prepared(args@, bytes_or_reason(decoded)),
{
    let dek = match check_dek(decoded) {
        Ok(dek) => dek,
        Err(message) => return RunStep::Failed(message),
    };
    let service = combine_service(args.service_name.as_str(), args.material_identifier);
    match validate_service_charset(service.as_str()) {
        Ok(_) => RunStep::Wrap(
            WrapQuery {
                path: args.key_file_path,
                service,
                dek,
                capacity: INITIAL_WRAPPED_CAPACITY,
                retried: false,
            },
        ),
        Err(message) => {
            let mut dek = dek;
            scrub(&mut dek);
            RunStep::Failed(message)
        },
    }
}

/// Goes on once the file is out of the way.
fn prepare(args: Args) -> (step: RunStep)
    ensures
        step@ == prepared(args@, base64_decoded(args@.dek_base64)),
{
    let decoded = base64_decode(args.dek_base64.as_str());
    prepare_with(args, decoded)
}

impl ExistsQuery {
    /// The arguments of the run.
    pub closed spec fn arguments(&self) -> ArgsView {
        self.args@
    }

    /// The file to look for.
    pub fn file(&self) -> (path: &str)
        ensures
            path@ == self.arguments().key_file_path,
    {
        self.args.key_file_path.as_str()
    }

    /// Goes on with whether the file exists.
    pub fn answered(self, exists: bool) -> (step: RunStep)
        ensures
            step@ == after_exists(
                self.arguments(),
                exists,
                base64_decoded(self.arguments().dek_base64),
            ),
    {
        if !exists {
            prepare(self.args)
        } else if self.args.force {
            RunStep::Delete(DeleteQuery { args: self.args })
        } else {
            RunStep::Failed(
                concat2(
                    self.args.key_file_path.as_str(),
                    " already exists; pass --force|-f to overwrite",
                ),
            )
        }
    }
}

impl DeleteQuery {
    /// The arguments of the run.
    pub closed spec fn arguments(&self) -> ArgsView {
        self.args@
    }

    /// The file to overwrite and remove.
    pub fn file(&self) -> (path: &str)
        ensures
            path@ == self.arguments().key_file_path,
    {
        self.args.key_file_path.as_str()
    }

    /// Goes on after the file was removed, or with the message that it was not.
    pub fn answered(self, answer: Result<(), String>) -> (step: RunStep)
        ensures
            step@ == after_delete(
                self.arguments(),
                change_view(answer),
                base64_decoded(self.arguments().dek_base64),
            ),
    {
        match answer {
            Ok(_) => prepare(self.args),
            Err(message) => RunStep::Failed(message),
        }
    }
}

impl WrapQuery {
    /// The key on its way.
    pub closed spec fn wrapping(&self) -> Wrapping {
        Wrapping {
            path: self.path@,
            service: self.service@,
            dek: self.dek@,
            capacity: self.capacity as nat,
            retried: self.retried,
        }
    }

    /// The service, the key, and how large a buffer to offer.
    pub fn parameters(&self) -> (r: (&str, &[u8; DEK_LEN], usize))
        ensures
            r.0@ == self.wrapping().service,
            r.1@ == self.wrapping().dek,
            r.2 as nat == self.wrapping().capacity,
    {
        (self.service.as_str(), &self.dek, self.capacity)
    }

    /// Goes on with the reply of the C interface.
    pub fn answered(self, reply: WrapReply) -> (step: RunStep)
        ensures
            step@ == after_wrap(self.wrapping(), reply@),
    {
        let WrapQuery { path, service, dek, capacity: _, retried } = self;
        if reply.code == status::BUFFER_TOO_SMALL && !retried {
            return RunStep::Wrap(
                WrapQuery { path, service, dek, capacity: reply.len, retried: true },
            );
        }
        let mut dek = dek;
        scrub(&mut dek);
        if reply.code != status::OK {
            let text = describe_status(reply.code);
            return RunStep::Failed(concat2("hkdfguard_wrap_dek failed: ", text.as_str()));
        }
        let mut wrapped = reply.buffer;
        if reply.len < wrapped.len() {
            wrapped.truncate(reply.len);
        }
        RunStep::Output(OutputQuery { path, service, wrapped, stage: OutputStage::Open })
    }
}

impl OutputQuery {
    /// The payload on its way.
    pub closed spec fn writing(&self) -> Writing {
        Writing {
            path: self.path@,
            service: self.service@,
            wrapped: self.wrapped@,
            stage: self.stage,
        }
    }

    /// What to do with the file.
    pub fn stage(&self) -> (stage: OutputStage)
        ensures
            stage == self.writing().stage,
    {
        self.stage
    }

    /// The file to write and the payload to write to it.
    pub fn parameters(&self) -> (r: (&str, &[u8]))
        ensures
            r.0@ == self.writing().path,
            r.1@ == self.writing().wrapped,
    {
        (self.path.as_str(), self.wrapped.as_slice())
    }

    /// Goes on after the stage succeeded, or after it failed with a reason.
    pub fn answered(self, answer: Result<(), String>) -> (step: RunStep)
        ensures
            step@ == after_output(self.writing(), change_view(answer)),
    {
        let OutputQuery { path, service, wrapped, stage } = self;
        match answer {
            Ok(_) => match stage {
                OutputStage::Open => RunStep::Output(
                    OutputQuery { path, service, wrapped, stage: OutputStage::Write },
                ),
                OutputStage::Write => RunStep::Output(
                    OutputQuery { path, service, wrapped, stage: OutputStage::Limit },
                ),
                OutputStage::Limit => {
                    let digits = decimal_text(wrapped.len() as u64);
                    let front = concat4(
                        "wrapped key written to ",
                        path.as_str(),
                        " (",
                        digits.as_str(),
                    );
                    RunStep::Done(
                        concat4(
                            front.as_str(),
                            " bytes, service \"",
                            service.as_str(),
                            "\")",
                        ),
                    )
                },
            },
            Err(reason) => {
                let what = match stage {
                    OutputStage::Open => "failed to open ",
                    OutputStage::Write => "failed to write ",
                    OutputStage::Limit => "failed to set permissions on ",
                };
                RunStep::Failed(concat4(what, path.as_str(), ": ", reason.as_str()))
            },
        }
    }
}

/// A file that exists is left alone unless it may be replaced: the run ends at once. Where it
/// may be replaced, nothing is wrapped or written before it has been removed.
pub proof fn existing_files_need_force(
    args: ArgsView,
    decoded: Result<Seq<u8>, Seq<char>>,
    reason: Seq<char>,
)
    ensures
        !args.force ==> after_exists(args, true, decoded) is Failed,
        args.force ==> after_exists(args, true, decoded) == RunView::Delete(args),
        after_delete(args, Err(reason), decoded) is Failed,
{
}

/// A second refusal for want of space is final.
pub proof fn wrapping_is_retried_once(wrapping: Wrapping, reply: WrapReplyView)
    requires
        wrapping.retried,
    ensures
        after_wrap(wrapping, reply) !is Wrap,
{
}

/// The reply that the C interface gives to a buffer of zeros that is offered to it.
pub open spec fn interface_reply(wrapped: Seq<u8>, capacity: i32) -> WrapReplyView {
    let reply = wrap_reply(Ok(wrapped), zeros(capacity as nat), true, capacity);
    WrapReplyView { code: reply.code, buffer: reply.out, len: reply.out_len as nat }
}

/// A payload that the library makes reaches the file byte for byte, at the first try where the
/// first buffer holds it, and else at the second.
pub proof fn payloads_reach_the_file(wrapping: Wrapping, first: Seq<u8>, second: Seq<u8>)
    requires
        wrapping.capacity == INITIAL_WRAPPED_CAPACITY,
        !wrapping.retried,
        first.len() == second.len() <= i32::MAX,
    ensures
        match after_wrap(wrapping, interface_reply(first, INITIAL_WRAPPED_CAPACITY as i32)) {
            RunView::Output(writing) => writing.wrapped == first && writing.path == wrapping.path,
            RunView::Wrap(again) => after_wrap(
                again,
                interface_reply(second, again.capacity as i32),
            ) matches RunView::Output(writing) && writing.wrapped == second && writing.path
                == wrapping.path,
            _ => false,
        },
{
    let capacity = INITIAL_WRAPPED_CAPACITY as i32;
    let offered = zeros(INITIAL_WRAPPED_CAPACITY as nat);
    if first.len() > INITIAL_WRAPPED_CAPACITY {
        let retry = zeros(first.len());
        reported_length_suffices(second, offered, capacity, retry);
        assert(second.take(second.len() as int) =~= second);
    } else {
        let reply = interface_reply(first, capacity);
        assert(reply.buffer.take(first.len() as int) =~= first);
        assert(first.len() == INITIAL_WRAPPED_CAPACITY ==> reply.buffer =~= first);
    }
}

/// A file: what it holds, and its permission bits.
pub struct FileState {
    pub contents: Seq<u8>,
    pub mode: u32,
}

/// The file after a stage of writing has succeeded. Opening empties it, and makes it where it is
/// missing.
pub open spec fn after_stage(writing: Writing, file: Option<FileState>) -> FileState {
    match writing.stage {
        OutputStage::Open => FileState {
            contents: seq![],
            mode: if file is Some {
                file->0.mode
            } else {
                KEY_FILE_MODE
            },
        },
        OutputStage::Write => FileState { contents: file->0.contents + writing.wrapped, ..file->0 },
        OutputStage::Limit => FileState { mode: KEY_FILE_MODE, ..file->0 },
    }
}

/// The end of a run from the writing of the file on, and the file that it leaves, where nothing
/// fails.
pub open spec fn write_run(step: RunView, file: Option<FileState>) -> (RunView, Option<FileState>)
    decreases
            match step {
                RunView::Output(writing) => match writing.stage {
                    OutputStage::Open => 3nat,
                    OutputStage::Write => 2nat,
                    OutputStage::Limit => 1nat,
                },
                _ => 0nat,
            },
{
    match step {
        RunView::Output(writing) => write_run(
            after_output(writing, Ok(())),
            Some(after_stage(writing, file)),
        ),
        _ => (step, file),
    }
}

/// A run that succeeds leaves a file that unwraps to the key it was given: the key's text decodes
/// to 32 bytes, the service is the combined name and is admissible, and the file, whatever it held
/// before, holds exactly one payload with the permission bits that are due, which unwraps to those
/// bytes for that service under the key encryption key that the interface wrapped with. `first` and
/// `second` are what the interface makes at the first try and, where that does not fit, at the
/// second.
pub proof fn written_files_unwrap_to_the_key(
    args: ArgsView,
    decoded: Result<Seq<u8>, Seq<char>>,
    first: Agreement,
    first_wrapped: Seq<u8>,
    second: Agreement,
    second_wrapped: Seq<u8>,
    agreed: spec_fn(Seq<u8>) -> Seq<u8>,
    before: Option<FileState>,
)
    requires
        prepared(args, decoded) matches RunView::Wrap(wrapping) && {
            &&& first.service == wrapping.service && second.service == wrapping.service
            &&& first.wraps(agreed(first.point), wrapping.dek, first_wrapped)
            &&& second.wraps(agreed(second.point), wrapping.dek, second_wrapped)
        },
        first.key_id == second.key_id,
        first.key_id.len() < 0x1_0000,
    ensures
        ({
            let service = combined_service(args.service_name, args.material_identifier);
            let wrapping = prepared(args, decoded)->Wrap_0;
            let tried = after_wrap(
                wrapping,
                interface_reply(first_wrapped, INITIAL_WRAPPED_CAPACITY as i32),
            );
            let wrapped = match tried {
                RunView::Wrap(again) => after_wrap(
                    again,
                    interface_reply(second_wrapped, again.capacity as i32),
                ),
                other => other,
            };
            let end = write_run(wrapped, before);
            &&& decoded == Ok::<Seq<u8>, Seq<char>>(wrapping.dek) && wrapping.dek.len() == DEK_LEN
            &&& wrapping.service == service && is_service_name(service)
            &&& end.0 is Done
            &&& end.1 matches Some(file) && file.mode == KEY_FILE_MODE && unwrapped(
                service,
                file.contents,
                agreed,
            ) == Ok::<Seq<u8>, ErrorView>(wrapping.dek)
        }),
{
    let wrapping = prepared(args, decoded)->Wrap_0;
    payloads_reach_the_file(wrapping, first_wrapped, second_wrapped);
    let tried = after_wrap(
        wrapping,
        interface_reply(first_wrapped, INITIAL_WRAPPED_CAPACITY as i32),
    );
    let wrapped = match tried {
        RunView::Wrap(again) => after_wrap(
            again,
            interface_reply(second_wrapped, again.capacity as i32),
        ),
        other => other,
    };
    let writing = wrapped->Output_0;
    assert(writing.stage is Open);
    reveal_with_fuel(write_run, 4);
    assert(Seq::<u8>::empty() + writing.wrapped =~= writing.wrapped);
}

} // verus!
