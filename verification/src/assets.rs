//! Names and locations of the pinned Ruby runtime release.

use crate::decimal::{decimal, decimal_digits, decimal_string, push_decimal_u64};
use vstd::prelude::*;
use vstd::string::*;

verus! {

/// Release of the packaged runtime.
pub const RUBY_WASM_VERSION: &'static str = "2.1.0";

/// Ruby series of the packaged runtime.
pub const RUBY_WASM_RUBY_VERSION: &'static str = "3_2";

/// Target triple of the packaged runtime.
pub const RUBY_WASM_TARGET: &'static str = "wasm32-unknown-wasi";

/// Build profile of the packaged runtime.
pub const RUBY_WASM_PROFILE: &'static str = "minimal";

/// The base name of the unpacked release:
/// version, `-ruby-`, series, `-`, target, `-`, profile.
pub open spec fn base_name_spec() -> Seq<char> {
    RUBY_WASM_VERSION@ + "-ruby-"@ + RUBY_WASM_RUBY_VERSION@ + "-"@ + RUBY_WASM_TARGET@ + "-"@
        + RUBY_WASM_PROFILE@
}

/// Base name of the directory that the release archive unpacks to.
pub fn ruby_wasm_base_name() -> (name: String)
    ensures
        name@ == base_name_spec(),
{
    let mut name = String::from_str(RUBY_WASM_VERSION);
    name.append("-ruby-");
    name.append(RUBY_WASM_RUBY_VERSION);
    name.append("-");
    name.append(RUBY_WASM_TARGET);
    name.append("-");
    name.append(RUBY_WASM_PROFILE);
    name
}

/// Where the release archive is published.
pub open spec fn release_url_spec() -> Seq<char> {
    "https://github.com/ruby/ruby.wasm/releases/download/"@ + RUBY_WASM_VERSION@ + "/ruby-"@
        + RUBY_WASM_RUBY_VERSION@ + "-"@ + RUBY_WASM_TARGET@ + "-"@ + RUBY_WASM_PROFILE@
        + ".tar.gz"@
}

/// Whether a response status asks the client to look elsewhere.
pub open spec fn is_redirection(status: u16) -> bool {
    300 <= status < 400
}

/// Whether a response status reports success.
pub open spec fn is_success(status: u16) -> bool {
    200 <= status < 300
}

/// Where a transfer stands: what the driver was last asked to do.
#[derive(Debug, Clone, Copy, PartialEq, Eq, Structural)]
pub enum DownloadPhase {
    /// Asked whether the target file exists.
    Probing,
    /// Asked to request the current address.
    Requesting,
    /// Asked to create the target file.
    Creating,
    /// Asked for the next frame of the body.
    Receiving,
    /// Asked to write a chunk to the target file.
    Writing,
    /// The transfer has ended, well or badly.
    Finished,
}

/// The `Location` header of a response.
#[derive(Debug, PartialEq, Eq)]
pub enum Location {
    /// The response has no such header.
    Absent,
    /// The header is there but is not text; the cause is given.
    Unreadable(String),
    /// The address that the header names.
    Present(String),
}

/// What the transfer reads of a response before its body.
#[derive(Debug, PartialEq, Eq)]
pub struct ResponseHead {
    /// The numeric status.
    pub status: u16,
    /// The `Location` header.
    pub location: Location,
}

/// One step of a response body.
#[derive(Debug, PartialEq, Eq)]
pub enum Frame {
    /// The body has ended.
    End,
    /// The body broke off; the cause is given.
    Broken(String),
    /// A frame that carries no data.
    Other,
    /// A chunk of data.
    Data(Vec<u8>),
}

/// What the driver reports back after carrying out an action.
#[derive(Debug, PartialEq, Eq)]
pub enum DownloadEvent {
    /// Whether the target exists, or why that could not be learned.
    Probed(Result<bool, String>),
    /// The head of the response, or why the request failed.
    Responded(Result<ResponseHead, String>),
    /// The target file was created, or why it was not.
    Created(Result<(), String>),
    /// The next step of the body.
    Received(Frame),
    /// The chunk was written, or why it was not.
    Written(Result<(), String>),
}

/// Why a transfer failed.
#[derive(Debug, PartialEq, Eq)]
pub enum DownloadError {
    /// The target could not be examined.
    Probe(String),
    /// The request could not be made or was not answered.
    Request(String),
    /// A redirect named no new address.
    MissingLocation { file: String },
    /// A redirect named an address that is not text.
    UnreadableLocation(String),
    /// The server answered with a status that is neither success nor redirect.
    Status { code: u16, file: String },
    /// The target file could not be created.
    Create(String),
    /// The body broke off.
    Body(String),
    /// A chunk could not be written.
    Write(String),
    /// The driver reported something that it had not been asked for.
    OutOfTurn,
}

/// How a status is written out: its number, a space, and the reason phrase
/// that is registered for it.
pub uninterp spec fn status_display(code: u16) -> Seq<char>;

/// `StatusCode::from_u16`, then the status written out through its
/// `Display`. A number from 100 to 999 is a status and is written out; any
/// other is none.
#[verifier::external_body]
fn status_line(code: u16) -> (line: Option<String>)
    ensures
        line is Some <==> 100 <= code <= 999,
        line matches Some(text) ==> text@ == status_display(code),
{
    match hyper::StatusCode::from_u16(code) {
        Ok(status) => Some(status.to_string()),
        Err(_) => None,
    }
}

/// A status in a diagnostic: written out where the number is a status, else
/// the bare number.
pub open spec fn status_text(code: u16) -> Seq<char> {
    if 100 <= code <= 999 {
        status_display(code)
    } else {
        decimal_digits(code as nat)
    }
}

/// What a failed transfer says of itself.
pub open spec fn download_error_text(e: DownloadError) -> Seq<char> {
    match e {
        DownloadError::Probe(cause) => cause@,
        DownloadError::Request(cause) => cause@,
        DownloadError::MissingLocation { file } => {
            "Received redirect without location header when downloading "@ + file@
                + " from GitHub"@
        },
        DownloadError::UnreadableLocation(cause) => cause@,
        DownloadError::Status { code, file } => {
            "Received "@ + status_text(code) + " when downloading from "@ + file@
        },
        DownloadError::Create(cause) => cause@,
        DownloadError::Body(cause) => cause@,
        DownloadError::Write(cause) => cause@,
        DownloadError::OutOfTurn => "download driven out of turn"@,
    }
}

impl DownloadError {
    /// The failure as text.
    pub fn message(&self) -> (text: String)
        ensures
            text@ == download_error_text(*self),
    {
        match self {
            DownloadError::Probe(cause) => cause.clone(),
            DownloadError::Request(cause) => cause.clone(),
            DownloadError::MissingLocation { file } => {
                let mut text = String::from_str(
                    "Received redirect without location header when downloading ",
                );
                text.append(file.as_str());
                text.append(" from GitHub");
                text
            },
            DownloadError::UnreadableLocation(cause) => cause.clone(),
            DownloadError::Status { code, file } => {
                let mut text = String::from_str("Received ");
                match status_line(*code) {
                    Some(line) => text.append(line.as_str()),
                    None => push_decimal_u64(&mut text, *code as u64),
                }
                text.append(" when downloading from ");
                text.append(file.as_str());
                text
            },
            DownloadError::Create(cause) => cause.clone(),
            DownloadError::Body(cause) => cause.clone(),
            DownloadError::Write(cause) => cause.clone(),
            DownloadError::OutOfTurn => String::from_str("download driven out of turn"),
        }
    }
}

/// What the driver is asked to do next.
#[derive(Debug, PartialEq, Eq)]
pub enum DownloadAction {
    /// Find out whether the target file exists.
    Probe,
    /// Request this address.
    Get(String),
    /// Create the target file.
    Create,
    /// Wait for the next frame of the body.
    NextFrame,
    /// Write this chunk to the target file.
    Write(Vec<u8>),
    /// Stop: the transfer has this outcome.
    Finish(Result<(), DownloadError>),
}

/// One transfer of a remote file to a local one.
#[derive(Debug, PartialEq, Eq)]
pub struct Download {
    /// The address that is asked next.
    pub uri: String,
    /// The target's file name, for diagnostics.
    pub file_name: String,
    /// Where the transfer stands.
    pub phase: DownloadPhase,
}

/// The transfer `d` with its phase set to `phase`.
pub open spec fn download_in_phase(d: Download, phase: DownloadPhase) -> Download {
    Download { uri: d.uri, file_name: d.file_name, phase }
}

/// The transfer `d` ended with `error`.
pub open spec fn download_failed(d: Download, error: DownloadError) -> (Download, DownloadAction) {
    (download_in_phase(d, DownloadPhase::Finished), DownloadAction::Finish(Err(error)))
}

/// What a response head leads to while a request is under way: a redirect
/// is followed to the address it names, any other status but success ends the
/// transfer, and success opens the target file.
pub open spec fn after_response(d: Download, head: ResponseHead) -> (Download, DownloadAction) {
    if is_redirection(head.status) {
        match head.location {
            Location::Absent => download_failed(d, DownloadError::MissingLocation { file: d.file_name }),
            Location::Unreadable(cause) => download_failed(d, DownloadError::UnreadableLocation(cause)),
            Location::Present(uri) => (
                Download { uri, file_name: d.file_name, phase: DownloadPhase::Requesting },
                DownloadAction::Get(uri),
            ),
        }
    } else if !is_success(head.status) {
        download_failed(d, DownloadError::Status { code: head.status, file: d.file_name })
    } else {
        (download_in_phase(d, DownloadPhase::Creating), DownloadAction::Create)
    }
}

/// The transfer's rule: the state and the action that follow from a state
/// and what the driver reports.
///
/// An existing target ends the transfer at once, with nothing requested.
/// Every failure that the driver reports ends it with that failure. A report
/// that does not answer the last action ends it with `OutOfTurn`.
pub open spec fn download_next(d: Download, event: DownloadEvent) -> (Download, DownloadAction) {
    match (d.phase, event) {
        (DownloadPhase::Probing, DownloadEvent::Probed(Ok(exists))) => if exists {
            (download_in_phase(d, DownloadPhase::Finished), DownloadAction::Finish(Ok(())))
        } else {
            (download_in_phase(d, DownloadPhase::Requesting), DownloadAction::Get(d.uri))
        },
        (DownloadPhase::Probing, DownloadEvent::Probed(Err(cause))) => download_failed(
            d,
            DownloadError::Probe(cause),
        ),
        (DownloadPhase::Requesting, DownloadEvent::Responded(Ok(head))) => after_response(d, head),
        (DownloadPhase::Requesting, DownloadEvent::Responded(Err(cause))) => download_failed(
            d,
            DownloadError::Request(cause),
        ),
        (DownloadPhase::Creating, DownloadEvent::Created(Ok(_))) => (
            download_in_phase(d, DownloadPhase::Receiving),
            DownloadAction::NextFrame,
        ),
        (DownloadPhase::Creating, DownloadEvent::Created(Err(cause))) => download_failed(
            d,
            DownloadError::Create(cause),
        ),
        (DownloadPhase::Receiving, DownloadEvent::Received(Frame::End)) => (
            download_in_phase(d, DownloadPhase::Finished),
            DownloadAction::Finish(Ok(())),
        ),
        (DownloadPhase::Receiving, DownloadEvent::Received(Frame::Broken(cause))) => download_failed(
            d,
            DownloadError::Body(cause),
        ),
        (DownloadPhase::Receiving, DownloadEvent::Received(Frame::Other)) => (
            d,
            DownloadAction::NextFrame,
        ),
        (DownloadPhase::Receiving, DownloadEvent::Received(Frame::Data(chunk))) => (
            download_in_phase(d, DownloadPhase::Writing),
            DownloadAction::Write(chunk),
        ),
        (DownloadPhase::Writing, DownloadEvent::Written(Ok(_))) => (
            download_in_phase(d, DownloadPhase::Receiving),
            DownloadAction::NextFrame,
        ),
        (DownloadPhase::Writing, DownloadEvent::Written(Err(cause))) => download_failed(
            d,
            DownloadError::Write(cause),
        ),
        _ => download_failed(d, DownloadError::OutOfTurn),
    }
}

impl Download {
    fn fail(&mut self, error: DownloadError) -> (action: DownloadAction)
        ensures
            (*final(self), action) == download_failed(*old(self), error),
    {
        self.phase = DownloadPhase::Finished;
        DownloadAction::Finish(Err(error))
    }

    fn respond(&mut self, head: ResponseHead) -> (action: DownloadAction)
        ensures
            (*final(self), action) == after_response(*old(self), head),
    {
        if 300 <= head.status && head.status < 400 {
            match head.location {
                Location::Absent => {
                    let file = self.file_name.clone();
                    self.fail(DownloadError::MissingLocation { file })
                },
                Location::Unreadable(cause) => self.fail(DownloadError::UnreadableLocation(cause)),
                Location::Present(uri) => {
                    self.uri = uri.clone();
                    self.phase = DownloadPhase::Requesting;
                    DownloadAction::Get(uri)
                },
            }
        } else if !(200 <= head.status && head.status < 300) {
            let file = self.file_name.clone();
            self.fail(DownloadError::Status { code: head.status, file })
        } else {
            self.phase = DownloadPhase::Creating;
            DownloadAction::Create
        }
    }

    /// Takes what the driver reports and says what to do next.
    pub fn step(&mut self, event: DownloadEvent) -> (action: DownloadAction)
        ensures
            (*final(self), action) == download_next(*old(self), event),
    {
        match (self.phase, event) {
            (DownloadPhase::Probing, DownloadEvent::Probed(Ok(exists))) => {
                if exists {
                    self.phase = DownloadPhase::Finished;
                    DownloadAction::Finish(Ok(()))
                } else {
                    self.phase = DownloadPhase::Requesting;
                    DownloadAction::Get(self.uri.clone())
                }
            },
            (DownloadPhase::Probing, DownloadEvent::Probed(Err(cause))) => self.fail(
                DownloadError::Probe(cause),
            ),
            (DownloadPhase::Requesting, DownloadEvent::Responded(Ok(head))) => self.respond(head),
            (DownloadPhase::Requesting, DownloadEvent::Responded(Err(cause))) => self.fail(
                DownloadError::Request(cause),
            ),
            (DownloadPhase::Creating, DownloadEvent::Created(Ok(_))) => {
                self.phase = DownloadPhase::Receiving;
                DownloadAction::NextFrame
            },
            (DownloadPhase::Creating, DownloadEvent::Created(Err(cause))) => self.fail(
                DownloadError::Create(cause),
            ),
            (DownloadPhase::Receiving, DownloadEvent::Received(Frame::End)) => {
                self.phase = DownloadPhase::Finished;
                DownloadAction::Finish(Ok(()))
            },
            (DownloadPhase::Receiving, DownloadEvent::Received(Frame::Broken(cause))) => self.fail(
                DownloadError::Body(cause),
            ),
            (DownloadPhase::Receiving, DownloadEvent::Received(Frame::Other)) => {
                DownloadAction::NextFrame
            },
            (DownloadPhase::Receiving, DownloadEvent::Received(Frame::Data(chunk))) => {
                self.phase = DownloadPhase::Writing;
                DownloadAction::Write(chunk)
            },
            (DownloadPhase::Writing, DownloadEvent::Written(Ok(_))) => {
                self.phase = DownloadPhase::Receiving;
                DownloadAction::NextFrame
            },
            (DownloadPhase::Writing, DownloadEvent::Written(Err(cause))) => self.fail(
                DownloadError::Write(cause),
            ),
            _ => self.fail(DownloadError::OutOfTurn),
        }
    }
}

/// Starts the transfer of `uri` to the file called `file_name`. Nothing has
/// been asked yet: the first thing to learn is whether the target exists.
pub fn download(uri: String, file_name: String) -> (start: (Download, DownloadAction))
    ensures
        start.0 == (Download { uri, file_name, phase: DownloadPhase::Probing }),
        start.1 == DownloadAction::Probe,
{
    (Download { uri, file_name, phase: DownloadPhase::Probing }, DownloadAction::Probe)
}

/// Starts the transfer of the pinned release archive.
pub fn download_ruby_wasm(file_name: String) -> (start: (Download, DownloadAction))
    ensures
        start.0.uri@ == release_url_spec(),
        start.0.file_name == file_name,
        start.0.phase == DownloadPhase::Probing,
        start.1 == DownloadAction::Probe,
{
    let mut uri = String::from_str("https://github.com/ruby/ruby.wasm/releases/download/");
    uri.append(RUBY_WASM_VERSION);
    uri.append("/ruby-");
    uri.append(RUBY_WASM_RUBY_VERSION);
    uri.append("-");
    uri.append(RUBY_WASM_TARGET);
    uri.append("-");
    uri.append(RUBY_WASM_PROFILE);
    uri.append(".tar.gz");
    download(uri, file_name)
}

/// The command that unpacks an archive.
#[derive(Debug, PartialEq, Eq)]
pub struct TarCommand {
    /// The program to run.
    pub program: String,
    /// Its arguments.
    pub args: Vec<String>,
    /// The directory to run it in.
    pub directory: String,
}

/// The command that unpacks `archive` into `extract_to`, leaving out the
/// first `components_to_strip` components of each path in it.
pub open spec fn unpacks(
    command: TarCommand,
    archive: String,
    extract_to: String,
    components_to_strip: i32,
) -> bool {
    &&& command.program@ == "tar"@
    &&& command.directory == extract_to
    &&& command.args@.len() == 4
    &&& command.args@[0]@ == "-xf"@
    &&& command.args@[1] == archive
    &&& command.args@[2]@ == "--strip-components"@
    &&& command.args@[3]@ == decimal(components_to_strip as int)
}

/// How the unpacking program ended.
#[derive(Debug, PartialEq, Eq)]
pub struct TarOutput {
    /// Whether it reported success.
    pub success: bool,
    /// What it wrote to its standard error.
    pub stderr: String,
}

/// Why an archive was not unpacked.
#[derive(Debug, PartialEq, Eq)]
pub enum ExtractError {
    /// The target directory could not be created.
    CreateDirectory(String),
    /// The program could not be run.
    Spawn(String),
    /// The program ran and reported failure.
    Failed { archive: String, stderr: String },
    /// The extraction was driven against its protocol.
    OutOfTurn,
}

/// What a failed extraction says of itself.
pub open spec fn extract_error_text(e: ExtractError) -> Seq<char> {
    match e {
        ExtractError::CreateDirectory(cause) => cause@,
        ExtractError::Spawn(cause) => cause@,
        ExtractError::Failed { archive, stderr } => {
            "Unpacking "@ + archive@ + " failed: "@ + stderr@
        },
        ExtractError::OutOfTurn => "extraction driven out of turn"@,
    }
}

impl ExtractError {
    /// The failure as text.
    pub fn message(&self) -> (text: String)
        ensures
            text@ == extract_error_text(*self),
    {
        match self {
            ExtractError::CreateDirectory(cause) => cause.clone(),
            ExtractError::Spawn(cause) => cause.clone(),
            ExtractError::Failed { archive, stderr } => {
                let mut text = String::from_str("Unpacking ");
                text.append(archive.as_str());
                text.append(" failed: ");
                text.append(stderr.as_str());
                text
            },
            ExtractError::OutOfTurn => String::from_str("extraction driven out of turn"),
        }
    }
}

/// What an extraction is waiting for.
#[derive(Debug, Clone, Copy, PartialEq, Eq, Structural)]
pub enum ExtractPhase {
    /// Asked whether the target directory exists.
    Probing,
    /// Asked to create the target directory.
    Creating,
    /// Asked to run the unpacking program.
    Running,
    /// The extraction has ended, well or badly.
    Finished,
}

/// What the driver reports back.
#[derive(Debug, PartialEq, Eq)]
pub enum ExtractEvent {
    /// Whether the target directory exists.
    Probed(bool),
    /// The target directory was created, or why it was not.
    Created(Result<(), String>),
    /// How the program ended, or why it could not be run.
    Ran(Result<TarOutput, String>),
}

/// What the driver is asked to do next.
#[derive(Debug, PartialEq, Eq)]
pub enum ExtractAction {
    /// Find out whether this directory exists.
    Probe(String),
    /// Create this directory.
    CreateDirectory(String),
    /// Run this command and collect its output.
    Run(TarCommand),
    /// Stop: the extraction has this outcome.
    Finish(Result<(), ExtractError>),
}

/// One extraction of an archive into a directory.
#[derive(Debug, PartialEq, Eq)]
pub struct Extraction {
    /// What the extraction is waiting for.
    pub phase: ExtractPhase,
    /// The archive, for diagnostics.
    pub archive: String,
    /// The target directory.
    pub extract_to: String,
    /// The command, until it has been handed out.
    pub command: Option<TarCommand>,
}

/// The extraction `x` ended with `outcome`.
pub open spec fn extraction_ended(x: Extraction, outcome: Result<(), ExtractError>) -> (
    Extraction,
    ExtractAction,
) {
    (
        Extraction {
            phase: ExtractPhase::Finished,
            archive: x.archive,
            extract_to: x.extract_to,
            command: None,
        },
        ExtractAction::Finish(outcome),
    )
}

/// The extraction `x` handing out `command` to be run.
pub open spec fn extraction_running(x: Extraction, command: TarCommand) -> (
    Extraction,
    ExtractAction,
) {
    (
        Extraction {
            phase: ExtractPhase::Running,
            archive: x.archive,
            extract_to: x.extract_to,
            command: None,
        },
        ExtractAction::Run(command),
    )
}

/// The extraction's rule. A target directory that is missing is created
/// first. The program is then run, and the extraction succeeds exactly when
/// the program reports success; otherwise it fails with what the program
/// wrote to its standard error. A report that does not answer the last
/// action ends the extraction with `OutOfTurn`.
pub open spec fn extract_next(x: Extraction, event: ExtractEvent) -> (Extraction, ExtractAction) {
    match (x.phase, event, x.command) {
        (ExtractPhase::Probing, ExtractEvent::Probed(exists), Some(command)) => if exists {
            extraction_running(x, command)
        } else {
            (
                Extraction {
                    phase: ExtractPhase::Creating,
                    archive: x.archive,
                    extract_to: x.extract_to,
                    command: Some(command),
                },
                ExtractAction::CreateDirectory(x.extract_to),
            )
        },
        (ExtractPhase::Creating, ExtractEvent::Created(Ok(_)), Some(command)) => {
            extraction_running(x, command)
        },
        (ExtractPhase::Creating, ExtractEvent::Created(Err(cause)), _) => extraction_ended(
            x,
            Err(ExtractError::CreateDirectory(cause)),
        ),
        (ExtractPhase::Running, ExtractEvent::Ran(Ok(output)), _) => if output.success {
            extraction_ended(x, Ok(()))
        } else {
            extraction_ended(
                x,
                Err(ExtractError::Failed { archive: x.archive, stderr: output.stderr }),
            )
        },
        (ExtractPhase::Running, ExtractEvent::Ran(Err(cause)), _) => extraction_ended(
            x,
            Err(ExtractError::Spawn(cause)),
        ),
        _ => extraction_ended(x, Err(ExtractError::OutOfTurn)),
    }
}

impl Extraction {
    fn end(&mut self, outcome: Result<(), ExtractError>) -> (action: ExtractAction)
        ensures
            (*final(self), action) == extraction_ended(*old(self), outcome),
    {
        self.phase = ExtractPhase::Finished;
        self.command = None;
        ExtractAction::Finish(outcome)
    }

    fn run(&mut self, command: TarCommand) -> (action: ExtractAction)
        ensures
            (*final(self), action) == extraction_running(*old(self), command),
    {
        self.phase = ExtractPhase::Running;
        self.command = None;
        ExtractAction::Run(command)
    }

    /// Takes what the driver reports and says what to do next.
    pub fn step(&mut self, event: ExtractEvent) -> (action: ExtractAction)
        ensures
            (*final(self), action) == extract_next(*old(self), event),
    {
        let command = self.command.take();
        match (self.phase, event, command) {
            (ExtractPhase::Probing, ExtractEvent::Probed(exists), Some(command)) => {
                if exists {
                    self.run(command)
                } else {
                    self.phase = ExtractPhase::Creating;
                    self.command = Some(command);
                    ExtractAction::CreateDirectory(self.extract_to.clone())
                }
            },
            (ExtractPhase::Creating, ExtractEvent::Created(Ok(_)), Some(command)) => self.run(
                command,
            ),
            (ExtractPhase::Creating, ExtractEvent::Created(Err(cause)), _) => self.end(
                Err(ExtractError::CreateDirectory(cause)),
            ),
            (ExtractPhase::Running, ExtractEvent::Ran(Ok(output)), _) => {
                if output.success {
                    self.end(Ok(()))
                } else {
                    let archive = self.archive.clone();
                    self.end(Err(ExtractError::Failed { archive, stderr: output.stderr }))
                }
            },
            (ExtractPhase::Running, ExtractEvent::Ran(Err(cause)), _) => self.end(
                Err(ExtractError::Spawn(cause)),
            ),
            _ => self.end(Err(ExtractError::OutOfTurn)),
        }
    }
}

/// Starts the extraction of `archive` into `extract_to`: the command is
/// fixed, and the first thing to learn is whether the target directory
/// exists.
pub fn extract_tar(archive: String, extract_to: String, components_to_strip: i32) -> (start: (
    Extraction,
    ExtractAction,
))
    ensures
        start.0.phase == ExtractPhase::Probing,
        start.0.archive == archive,
        start.0.extract_to == extract_to,
        start.0.command matches Some(command) && unpacks(
            command,
            archive,
            extract_to,
            components_to_strip,
        ),
        start.1 == ExtractAction::Probe(extract_to),
{
    let mut args: Vec<String> = Vec::new();
    args.push(String::from_str("-xf"));
    args.push(archive.clone());
    args.push(String::from_str("--strip-components"));
    args.push(decimal_string(components_to_strip));
    let command = TarCommand {
        program: String::from_str("tar"),
        args,
        directory: extract_to.clone(),
    };
    let probe = ExtractAction::Probe(extract_to.clone());
    (Extraction { phase: ExtractPhase::Probing, archive, extract_to, command: Some(command) }, probe)
}

} // verus!
