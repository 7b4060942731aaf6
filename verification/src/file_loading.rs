//! The data of one file acquisition: the file itself, the ways an
//! acquisition can fail, the state shown while it runs, and the decisions
//! of the two pickers (the blocking native dialog, the browser's file input).

use vstd::prelude::*;
use vstd::string::StringExecFns;

verus! {

/// Details of a loaded file.
#[derive(Debug, PartialEq, Eq)]
pub struct FileDetails {
    /// The filename.
    pub file_name: String,
    /// The bytes of the file.
    pub file_content: Vec<u8>,
}

/// Mathematical value of a [`FileDetails`].
pub struct FileDetailsView {
    pub file_name: Seq<char>,
    pub file_content: Seq<u8>,
}

impl View for FileDetails {
    type V = FileDetailsView;

    open spec fn view(&self) -> FileDetailsView {
        FileDetailsView { file_name: self.file_name@, file_content: self.file_content@ }
    }
}

impl Clone for FileDetails {
    /// An independent copy with the same name and the same bytes.
    fn clone(&self) -> (copy: Self)
        ensures
            copy@ == self@,
    {
        FileDetails { file_name: self.file_name.clone(), file_content: self.file_content.clone() }
    }
}

/// Why an acquisition failed.
#[derive(Debug, PartialEq, Eq)]
pub enum FileError {
    /// The user closed the picker without choosing a file.
    NoFileSelected,
    /// Reading the chosen file failed; holds the reason.
    IoError(String),
    /// The chosen path has no file name that can be shown.
    NameExtractionError,
}

/// Mathematical value of a [`FileError`].
pub enum FileErrorView {
    NoFileSelected,
    IoError(Seq<char>),
    NameExtractionError,
}

impl FileErrorView {
    /// The text shown for this failure. A read failure is shown by its
    /// reason, unchanged.
    pub open spec fn message(self) -> Seq<char> {
        match self {
            FileErrorView::NoFileSelected => "No file selected"@,
            FileErrorView::IoError(reason) => reason,
            FileErrorView::NameExtractionError => "Getting the filename from the path"@,
        }
    }
}

impl View for FileError {
    type V = FileErrorView;

    open spec fn view(&self) -> FileErrorView {
        match self {
            FileError::NoFileSelected => FileErrorView::NoFileSelected,
            FileError::IoError(reason) => FileErrorView::IoError(reason@),
            FileError::NameExtractionError => FileErrorView::NameExtractionError,
        }
    }
}

impl Clone for FileError {
    fn clone(&self) -> (copy: Self)
        ensures
            copy@ == self@,
    {
        match self {
            FileError::NoFileSelected => FileError::NoFileSelected,
            FileError::IoError(reason) => FileError::IoError(reason.clone()),
            FileError::NameExtractionError => FileError::NameExtractionError,
        }
    }
}

impl FileError {
    /// The text to show the user for this failure.
    pub fn message(&self) -> (text: String)
        ensures
            text@ == self@.message(),
    {
        match self {
            FileError::NoFileSelected => String::from_str("No file selected"),
            FileError::IoError(reason) => reason.clone(),
            FileError::NameExtractionError => String::from_str(
                "Getting the filename from the path",
            ),
        }
    }
}

/// What a picker hands back for one request: the file, or the failure.
pub type FileAcquisitionResult = Result<FileDetails, FileError>;

/// Mathematical value of a [`FileAcquisitionResult`].
pub open spec fn acquisition_view(outcome: FileAcquisitionResult) -> Result<
    FileDetailsView,
    FileErrorView,
> {
    match outcome {
        Ok(details) => Ok(details@),
        Err(error) => Err(error@),
    }
}

/// State of file loading operation
#[derive(Debug, PartialEq, Eq)]
pub enum FileLoadingState {
    /// No file was requested yet.
    Idle,
    /// A request is in flight; there is no content to show.
    Loading,
    /// The request succeeded; holds the file.
    Loaded(FileDetails),
    /// The request failed; holds the text to show.
    Error(String),
}

/// Mathematical value of a [`FileLoadingState`].
pub enum FileLoadingStateView {
    Idle,
    Loading,
    Loaded(FileDetailsView),
    Error(Seq<char>),
}

impl View for FileLoadingState {
    type V = FileLoadingStateView;

    open spec fn view(&self) -> FileLoadingStateView {
        match self {
            FileLoadingState::Idle => FileLoadingStateView::Idle,
            FileLoadingState::Loading => FileLoadingStateView::Loading,
            FileLoadingState::Loaded(details) => FileLoadingStateView::Loaded(details@),
            FileLoadingState::Error(message) => FileLoadingStateView::Error(message@),
        }
    }
}

/// The state that shows the outcome of a request: the file as it was handed
/// over, or the failure's text.
pub open spec fn resolved_state(
    outcome: Result<FileDetailsView, FileErrorView>,
) -> FileLoadingStateView {
    match outcome {
        Ok(details) => FileLoadingStateView::Loaded(details),
        Err(error) => FileLoadingStateView::Error(error.message()),
    }
}

impl Clone for FileLoadingState {
    fn clone(&self) -> (copy: Self)
        ensures
            copy@ == self@,
    {
        match self {
            FileLoadingState::Idle => FileLoadingState::Idle,
            FileLoadingState::Loading => FileLoadingState::Loading,
            FileLoadingState::Loaded(details) => FileLoadingState::Loaded(details.clone()),
            FileLoadingState::Error(message) => FileLoadingState::Error(message.clone()),
        }
    }
}

impl FileLoadingState {
    /// Whether a request is in flight.
    pub fn is_loading(&self) -> (loading: bool)
        ensures
            loading == (self@ is Loading),
    {
        match self {
            FileLoadingState::Loading => true,
            _ => false,
        }
    }

    /// The state that shows `outcome`.
    pub fn from_outcome(outcome: FileAcquisitionResult) -> (state: Self)
        ensures
            state@ == resolved_state(acquisition_view(outcome)),
    {
        match outcome {
            Ok(details) => FileLoadingState::Loaded(details),
            Err(error) => FileLoadingState::Error(error.message()),
        }
    }
}

/// What the native picker and the file system reported for one chosen path.
#[derive(Debug)]
pub struct PickedFile {
    /// The last component of the chosen path, where it has one that is text.
    pub file_name: Option<String>,
    /// The bytes read from the path, or the reason why the read failed.
    pub contents: Result<Vec<u8>, String>,
}

/// The outcome of a request made through the blocking native dialog.
///
/// `pick` is `None` when the user closed the dialog without choosing. A failed
/// read is reported before a missing name.
pub fn file_details_from_pick(pick: Option<PickedFile>) -> (outcome: FileAcquisitionResult)
    ensures
        match pick {
            None => acquisition_view(outcome) == Err::<FileDetailsView, _>(
                FileErrorView::NoFileSelected,
            ),
            Some(picked) => match picked.contents {
                Err(reason) => acquisition_view(outcome) == Err::<FileDetailsView, _>(
                    FileErrorView::IoError(reason@),
                ),
                Ok(bytes) => match picked.file_name {
                    None => acquisition_view(outcome) == Err::<FileDetailsView, _>(
                        FileErrorView::NameExtractionError,
                    ),
                    Some(name) => acquisition_view(outcome) == Ok::<_, FileErrorView>(
                        (FileDetailsView { file_name: name@, file_content: bytes@ }),
                    ),
                },
            },
        },
{
    match pick {
        None => Err(FileError::NoFileSelected),
        Some(picked) => match picked.contents {
            Err(reason) => Err(FileError::IoError(reason)),
            Ok(bytes) => match picked.file_name {
                None => Err(FileError::NameExtractionError),
                Some(name) => Ok(FileDetails { file_name: name, file_content: bytes }),
            },
        },
    }
}

/// Progress of one request made through the browser's file input.
#[derive(Debug, PartialEq, Eq)]
pub enum WebRequest {
    /// The picker is open and nothing was chosen yet. A picker that the user
    /// dismisses stays here for good: the browser sends no event for it.
    AwaitingSelection,
    /// A file was chosen and its bytes are being read. Holds the file's name.
    Reading(String),
    /// The request has resolved, once and for all.
    Resolved,
}

/// What the browser reports while a request runs.
#[derive(Debug)]
pub enum WebEvent {
    /// The input's selection changed. Holds the names of the chosen files.
    SelectionChanged(Vec<String>),
    /// The byte reader finished. Holds the bytes of the first chosen file.
    ReadCompleted(Vec<u8>),
    /// The byte reader failed.
    ReadFailed,
}

/// What is to be done after an event.
#[derive(Debug, PartialEq, Eq)]
pub enum WebAction {
    /// Nothing: the event does not concern the request as it stands.
    Ignore,
    /// Start reading the bytes of the first chosen file.
    ReadFirstFile,
    /// Hand the outcome to whoever awaits the request.
    Resolve(FileAcquisitionResult),
}

/// Mathematical value of a [`WebRequest`].
pub enum WebRequestView {
    AwaitingSelection,
    Reading(Seq<char>),
    Resolved,
}

impl View for WebRequest {
    type V = WebRequestView;

    open spec fn view(&self) -> WebRequestView {
        match self {
            WebRequest::AwaitingSelection => WebRequestView::AwaitingSelection,
            WebRequest::Reading(file_name) => WebRequestView::Reading(file_name@),
            WebRequest::Resolved => WebRequestView::Resolved,
        }
    }
}

/// Mathematical value of a [`WebEvent`].
pub enum WebEventView {
    SelectionChanged(Seq<Seq<char>>),
    ReadCompleted(Seq<u8>),
    ReadFailed,
}

impl View for WebEvent {
    type V = WebEventView;

    open spec fn view(&self) -> WebEventView {
        match self {
            WebEvent::SelectionChanged(names) => WebEventView::SelectionChanged(
                names.deep_view(),
            ),
            WebEvent::ReadCompleted(bytes) => WebEventView::ReadCompleted(bytes@),
            WebEvent::ReadFailed => WebEventView::ReadFailed,
        }
    }
}

/// Mathematical value of a [`WebAction`].
pub enum WebActionView {
    Ignore,
    ReadFirstFile,
    Resolve(Result<FileDetailsView, FileErrorView>),
}

impl View for WebAction {
    type V = WebActionView;

    open spec fn view(&self) -> WebActionView {
        match self {
            WebAction::Ignore => WebActionView::Ignore,
            WebAction::ReadFirstFile => WebActionView::ReadFirstFile,
            WebAction::Resolve(outcome) => WebActionView::Resolve(acquisition_view(*outcome)),
        }
    }
}

/// The answer to `event` for a request in state `before`: the request's next
/// state, and what is to be done.
///
/// An empty selection fails the request. A selection starts the read of its
/// first file and keeps that file's name. The end of the read resolves the
/// request with that name and the bytes read, its failure with a read error.
/// Every other pair of state and event changes nothing.
pub open spec fn web_step(before: WebRequestView, event: WebEventView) -> (
    WebRequestView,
    WebActionView,
) {
    match (before, event) {
        (WebRequestView::AwaitingSelection, WebEventView::SelectionChanged(names)) => {
            if names.len() == 0 {
                (
                    WebRequestView::Resolved,
                    WebActionView::Resolve(Err(FileErrorView::NoFileSelected)),
                )
            } else {
                (WebRequestView::Reading(names[0]), WebActionView::ReadFirstFile)
            }
        },
        (WebRequestView::Reading(file_name), WebEventView::ReadCompleted(bytes)) => (
            WebRequestView::Resolved,
            WebActionView::Resolve(
                Ok(FileDetailsView { file_name: file_name, file_content: bytes }),
            ),
        ),
        (WebRequestView::Reading(_), WebEventView::ReadFailed) => (
            WebRequestView::Resolved,
            WebActionView::Resolve(Err(FileErrorView::IoError("Failed to read file"@))),
        ),
        _ => (before, WebActionView::Ignore),
    }
}

/// Answers one event of the browser for a request in state `before`: the
/// request's next state, and what is to be done.
pub fn web_request_step(before: WebRequest, event: WebEvent) -> (step: (WebRequest, WebAction))
    ensures
        (step.0@, step.1@) == web_step(before@, event@),
{
    match before {
        WebRequest::AwaitingSelection => match event {
            WebEvent::SelectionChanged(names) => {
                let mut names = names;
                if names.len() == 0 {
                    (WebRequest::Resolved, WebAction::Resolve(Err(FileError::NoFileSelected)))
                } else {
                    let name = names.swap_remove(0);
                    (WebRequest::Reading(name), WebAction::ReadFirstFile)
                }
            },
            _ => (WebRequest::AwaitingSelection, WebAction::Ignore),
        },
        WebRequest::Reading(name) => match event {
            WebEvent::ReadCompleted(bytes) => (
                WebRequest::Resolved,
                WebAction::Resolve(Ok(FileDetails { file_name: name, file_content: bytes })),
            ),
            WebEvent::ReadFailed => (
                WebRequest::Resolved,
                WebAction::Resolve(
                    Err(FileError::IoError(String::from_str("Failed to read file"))),
                ),
            ),
            _ => (WebRequest::Reading(name), WebAction::Ignore),
        },
        WebRequest::Resolved => (WebRequest::Resolved, WebAction::Ignore),
    }
}

/// A request through the browser's file input resolves at most once: the
/// step that resolves it leaves it `Resolved`, no other step does, and a
/// request that is `Resolved` ignores every event and stays as it is.
pub proof fn lemma_web_request_resolves_once(before: WebRequestView, event: WebEventView)
    ensures
        web_step(before, event).1 is Resolve <==> !(before is Resolved) && web_step(
            before,
            event,
        ).0 is Resolved,
        before is Resolved ==> web_step(before, event) == (before, WebActionView::Ignore),
{
}

} // verus!
