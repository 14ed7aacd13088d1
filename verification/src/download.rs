use vstd::prelude::*;
use crate::error::{bytes_model, ErrorKind, ErrorModel};
use crate::output::CommandOutput;
use crate::platform::OsFamily;
use crate::text::{opt_chars, starts_with};

verus! {

/// The only scheme that is fetched.
pub const HTTPS_SCHEME: &'static str = "https://";

/// Whether `url` may be fetched: it begins with `https://`.
pub open spec fn is_secure(url: Seq<char>) -> bool {
    HTTPS_SCHEME@.is_prefix_of(url)
}

/// What the transport is asked to do for one download.
#[derive(Debug, PartialEq, Eq)]
pub struct TransferRequest {
    pub url: String,
    /// The HTTPS proxy to go through, if one is configured.
    pub proxy: Option<String>,
    pub follow_redirects: bool,
    /// Whether a byte-progress bar may be shown.
    pub show_progress: bool,
    /// Whether the TLS stack is told to skip certificate revocation checks.
    pub skip_revocation_check: bool,
}

/// What a [`TransferRequest`] stands for.
pub struct TransferRequestModel {
    pub url: Seq<char>,
    pub proxy: Option<Seq<char>>,
    pub follow_redirects: bool,
    pub show_progress: bool,
    pub skip_revocation_check: bool,
}

impl View for TransferRequest {
    type V = TransferRequestModel;

    open spec fn view(&self) -> TransferRequestModel {
        TransferRequestModel {
            url: self.url@,
            proxy: opt_chars(self.proxy),
            follow_redirects: self.follow_redirects,
            show_progress: self.show_progress,
            skip_revocation_check: self.skip_revocation_check,
        }
    }
}

/// How a transfer ended.
#[derive(Debug, PartialEq, Eq)]
pub enum TransferOutcome {
    /// The transport failed before a response was complete.
    Failed,
    /// A response arrived, with its status and its whole body in memory.
    Completed { status: u32, body: Vec<u8> },
}

/// What a [`TransferOutcome`] stands for.
pub enum TransferOutcomeModel {
    Failed,
    Completed { status: u32, body: Seq<u8> },
}

impl View for TransferOutcome {
    type V = TransferOutcomeModel;

    open spec fn view(&self) -> TransferOutcomeModel {
        match self {
            TransferOutcome::Failed => TransferOutcomeModel::Failed,
            TransferOutcome::Completed { status, body } => TransferOutcomeModel::Completed {
                status: *status,
                body: body@,
            },
        }
    }
}

/// What is asked of the transport for `url`, or the refusal of an insecure
/// URL: redirects are followed, progress is shown unless the mode is
/// quiet, and on an operating system whose TLS stack checks revocation by
/// default that check is switched off.
pub open spec fn planned_transfer(
    url: Seq<char>,
    output: CommandOutput,
    proxy: Option<Seq<char>>,
    os: OsFamily,
) -> Result<TransferRequestModel, ErrorModel> {
    if is_secure(url) {
        Ok(
            TransferRequestModel {
                url,
                proxy,
                follow_redirects: true,
                show_progress: output.speaks(),
                skip_revocation_check: os.checks_revocation_by_default(),
            },
        )
    } else {
        Err(ErrorModel::InsecureScheme)
    }
}

/// What a download of `url` gives when the transfer ended in `outcome`,
/// with a 404 told apart: it gives nothing, and is no error.
pub open spec fn lenient_download_result(url: Seq<char>, outcome: TransferOutcomeModel) -> Result<
    Option<Seq<u8>>,
    ErrorModel,
> {
    if !is_secure(url) {
        Err(ErrorModel::InsecureScheme)
    } else {
        match outcome {
            TransferOutcomeModel::Failed => Err(ErrorModel::Network),
            TransferOutcomeModel::Completed { status, body } => if status == 404 {
                Ok(None)
            } else if !is_success(status) {
                Err(ErrorModel::HttpStatus(status))
            } else {
                Ok(Some(body))
            },
        }
    }
}

/// What a download of `url` gives when the transfer ended in `outcome`.
pub open spec fn download_result(url: Seq<char>, outcome: TransferOutcomeModel) -> Result<
    Seq<u8>,
    ErrorModel,
> {
    match lenient_download_result(url, outcome) {
        Ok(Some(body)) => Ok(body),
        Ok(None) => Err(ErrorModel::NotFound),
        Err(e) => Err(e),
    }
}

/// Whether `status` is a 2xx status.
pub open spec fn is_success(status: u32) -> bool {
    200 <= status < 300
}

/// Prepares the download of `url`, or refuses it before anything is sent.
///
/// Redirects are followed; the proxy is passed on as configured; on an
/// operating system whose TLS stack checks revocation by default, that check
/// is switched off, so that inspecting proxies keep working.
pub fn transfer_request(
    url: &str,
    output: CommandOutput,
    proxy: Option<String>,
    os: OsFamily,
) -> (r: Result<TransferRequest, ErrorKind>)
    ensures
        match planned_transfer(url@, output, opt_chars(proxy), os) {
            Ok(planned) => r matches Ok(request) && request@ == planned,
            Err(e) => r matches Err(refusal) && refusal@ == e,
        },
{
    if !starts_with(url, HTTPS_SCHEME) {
        return Err(ErrorKind::InsecureScheme);
    }
    Ok(
        TransferRequest {
            url: url.to_owned(),
            proxy,
            follow_redirects: true,
            show_progress: !output.is_quiet(),
            skip_revocation_check: os.is_windows(),
        },
    )
}

/// What to do with the progress bar after a progress report.
#[derive(Clone, Copy, Debug, PartialEq, Eq, Structural)]
pub enum ProgressUpdate {
    /// Leave the display as it is.
    Nothing,
    /// Put up a bar for `total` bytes, at `position`.
    Start { total: u64, position: u64 },
    /// Move the bar to `position`.
    Move { position: u64 },
    /// Finish the bar and clear it from the display.
    Clear,
}

/// Whether a progress bar is currently on display.
#[derive(Clone, Copy, Debug, PartialEq, Eq, Structural)]
pub struct Progress {
    pub shown: bool,
}

impl Progress {
    pub fn new() -> (p: Progress)
        ensures
            !p.shown,
    {
        Progress { shown: false }
    }

    /// Takes one progress report: `position` of `total` bytes have arrived,
    /// where a `total` of zero means that the size is not known.
    ///
    /// A bar is on display exactly while the size is known, the download is
    /// incomplete and the mode is not quiet; it is cleared by the first
    /// report that shows the download complete.
    pub fn report(&mut self, output: CommandOutput, total: u64, position: u64) -> (update:
        ProgressUpdate)
        ensures
            !output.speaks() || total == 0 ==> update == ProgressUpdate::Nothing && *final(self)
                == *old(self),
            output.speaks() && 0 < total && position < total ==> final(self).shown && update == (
            if old(self).shown {
                ProgressUpdate::Move { position }
            } else {
                ProgressUpdate::Start { total, position }
            }),
            output.speaks() && 0 < total && position >= total ==> !final(self).shown && update
                == (if old(self).shown {
                ProgressUpdate::Clear
            } else {
                ProgressUpdate::Nothing
            }),
    {
        if output.is_quiet() || total == 0 {
            return ProgressUpdate::Nothing;
        }
        if position < total {
            let was_shown = self.shown;
            self.shown = true;
            if was_shown {
                ProgressUpdate::Move { position }
            } else {
                ProgressUpdate::Start { total, position }
            }
        } else if self.shown {
            self.shown = false;
            ProgressUpdate::Clear
        } else {
            ProgressUpdate::Nothing
        }
    }
}

/// The result of downloading `url`, given how the transfer ended, where a
/// 404 is an answer of its own: `Ok(None)`.
///
/// An insecure URL is refused whatever the transfer is said to have done:
/// no transfer is made for one (see [`transfer_request`]).
pub fn download_url_ignore_404(url: &str, outcome: TransferOutcome) -> (r: Result<
    Option<Vec<u8>>,
    ErrorKind,
>)
    ensures
        match lenient_download_result(url@, outcome@) {
            Ok(Some(body)) => r matches Ok(Some(bytes)) && bytes@ == body,
            Ok(None) => r matches Ok(None),
            Err(e) => r matches Err(error) && error@ == e,
        },
{
    if !starts_with(url, HTTPS_SCHEME) {
        return Err(ErrorKind::InsecureScheme);
    }
    match outcome {
        TransferOutcome::Failed => Err(ErrorKind::Network),
        TransferOutcome::Completed { status, body } => {
            if status == 404 {
                Ok(None)
            } else if status < 200 || status >= 300 {
                Err(ErrorKind::HttpStatus(status))
            } else {
                Ok(Some(body))
            }
        },
    }
}

/// The result of downloading `url`, given how the transfer ended.
pub fn download_url(url: &str, outcome: TransferOutcome) -> (r: Result<Vec<u8>, ErrorKind>)
    ensures
        bytes_model(r) == download_result(url@, outcome@),
{
    match download_url_ignore_404(url, outcome) {
        Ok(Some(bytes)) => Ok(bytes),
        Ok(None) => Err(ErrorKind::NotFound),
        Err(e) => Err(e),
    }
}

} // verus!
