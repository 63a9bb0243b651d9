use vstd::prelude::*;
use vstd::string::StringExecFns;

use crate::text::{decimal, push_decimal, push_str};

verus! {

/// One mebibyte.
pub const MIB: u64 = 1048576;

/// How a download starts, given what is already on disk and what the server announced.
#[derive(PartialEq, Eq, Structural, Clone, Copy, Debug)]
pub struct TransferPlan {
    /// The file is already complete: nothing to download.
    pub skip: bool,
    /// The partial file is larger than the remote file and is deleted first.
    pub discard_partial: bool,
    /// The byte offset to request the file from (0: the whole file).
    pub start_at: u64,
}

/// What the first step of a download does: `existing` bytes are on disk, and the server
/// answered a `HEAD` request with this content length (`None`: no answer, or no length).
pub open spec fn transfer_plan(existing: u64, remote_len: Option<u64>) -> TransferPlan {
    match remote_len {
        Some(len) => if existing == len {
            TransferPlan { skip: true, discard_partial: false, start_at: existing }
        } else if existing > len {
            TransferPlan { skip: false, discard_partial: true, start_at: 0 }
        } else {
            TransferPlan { skip: false, discard_partial: false, start_at: existing }
        },
        None => TransferPlan { skip: false, discard_partial: false, start_at: existing },
    }
}


/// Law: a download is skipped exactly when the server's length is known and equals what is
/// on disk; otherwise it never starts past what is on disk nor, when the length is known,
/// at or past the end of the remote file, and a partial file is discarded only when it is
/// longer than the remote file, the download then starting from the beginning.
pub proof fn lemma_transfer_plan_sound(existing: u64, remote_len: Option<u64>)
    ensures
        transfer_plan(existing, remote_len).skip <==> remote_len == Some(existing),
        !transfer_plan(existing, remote_len).skip ==> transfer_plan(existing, remote_len).start_at
            <= existing,
        !transfer_plan(existing, remote_len).skip ==> (remote_len matches Some(len) ==> (
        transfer_plan(existing, remote_len).start_at < len || transfer_plan(existing, remote_len).start_at == 0)),
        transfer_plan(existing, remote_len).discard_partial <==> (remote_len matches Some(len)
            && existing > len),
        transfer_plan(existing, remote_len).discard_partial ==> transfer_plan(existing, remote_len).start_at == 0,
        !transfer_plan(existing, remote_len).discard_partial && !transfer_plan(existing, remote_len).skip
            ==> transfer_plan(existing, remote_len).start_at == existing,
{
}

/// Decides how a download starts.
pub fn plan_transfer(existing: u64, remote_len: Option<u64>) -> (p: TransferPlan)
    ensures
        p == transfer_plan(existing, remote_len),
{
    match remote_len {
        Some(len) => if existing == len {
            TransferPlan { skip: true, discard_partial: false, start_at: existing }
        } else if existing > len {
            TransferPlan { skip: false, discard_partial: true, start_at: 0 }
        } else {
            TransferPlan { skip: false, discard_partial: false, start_at: existing }
        },
        None => TransferPlan { skip: false, discard_partial: false, start_at: existing },
    }
}

/// The log line for a download that is skipped.
pub fn skip_message(name: &str) -> (out: String)
    ensures
        out@ == name@ + " already downloaded, skipping."@,
{
    let mut out = String::new();
    push_str(&mut out, name);
    push_str(&mut out, " already downloaded, skipping.");
    out
}

/// The log line for a download that starts at byte `start_at`.
pub fn start_message(name: &str, start_at: u64) -> (out: String)
    ensures
        start_at > 0 ==> out@ == "Resuming "@ + name@ + " from "@ + decimal((start_at / MIB) as nat)
            + "MB..."@,
        start_at == 0 ==> out@ == "Downloading "@ + name@ + "..."@,
{
    let mut out = String::new();
    if start_at > 0 {
        push_str(&mut out, "Resuming ");
        push_str(&mut out, name);
        push_str(&mut out, " from ");
        push_decimal(&mut out, start_at / MIB);
        push_str(&mut out, "MB...");
    } else {
        push_str(&mut out, "Downloading ");
        push_str(&mut out, name);
        push_str(&mut out, "...");
    }
    out
}

/// The `Range` header value that asks for the file from byte `start_at` on; none for a
/// download from the start.
pub fn range_header(start_at: u64) -> (out: Option<String>)
    ensures
        start_at == 0 ==> out is None,
        start_at > 0 ==> (out matches Some(h) && h@ == "bytes="@ + decimal(start_at as nat) + "-"@),
{
    if start_at > 0 {
        let mut h = String::new();
        push_str(&mut h, "bytes=");
        push_decimal(&mut h, start_at);
        push_str(&mut h, "-");
        Some(h)
    } else {
        None
    }
}

/// The log line for a finished download.
pub fn complete_message(name: &str) -> (out: String)
    ensures
        out@ == name@ + " download complete."@,
{
    let mut out = String::new();
    push_str(&mut out, name);
    push_str(&mut out, " download complete.");
    out
}

/// The progress of the body of a download.
pub struct DownloadProgress {
    downloaded: u64,
    total: u64,
    last_reported_mb: u64,
}

/// The model of a download's progress.
pub struct ProgressModel {
    /// Bytes of the file on disk so far.
    pub downloaded: nat,
    /// The expected size of the whole file (0: unknown).
    pub total: nat,
    /// The number of whole mebibytes last reported.
    pub last_reported_mb: nat,
}

impl View for DownloadProgress {
    type V = ProgressModel;

    closed spec fn view(&self) -> ProgressModel {
        ProgressModel {
            downloaded: self.downloaded as nat,
            total: self.total as nat,
            last_reported_mb: self.last_reported_mb as nat,
        }
    }
}

/// The progress line for `downloaded` of `total` bytes (`total` 0: unknown size).
pub open spec fn progress_line(name: Seq<char>, downloaded: nat, total: nat) -> Seq<char> {
    if total > 0 {
        "  "@ + name + " — "@ + decimal(downloaded / (MIB as nat)) + "MB / "@ + decimal(total / (MIB as nat))
            + "MB ("@ + decimal(downloaded * 100 / total) + "%)"@
    } else {
        "  "@ + name + " — "@ + decimal(downloaded / (MIB as nat)) + "MB downloaded"@
    }
}

impl DownloadProgress {
    /// The reported mebibyte count matches what is on disk.
    pub open spec fn well_formed(&self) -> bool {
        self@.last_reported_mb == self@.downloaded / (MIB as nat)
    }

    /// The progress once the server answered: `resumed` when it sent the rest of the file
    /// from `start_at` (a partial-content answer), with the length of what it sends, if known.
    /// Also returns the log line for a server that ignored the request to resume.
    pub fn begin(name: &str, start_at: u64, resumed: bool, content_length: Option<u64>) -> (r: (
        DownloadProgress,
        Option<String>,
    ))
        requires
            content_length matches Some(cl) ==> cl + (if resumed { start_at } else { 0 }) <= u64::MAX,
        ensures
            r.0.well_formed(),
            r.0@.downloaded == (if resumed { start_at } else { 0 }),
            r.0@.total == (match content_length {
                Some(cl) => cl + r.0@.downloaded,
                None => 0,
            }),
            (!resumed && start_at > 0) ==> (r.1 matches Some(line) && line@
                == "Server does not support resume, restarting "@ + name@ + " download..."@),
            !(!resumed && start_at > 0) ==> r.1 is None,
    {
        let downloaded = if resumed { start_at } else { 0 };
        let note = if !resumed && start_at > 0 {
            let mut line = String::from_str("Server does not support resume, restarting ");
            push_str(&mut line, name);
            push_str(&mut line, " download...");
            Some(line)
        } else {
            None
        };
        let total = match content_length {
            Some(cl) => cl + downloaded,
            None => 0,
        };
        (DownloadProgress { downloaded, total, last_reported_mb: downloaded / MIB }, note)
    }

    /// Bytes of the file on disk so far.
    pub fn downloaded(&self) -> (d: u64)
        ensures
            d == self@.downloaded,
    {
        self.downloaded
    }

    /// The expected size of the whole file (0: unknown).
    pub fn total(&self) -> (t: u64)
        ensures
            t == self@.total,
    {
        self.total
    }

    /// Records `n` more bytes written; returns the progress line when the number of whole
    /// mebibytes on disk changed.
    pub fn advance(&mut self, name: &str, n: u64) -> (line: Option<String>)
        requires
            old(self).well_formed(),
            old(self)@.downloaded + n <= u64::MAX,
            old(self)@.total > 0 ==> (old(self)@.downloaded + n) * 100 <= u64::MAX,
        ensures
            final(self).well_formed(),
            final(self)@.downloaded == old(self)@.downloaded + n,
            final(self)@.total == old(self)@.total,
            final(self)@.last_reported_mb >= old(self)@.last_reported_mb,
            final(self)@.downloaded / (MIB as nat) != old(self)@.last_reported_mb ==> (line matches Some(
                l,
            ) && l@ == progress_line(name@, final(self)@.downloaded, final(self)@.total)),
            final(self)@.downloaded / (MIB as nat) == old(self)@.last_reported_mb ==> line is None,
    {
        proof {
            vstd::arithmetic::div_mod::lemma_div_is_ordered(
                self.downloaded as int,
                self.downloaded + n,
                MIB as int,
            );
        }
        self.downloaded = self.downloaded + n;
        let current_mb = self.downloaded / MIB;
        if current_mb != self.last_reported_mb {
            self.last_reported_mb = current_mb;
            let mut line = String::new();
            push_str(&mut line, "  ");
            push_str(&mut line, name);
            push_str(&mut line, " — ");
            push_decimal(&mut line, current_mb);
            if self.total > 0 {
                push_str(&mut line, "MB / ");
                push_decimal(&mut line, self.total / MIB);
                push_str(&mut line, "MB (");
                push_decimal(&mut line, self.downloaded * 100 / self.total);
                push_str(&mut line, "%)");
            } else {
                push_str(&mut line, "MB downloaded");
            }
            Some(line)
        } else {
            None
        }
    }
}

} // verus!
