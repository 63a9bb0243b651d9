use vstd::prelude::*;
use vstd::string::StringExecFns;

use crate::text::{ends_with, push_str, starts_with, str_equals};

verus! {

/// Folders that the setup works in; the application resolves them to paths
/// under the backend folder.
#[derive(PartialEq, Eq, Structural, Clone, Copy, Debug)]
pub enum SetupDir {
    /// `backend/src/python-runtime`
    Runtime,
    /// `backend/src/python-runtime/python`
    PythonInstall,
    /// `backend/rocm-wheels`
    RocmWheels,
    /// `backend/cuda-wheels`
    CudaWheels,
}

/// One argument of a `uv` command line.
#[derive(Debug)]
pub enum UvArg {
    /// The text itself.
    Text(String),
    /// The path of the named wheel file inside the CUDA wheel folder.
    CudaWheel(String),
}

/// What the application does next for the setup.
#[derive(Debug)]
pub enum SetupAction {
    /// Send this line to the setup log.
    Log(String),
    /// Create the folder (and its parents); failing to do so is fatal.
    CreateDir(SetupDir),
    /// Check whether the `uv` binary is present; reply `ok` when it is.
    CheckUvBinary,
    /// Download `url` into the file `file_name` of `folder`; reply `ok`, or the error text.
    Download { url: String, folder: SetupDir, file_name: String, label: String },
    /// Unpack the downloaded `uv` archive (a zip archive when `zip`, else a gzip'd tarball)
    /// into the runtime folder; reply `ok`, or the error text.
    ExtractUv { zip: bool },
    /// Delete the downloaded `uv` archive.
    RemoveUvArchive,
    /// Move the `uv` binary out of the folder the tarball unpacks into, and make it executable.
    PlaceUvBinary,
    /// Look for an installed CPython 3.12; reply `ok` with its path, or not `ok`.
    FindPython,
    /// Run `uv` with these arguments, streaming its output to the log; reply `ok` when it succeeded.
    /// `python_dir_env` sets `UV_PYTHON_INSTALL_DIR` to the Python install folder;
    /// `in_backend` runs it in the backend folder.
    RunUv { args: Vec<UvArg>, python_dir_env: bool, in_backend: bool },
    /// Delete the folder with its contents if it exists.
    RemoveDirIfPresent(SetupDir),
    /// Write the marker file that says the setup is complete.
    MarkComplete,
    /// The setup is over; nothing more to do.
    Finish,
}

/// The application's answer to the last action.
#[derive(Debug)]
pub struct StepReply {
    pub ok: bool,
    /// The error text of a failed download or extraction, or the path of the Python found.
    pub detail: String,
}

/// Where the setup stands: which action was issued last.
#[derive(PartialEq, Eq, Structural, Clone, Copy, Debug)]
pub enum SetupPhase {
    Start,
    RuntimeReady,
    UvChecked,
    UvDownloaded,
    UvExtracted,
    ExtractFailed,
    UvArchiveRemoved,
    UvPlaced,
    UvReady,
    PythonDirReady,
    PythonLookedUp,
    PythonInstallAnnounced,
    PythonInstallRan,
    PythonRelooked,
    PythonReady,
    WheelDirReady,
    WheelFetched(usize),
    SyncAnnounced,
    TorchAnnounced,
    TorchInstalled,
    RestAnnounced,
    DepsInstalled,
    Notice(usize),
    RocmCleaned,
    CudaCleaned,
    CleanupLogged,
    Marked,
    Ended,
}

/// The setup of the Python runtime, uv and PyTorch, as a state machine: the application
/// performs each action it returns and answers with a `StepReply`.
pub struct SetupWizard {
    host_windows: bool,
    amd_linux: bool,
    windows_wheels: bool,
    phase: SetupPhase,
    python: String,
    error: String,
}

// ---------------------------------------------------------------------------
// Model
// ---------------------------------------------------------------------------

pub enum UvArgModel {
    Text(Seq<char>),
    CudaWheel(Seq<char>),
}

pub enum ActionModel {
    Log(Seq<char>),
    CreateDir(SetupDir),
    CheckUvBinary,
    Download { url: Seq<char>, folder: SetupDir, file_name: Seq<char>, label: Seq<char> },
    ExtractUv { zip: bool },
    RemoveUvArchive,
    PlaceUvBinary,
    FindPython,
    RunUv { args: Seq<UvArgModel>, python_dir_env: bool, in_backend: bool },
    RemoveDirIfPresent(SetupDir),
    MarkComplete,
    Finish,
}

pub struct SetupModel {
    pub host_windows: bool,
    pub amd_linux: bool,
    pub windows_wheels: bool,
    pub phase: SetupPhase,
    pub python: Seq<char>,
    pub error: Seq<char>,
}

impl View for UvArg {
    type V = UvArgModel;

    open spec fn view(&self) -> UvArgModel {
        match self {
            UvArg::Text(s) => UvArgModel::Text(s@),
            UvArg::CudaWheel(s) => UvArgModel::CudaWheel(s@),
        }
    }
}

impl View for SetupAction {
    type V = ActionModel;

    open spec fn view(&self) -> ActionModel {
        match self {
            SetupAction::Log(s) => ActionModel::Log(s@),
            SetupAction::CreateDir(d) => ActionModel::CreateDir(*d),
            SetupAction::CheckUvBinary => ActionModel::CheckUvBinary,
            SetupAction::Download { url, folder, file_name, label } => ActionModel::Download {
                url: url@,
                folder: *folder,
                file_name: file_name@,
                label: label@,
            },
            SetupAction::ExtractUv { zip } => ActionModel::ExtractUv { zip: *zip },
            SetupAction::RemoveUvArchive => ActionModel::RemoveUvArchive,
            SetupAction::PlaceUvBinary => ActionModel::PlaceUvBinary,
            SetupAction::FindPython => ActionModel::FindPython,
            SetupAction::RunUv { args, python_dir_env, in_backend } => ActionModel::RunUv {
                args: args@.map_values(|a: UvArg| a@),
                python_dir_env: *python_dir_env,
                in_backend: *in_backend,
            },
            SetupAction::RemoveDirIfPresent(d) => ActionModel::RemoveDirIfPresent(*d),
            SetupAction::MarkComplete => ActionModel::MarkComplete,
            SetupAction::Finish => ActionModel::Finish,
        }
    }
}

impl View for SetupWizard {
    type V = SetupModel;

    closed spec fn view(&self) -> SetupModel {
        SetupModel {
            host_windows: self.host_windows,
            amd_linux: self.amd_linux,
            windows_wheels: self.windows_wheels,
            phase: self.phase,
            python: self.python@,
            error: self.error@,
        }
    }
}

/// Where `uv` is downloaded from on this host.
pub open spec fn uv_url(windows: bool) -> Seq<char> {
    if windows {
        "https://github.com/astral-sh/uv/releases/latest/download/uv-x86_64-pc-windows-msvc.zip"@
    } else {
        "https://github.com/astral-sh/uv/releases/latest/download/uv-x86_64-unknown-linux-gnu.tar.gz"@
    }
}

/// The file name of the downloaded `uv` archive.
pub open spec fn uv_archive(windows: bool) -> Seq<char> {
    if windows {
        "uv.zip"@
    } else {
        "uv.tar.gz"@
    }
}

/// The file name of the `uv` binary.
pub open spec fn uv_binary(windows: bool) -> Seq<char> {
    if windows {
        "uv.exe"@
    } else {
        "uv"@
    }
}

/// How many wheels the chosen PyTorch build consists of.
pub open spec fn wheel_count(amd_linux: bool) -> nat {
    if amd_linux {
        3
    } else {
        2
    }
}

/// The download URL of wheel `i`.
pub open spec fn wheel_url(amd_linux: bool, windows: bool, i: int) -> Seq<char> {
    if amd_linux {
        if i == 0 {
            "https://repo.radeon.com/rocm/manylinux/rocm-rel-7.2.4/triton-3.6.0%2Brocm7.2.4.git4ed88892-cp312-cp312-linux_x86_64.whl"@
        } else if i == 1 {
            "https://repo.radeon.com/rocm/manylinux/rocm-rel-7.2.4/torch-2.10.0%2Brocm7.2.4.lw.git3d3aa833-cp312-cp312-linux_x86_64.whl"@
        } else {
            "https://repo.radeon.com/rocm/manylinux/rocm-rel-7.2.4/torchvision-0.25.0%2Brocm7.2.4.git82df5f59-cp312-cp312-linux_x86_64.whl"@
        }
    } else if windows {
        if i == 0 {
            "https://download.pytorch.org/whl/cu121/torch-2.5.1%2Bcu121-cp312-cp312-win_amd64.whl"@
        } else {
            "https://download.pytorch.org/whl/cu121/torchvision-0.20.1%2Bcu121-cp312-cp312-win_amd64.whl"@
        }
    } else {
        if i == 0 {
            "https://download.pytorch.org/whl/cu121/torch-2.5.1%2Bcu121-cp312-cp312-linux_x86_64.whl"@
        } else {
            "https://download.pytorch.org/whl/cu121/torchvision-0.20.1%2Bcu121-cp312-cp312-linux_x86_64.whl"@
        }
    }
}

/// The file name that wheel `i` is saved under.
pub open spec fn wheel_file(amd_linux: bool, windows: bool, i: int) -> Seq<char> {
    if amd_linux {
        if i == 0 {
            "triton-3.6.0+rocm7.2.4.git4ed88892-cp312-cp312-linux_x86_64.whl"@
        } else if i == 1 {
            "torch-2.10.0+rocm7.2.4.lw.git3d3aa833-cp312-cp312-linux_x86_64.whl"@
        } else {
            "torchvision-0.25.0+rocm7.2.4.git82df5f59-cp312-cp312-linux_x86_64.whl"@
        }
    } else if windows {
        if i == 0 {
            "torch-2.5.1+cu121-cp312-cp312-win_amd64.whl"@
        } else {
            "torchvision-0.20.1+cu121-cp312-cp312-win_amd64.whl"@
        }
    } else {
        if i == 0 {
            "torch-2.5.1+cu121-cp312-cp312-linux_x86_64.whl"@
        } else {
            "torchvision-0.20.1+cu121-cp312-cp312-linux_x86_64.whl"@
        }
    }
}

/// The name that wheel `i` is shown under in the log.
pub open spec fn wheel_label(amd_linux: bool, windows: bool, i: int) -> Seq<char> {
    if amd_linux {
        if i == 0 {
            "Triton (ROCm 7.2.4)"@
        } else if i == 1 {
            "PyTorch 2.10 (ROCm 7.2.4)"@
        } else {
            "TorchVision (ROCm 7.2.4)"@
        }
    } else {
        if i == 0 {
            "PyTorch 2.5.1 (CUDA 12.1)"@
        } else {
            "TorchVision 0.20.1 (CUDA 12.1)"@
        }
    }
}

/// The number of lines of the notice about AMD GPU memory clocks.
pub open spec fn notice_len() -> nat {
    10
}

/// Line `i` of the notice about AMD GPU memory clocks.
pub open spec fn notice_line(i: int) -> Seq<char> {
    if i == 0 {
        "\n======================================================="@
    } else if i == 1 {
        "               IMPORTANT: AMD GPU PERFORMANCE                 "@
    } else if i == 2 {
        "======================================================="@
    } else if i == 3 {
        "If generation is very slow, your GPU memory clock (MCLK)"@
    } else if i == 4 {
        "might be stuck at 96MHz due to a known AMD Linux bug."@
    } else if i == 5 {
        ""@
    } else if i == 6 {
        "To fix this, open your terminal and run:"@
    } else if i == 7 {
        "echo \"high\" | sudo tee /sys/class/drm/card0/device/power_dpm_force_performance_level"@
    } else if i == 8 {
        "(If you have an integrated GPU, you might need card1 instead of card0)"@
    } else {
        "=======================================================\n"@
    }
}

/// The wheel folder of the chosen PyTorch build.
pub open spec fn wheel_dir(amd_linux: bool) -> SetupDir {
    if amd_linux {
        SetupDir::RocmWheels
    } else {
        SetupDir::CudaWheels
    }
}

/// The download action for wheel `i`.
pub open spec fn wheel_download(m: SetupModel, i: int) -> ActionModel {
    ActionModel::Download {
        url: wheel_url(m.amd_linux, m.windows_wheels, i),
        folder: wheel_dir(m.amd_linux),
        file_name: wheel_file(m.amd_linux, m.windows_wheels, i),
        label: wheel_label(m.amd_linux, m.windows_wheels, i),
    }
}

/// `uv python install 3.12`.
pub open spec fn python_install_args() -> Seq<UvArgModel> {
    seq![
        UvArgModel::Text("python"@),
        UvArgModel::Text("install"@),
        UvArgModel::Text("3.12"@),
    ]
}

/// `uv sync --python <python>`.
pub open spec fn sync_args(python: Seq<char>) -> Seq<UvArgModel> {
    seq![UvArgModel::Text("sync"@), UvArgModel::Text("--python"@), UvArgModel::Text(python)]
}

/// `uv pip install --no-config --python <python> --break-system-packages <the CUDA wheels>`.
pub open spec fn torch_args(python: Seq<char>, windows: bool) -> Seq<UvArgModel> {
    seq![
        UvArgModel::Text("pip"@),
        UvArgModel::Text("install"@),
        UvArgModel::Text("--no-config"@),
        UvArgModel::Text("--python"@),
        UvArgModel::Text(python),
        UvArgModel::Text("--break-system-packages"@),
        UvArgModel::CudaWheel(wheel_file(false, windows, 0)),
        UvArgModel::CudaWheel(wheel_file(false, windows, 1)),
    ]
}

/// `uv pip install --no-config --no-sources --python <python> --break-system-packages .`.
pub open spec fn rest_args(python: Seq<char>) -> Seq<UvArgModel> {
    seq![
        UvArgModel::Text("pip"@),
        UvArgModel::Text("install"@),
        UvArgModel::Text("--no-config"@),
        UvArgModel::Text("--no-sources"@),
        UvArgModel::Text("--python"@),
        UvArgModel::Text(python),
        UvArgModel::Text("--break-system-packages"@),
        UvArgModel::Text("."@),
    ]
}

/// The model with a new phase.
pub open spec fn at(m: SetupModel, p: SetupPhase) -> SetupModel {
    SetupModel { phase: p, ..m }
}

/// One step of the setup: given the reply to the last action, the next state and action.
pub open spec fn setup_step(m: SetupModel, ok: bool, detail: Seq<char>) -> (SetupModel, ActionModel) {
    match m.phase {
        SetupPhase::Start => (at(m, SetupPhase::RuntimeReady), ActionModel::CreateDir(SetupDir::Runtime)),
        SetupPhase::RuntimeReady => (at(m, SetupPhase::UvChecked), ActionModel::CheckUvBinary),
        SetupPhase::UvChecked => if ok {
            (at(m, SetupPhase::UvReady), ActionModel::Log("uv already installed, skipping."@))
        } else {
            (
                at(m, SetupPhase::UvDownloaded),
                ActionModel::Download {
                    url: uv_url(m.host_windows),
                    folder: SetupDir::Runtime,
                    file_name: uv_archive(m.host_windows),
                    label: "uv"@,
                },
            )
        },
        SetupPhase::UvDownloaded => if ok {
            (at(m, SetupPhase::UvExtracted), ActionModel::ExtractUv { zip: m.host_windows })
        } else {
            (at(m, SetupPhase::Ended), ActionModel::Log(detail))
        },
        SetupPhase::UvExtracted => if ok {
            (at(m, SetupPhase::UvArchiveRemoved), ActionModel::RemoveUvArchive)
        } else {
            (SetupModel { phase: SetupPhase::ExtractFailed, error: detail, ..m }, ActionModel::RemoveUvArchive)
        },
        SetupPhase::ExtractFailed => (
            at(m, SetupPhase::Ended),
            ActionModel::Log("uv extraction failed: "@ + m.error + ". Please restart."@),
        ),
        SetupPhase::UvArchiveRemoved => (at(m, SetupPhase::UvPlaced), ActionModel::PlaceUvBinary),
        SetupPhase::UvPlaced => (at(m, SetupPhase::UvReady), ActionModel::Log("uv installed."@)),
        SetupPhase::UvReady => (at(m, SetupPhase::PythonDirReady), ActionModel::CreateDir(SetupDir::PythonInstall)),
        SetupPhase::PythonDirReady => (at(m, SetupPhase::PythonLookedUp), ActionModel::FindPython),
        SetupPhase::PythonLookedUp => if ok {
            (
                SetupModel { phase: SetupPhase::PythonReady, python: detail, ..m },
                ActionModel::Log("Python already installed at: "@ + detail),
            )
        } else {
            (at(m, SetupPhase::PythonInstallAnnounced), ActionModel::Log("Installing Python 3.12 via uv..."@))
        },
        SetupPhase::PythonInstallAnnounced => (
            at(m, SetupPhase::PythonInstallRan),
            ActionModel::RunUv { args: python_install_args(), python_dir_env: true, in_backend: false },
        ),
        SetupPhase::PythonInstallRan => (at(m, SetupPhase::PythonRelooked), ActionModel::FindPython),
        SetupPhase::PythonRelooked => if ok {
            (
                SetupModel { phase: SetupPhase::PythonReady, python: detail, ..m },
                ActionModel::Log("Python installed at: "@ + detail),
            )
        } else {
            (at(m, SetupPhase::Ended), ActionModel::Log("Python installation failed. Please restart."@))
        },
        SetupPhase::PythonReady => (at(m, SetupPhase::WheelDirReady), ActionModel::CreateDir(wheel_dir(m.amd_linux))),
        SetupPhase::WheelDirReady => (at(m, SetupPhase::WheelFetched(0)), wheel_download(m, 0)),
        SetupPhase::WheelFetched(i) => if !ok {
            (at(m, SetupPhase::Ended), ActionModel::Log(detail))
        } else if i + 1 < wheel_count(m.amd_linux) {
            (at(m, SetupPhase::WheelFetched((i + 1) as usize)), wheel_download(m, i + 1))
        } else if m.amd_linux {
            (at(m, SetupPhase::SyncAnnounced), ActionModel::Log("Installing all dependencies via uv sync..."@))
        } else {
            (at(m, SetupPhase::TorchAnnounced), ActionModel::Log("Installing PyTorch (CUDA) via uv..."@))
        },
        SetupPhase::SyncAnnounced => (
            at(m, SetupPhase::DepsInstalled),
            ActionModel::RunUv { args: sync_args(m.python), python_dir_env: true, in_backend: true },
        ),
        SetupPhase::TorchAnnounced => (
            at(m, SetupPhase::TorchInstalled),
            ActionModel::RunUv {
                args: torch_args(m.python, m.windows_wheels),
                python_dir_env: false,
                in_backend: true,
            },
        ),
        SetupPhase::TorchInstalled => if ok {
            (at(m, SetupPhase::RestAnnounced), ActionModel::Log("Installing remaining dependencies via uv pip..."@))
        } else {
            (at(m, SetupPhase::Ended), ActionModel::Log("PyTorch installation failed. Please restart."@))
        },
        SetupPhase::RestAnnounced => (
            at(m, SetupPhase::DepsInstalled),
            ActionModel::RunUv { args: rest_args(m.python), python_dir_env: false, in_backend: true },
        ),
        SetupPhase::DepsInstalled => if !ok {
            (at(m, SetupPhase::Ended), ActionModel::Log("Dependency installation failed. Please restart."@))
        } else if m.amd_linux {
            (at(m, SetupPhase::Notice(1)), ActionModel::Log(notice_line(0)))
        } else {
            (at(m, SetupPhase::RocmCleaned), ActionModel::RemoveDirIfPresent(SetupDir::RocmWheels))
        },
        SetupPhase::Notice(i) => if i < notice_len() {
            (at(m, SetupPhase::Notice((i + 1) as usize)), ActionModel::Log(notice_line(i as int)))
        } else {
            (at(m, SetupPhase::RocmCleaned), ActionModel::RemoveDirIfPresent(SetupDir::RocmWheels))
        },
        SetupPhase::RocmCleaned => (at(m, SetupPhase::CudaCleaned), ActionModel::RemoveDirIfPresent(SetupDir::CudaWheels)),
        SetupPhase::CudaCleaned => (at(m, SetupPhase::CleanupLogged), ActionModel::Log("Cleaned up temporary installation files."@)),
        SetupPhase::CleanupLogged => (at(m, SetupPhase::Marked), ActionModel::MarkComplete),
        SetupPhase::Marked => (at(m, SetupPhase::Ended), ActionModel::Log("SETUP_COMPLETE"@)),
        SetupPhase::Ended => (m, ActionModel::Finish),
    }
}

/// The phase is one the setup can be in.
pub open spec fn phase_ok(m: SetupModel) -> bool {
    match m.phase {
        SetupPhase::WheelFetched(i) => i < wheel_count(m.amd_linux),
        SetupPhase::Notice(i) => 1 <= i <= notice_len(),
        _ => true,
    }
}


// ---------------------------------------------------------------------------
// Runs of the setup, and what they guarantee
// ---------------------------------------------------------------------------

/// The state after answering the setup with `replies`, in order.
pub open spec fn state_after(m: SetupModel, replies: Seq<(bool, Seq<char>)>) -> SetupModel
    decreases replies.len(),
{
    if replies.len() == 0 {
        m
    } else {
        setup_step(state_after(m, replies.drop_last()), replies.last().0, replies.last().1).0
    }
}

/// The actions the setup issues when answered with `replies`: action `k` is the one
/// returned for `replies[k]`, and `replies[k + 1]` is its outcome.
pub open spec fn setup_run(m: SetupModel, replies: Seq<(bool, Seq<char>)>) -> Seq<ActionModel>
    decreases replies.len(),
{
    if replies.len() == 0 {
        Seq::empty()
    } else {
        setup_run(m, replies.drop_last()).push(
            setup_step(state_after(m, replies.drop_last()), replies.last().0, replies.last().1).1,
        )
    }
}

/// The actions whose failure aborts the setup: downloads, unpacking `uv`, and installing
/// the dependencies in the backend folder.
pub open spec fn required_step(a: ActionModel) -> bool {
    match a {
        ActionModel::Download { .. } => true,
        ActionModel::ExtractUv { .. } => true,
        ActionModel::RunUv { in_backend, .. } => in_backend,
        _ => false,
    }
}

/// Phases that follow a failure (or the end of the setup).
pub open spec fn doomed(p: SetupPhase) -> bool {
    p is Ended || p is ExtractFailed
}

/// Phases right after a required action was issued.
pub open spec fn awaiting_required(p: SetupPhase) -> bool {
    ||| p is UvDownloaded
    ||| p is UvExtracted
    ||| p is WheelFetched
    ||| p is TorchInstalled
    ||| p is DepsInstalled
}

proof fn lemma_run_len(m: SetupModel, r: Seq<(bool, Seq<char>)>)
    ensures
        setup_run(m, r).len() == r.len(),
    decreases r.len(),
{
    if r.len() > 0 {
        lemma_run_len(m, r.drop_last());
    }
}

proof fn lemma_run_index(m: SetupModel, r: Seq<(bool, Seq<char>)>, k: int)
    requires
        0 <= k < r.len(),
    ensures
        setup_run(m, r)[k] == setup_step(state_after(m, r.take(k)), r[k].0, r[k].1).1,
    decreases r.len(),
{
    lemma_run_len(m, r.drop_last());
    if k == r.len() - 1 {
        assert(r.drop_last() == r.take(k));
    } else {
        lemma_run_index(m, r.drop_last(), k);
        assert(r.drop_last().take(k) == r.take(k));
    }
}

proof fn lemma_required_then_awaiting(m: SetupModel, ok: bool, detail: Seq<char>)
    requires
        required_step(setup_step(m, ok, detail).1),
    ensures
        awaiting_required(setup_step(m, ok, detail).0.phase),
{
}

proof fn lemma_failure_dooms(m: SetupModel, detail: Seq<char>)
    requires
        awaiting_required(m.phase),
    ensures
        doomed(setup_step(m, false, detail).0.phase),
        !(setup_step(m, false, detail).1 is MarkComplete),
{
}

proof fn lemma_doomed_stays(m: SetupModel, ok: bool, detail: Seq<char>)
    requires
        doomed(m.phase),
    ensures
        doomed(setup_step(m, ok, detail).0.phase),
        !(setup_step(m, ok, detail).1 is MarkComplete),
{
}

proof fn lemma_doomed_after_failure(m: SetupModel, r: Seq<(bool, Seq<char>)>, k: int)
    requires
        0 <= k,
        k + 2 <= r.len(),
        required_step(setup_step(state_after(m, r.take(k)), r[k].0, r[k].1).1),
        !r[k + 1].0,
    ensures
        doomed(state_after(m, r).phase),
    decreases r.len(),
{
    if r.len() == k + 2 {
        let before = state_after(m, r.take(k));
        assert(r.take(k + 1).drop_last() == r.take(k));
        let mid = state_after(m, r.take(k + 1));
        assert(mid == setup_step(before, r[k].0, r[k].1).0);
        lemma_required_then_awaiting(before, r[k].0, r[k].1);
        assert(r.drop_last() == r.take(k + 1));
        lemma_failure_dooms(mid, r[k + 1].1);
    } else {
        let r2 = r.drop_last();
        assert(r2.take(k) == r.take(k));
        lemma_doomed_after_failure(m, r2, k);
        lemma_doomed_stays(state_after(m, r2), r.last().0, r.last().1);
    }
}

/// Law: the setup is marked complete only if every required step before it succeeded.
/// Whatever replies the setup gets, once a download, the unpacking of `uv` or a dependency
/// installation fails, no later action writes the completion marker.
pub proof fn lemma_marked_only_after_success(m: SetupModel, replies: Seq<(bool, Seq<char>)>, k: int, j: int)
    requires
        0 <= k < j < replies.len(),
        required_step(setup_run(m, replies)[k]),
        !replies[k + 1].0,
    ensures
        !(setup_run(m, replies)[j] is MarkComplete),
    decreases replies.len(),
{
    lemma_run_len(m, replies);
    lemma_run_index(m, replies, k);
    let r2 = replies.drop_last();
    lemma_run_len(m, r2);
    if j < replies.len() - 1 {
        lemma_run_index(m, r2, k);
        assert(r2.take(k) == replies.take(k));
        lemma_marked_only_after_success(m, r2, k, j);
    } else if k + 2 <= r2.len() {
        assert(r2.take(k) == replies.take(k));
        lemma_doomed_after_failure(m, r2, k);
        lemma_doomed_stays(state_after(m, r2), replies.last().0, replies.last().1);
    } else {
        let before = state_after(m, replies.take(k));
        assert(r2.drop_last() == replies.take(k));
        lemma_required_then_awaiting(before, replies[k].0, replies[k].1);
        lemma_failure_dooms(state_after(m, r2), replies[k + 1].1);
    }
}


// ---------------------------------------------------------------------------
// The PyTorch wheels: which are downloaded, and which are installed
// ---------------------------------------------------------------------------

/// The file names of the downloads into the CUDA wheel folder among `acts`, in order.
pub open spec fn cuda_downloads(acts: Seq<ActionModel>) -> Seq<Seq<char>>
    decreases acts.len(),
{
    if acts.len() == 0 {
        Seq::empty()
    } else {
        let p = cuda_downloads(acts.drop_last());
        match acts.last() {
            ActionModel::Download { folder: SetupDir::CudaWheels, file_name, .. } => p.push(file_name),
            _ => p,
        }
    }
}

/// The wheel files that the arguments of a `uv` command name, in order.
pub open spec fn cuda_wheel_args(args: Seq<UvArgModel>) -> Seq<Seq<char>>
    decreases args.len(),
{
    if args.len() == 0 {
        Seq::empty()
    } else {
        let p = cuda_wheel_args(args.drop_last());
        match args.last() {
            UvArgModel::CudaWheel(f) => p.push(f),
            _ => p,
        }
    }
}

spec fn cuda_files_upto(windows: bool, n: int) -> Seq<Seq<char>> {
    Seq::new(n as nat, |k: int| wheel_file(false, windows, k))
}

/// The wheels downloaded into the CUDA wheel folder so far, for each phase.
spec fn cuda_downloads_ok(m: SetupModel, cw: Seq<Seq<char>>) -> bool {
    if m.amd_linux {
        cw.len() == 0 && !(m.phase is TorchAnnounced)
    } else {
        match m.phase {
            SetupPhase::WheelFetched(i) => cw == cuda_files_upto(m.windows_wheels, i + 1),
            SetupPhase::TorchAnnounced => cw == cuda_files_upto(m.windows_wheels, 2),
            SetupPhase::TorchInstalled => cw == cuda_files_upto(m.windows_wheels, 2),
            SetupPhase::RestAnnounced => cw == cuda_files_upto(m.windows_wheels, 2),
            SetupPhase::DepsInstalled => cw == cuda_files_upto(m.windows_wheels, 2),
            SetupPhase::Notice(_) => cw == cuda_files_upto(m.windows_wheels, 2),
            SetupPhase::RocmCleaned => cw == cuda_files_upto(m.windows_wheels, 2),
            SetupPhase::CudaCleaned => cw == cuda_files_upto(m.windows_wheels, 2),
            SetupPhase::CleanupLogged => cw == cuda_files_upto(m.windows_wheels, 2),
            SetupPhase::Marked => cw == cuda_files_upto(m.windows_wheels, 2),
            SetupPhase::Ended => true,
            SetupPhase::SyncAnnounced => cw == cuda_files_upto(m.windows_wheels, 2),
            _ => cw.len() == 0,
        }
    }
}

proof fn lemma_no_wheel_args()
    ensures
        cuda_wheel_args(python_install_args()).len() == 0,
        forall|p: Seq<char>| #[trigger] cuda_wheel_args(sync_args(p)).len() == 0,
        forall|p: Seq<char>| #[trigger] cuda_wheel_args(rest_args(p)).len() == 0,
        forall|p: Seq<char>, w: bool| #[trigger] cuda_wheel_args(torch_args(p, w)) == cuda_files_upto(w, 2),
{
    reveal_with_fuel(cuda_wheel_args, 9);
    assert forall|p: Seq<char>, w: bool| #[trigger] cuda_wheel_args(torch_args(p, w)) == cuda_files_upto(w, 2) by {
        assert(cuda_wheel_args(torch_args(p, w)) =~= cuda_files_upto(w, 2));
    }
}

proof fn lemma_cuda_step(m: SetupModel, ok: bool, d: Seq<char>, cw: Seq<Seq<char>>)
    requires
        phase_ok(m),
        cuda_downloads_ok(m, cw),
    ensures
        phase_ok(setup_step(m, ok, d).0),
        setup_step(m, ok, d).0.amd_linux == m.amd_linux,
        setup_step(m, ok, d).0.windows_wheels == m.windows_wheels,
        cuda_downloads_ok(
            setup_step(m, ok, d).0,
            match setup_step(m, ok, d).1 {
                ActionModel::Download { folder: SetupDir::CudaWheels, file_name, .. } => cw.push(file_name),
                _ => cw,
            },
        ),
        setup_step(m, ok, d).1 matches ActionModel::RunUv { args, .. } ==> (cuda_wheel_args(args).len()
            > 0 ==> cuda_wheel_args(args) == cw),
{
    lemma_no_wheel_args();
    let w = m.windows_wheels;
    match m.phase {
        SetupPhase::WheelDirReady => {
            let a = setup_step(m, ok, d).1;
            assert(a == wheel_download(m, 0));
            if m.amd_linux {
                assert(wheel_dir(m.amd_linux) == SetupDir::RocmWheels);
            } else {
                assert(cw.len() == 0);
                assert(a == ActionModel::Download {
                    url: wheel_url(false, w, 0),
                    folder: SetupDir::CudaWheels,
                    file_name: wheel_file(false, w, 0),
                    label: wheel_label(false, w, 0),
                });
                assert(cw.push(wheel_file(false, w, 0)) =~= cuda_files_upto(w, 1));
            }
        },
        SetupPhase::WheelFetched(i) => {
            if !m.amd_linux && ok && i + 1 < wheel_count(m.amd_linux) {
                assert(cw.push(wheel_file(false, w, i + 1)) =~= cuda_files_upto(w, i + 2));
            }
        },
        _ => {},
    }
}


proof fn lemma_run_prefix(m: SetupModel, r: Seq<(bool, Seq<char>)>, j: int)
    requires
        0 <= j <= r.len(),
    ensures
        setup_run(m, r).take(j) == setup_run(m, r.take(j)),
    decreases r.len(),
{
    lemma_run_len(m, r);
    if j == r.len() {
        assert(r.take(j) == r);
        assert(setup_run(m, r).take(j) == setup_run(m, r));
    } else {
        let r2 = r.drop_last();
        lemma_run_prefix(m, r2, j);
        lemma_run_len(m, r2);
        assert(r2.take(j) == r.take(j));
        assert(setup_run(m, r).take(j) == setup_run(m, r2).take(j));
    }
}

proof fn lemma_cuda_inv(m: SetupModel, r: Seq<(bool, Seq<char>)>)
    requires
        m.phase == SetupPhase::Start,
    ensures
        phase_ok(state_after(m, r)),
        state_after(m, r).amd_linux == m.amd_linux,
        state_after(m, r).windows_wheels == m.windows_wheels,
        cuda_downloads_ok(state_after(m, r), cuda_downloads(setup_run(m, r))),
    decreases r.len(),
{
    if r.len() > 0 {
        let r2 = r.drop_last();
        lemma_cuda_inv(m, r2);
        let st = state_after(m, r2);
        lemma_cuda_step(st, r.last().0, r.last().1, cuda_downloads(setup_run(m, r2)));
        assert(setup_run(m, r).drop_last() == setup_run(m, r2));
    }
}

/// Law: the PyTorch wheels that `uv pip install` is given are exactly the wheels downloaded
/// into the CUDA wheel folder before it, in the same order, whatever the replies.
pub proof fn lemma_installed_wheels_were_downloaded(m: SetupModel, replies: Seq<(bool, Seq<char>)>, j: int)
    requires
        m.phase == SetupPhase::Start,
        0 <= j < replies.len(),
        setup_run(m, replies)[j] is RunUv,
        cuda_wheel_args(setup_run(m, replies)[j]->args).len() > 0,
    ensures
        cuda_wheel_args(setup_run(m, replies)[j]->args) == cuda_downloads(setup_run(m, replies).take(j)),
{
    lemma_run_index(m, replies, j);
    lemma_run_prefix(m, replies, j);
    lemma_cuda_inv(m, replies.take(j));
    let st = state_after(m, replies.take(j));
    lemma_cuda_step(st, replies[j].0, replies[j].1, cuda_downloads(setup_run(m, replies.take(j))));
}

/// The ending of the wheel files for the platform: Windows or Linux on x86-64.
pub open spec fn platform_suffix(windows: bool) -> Seq<char> {
    if windows {
        "win_amd64.whl"@
    } else {
        "linux_x86_64.whl"@
    }
}

proof fn lemma_cuda_entry(w: bool, i: int)
    requires
        0 <= i < 2,
    ensures
        ends_with(wheel_file(false, w, i), platform_suffix(w)),
        ends_with(wheel_url(false, w, i), platform_suffix(w)),
        starts_with(wheel_url(false, w, i), "https://download.pytorch.org/whl/cu121/"@),
{
    reveal_strlit("win_amd64.whl");
    reveal_strlit("linux_x86_64.whl");
    reveal_strlit("https://download.pytorch.org/whl/cu121/");
    reveal_strlit("torch-2.5.1+cu121-cp312-cp312-win_amd64.whl");
    reveal_strlit("torchvision-0.20.1+cu121-cp312-cp312-win_amd64.whl");
    reveal_strlit("torch-2.5.1+cu121-cp312-cp312-linux_x86_64.whl");
    reveal_strlit("torchvision-0.20.1+cu121-cp312-cp312-linux_x86_64.whl");
    reveal_strlit("https://download.pytorch.org/whl/cu121/torch-2.5.1%2Bcu121-cp312-cp312-win_amd64.whl");
    reveal_strlit("https://download.pytorch.org/whl/cu121/torchvision-0.20.1%2Bcu121-cp312-cp312-win_amd64.whl");
    reveal_strlit("https://download.pytorch.org/whl/cu121/torch-2.5.1%2Bcu121-cp312-cp312-linux_x86_64.whl");
    reveal_strlit("https://download.pytorch.org/whl/cu121/torchvision-0.20.1%2Bcu121-cp312-cp312-linux_x86_64.whl");
    let f = wheel_file(false, w, i);
    let u = wheel_url(false, w, i);
    let sfx = platform_suffix(w);
    let pre = "https://download.pytorch.org/whl/cu121/"@;
    assert(f.skip(f.len() - sfx.len()) =~= sfx);
    assert(u.skip(u.len() - sfx.len()) =~= sfx);
    assert(u.take(pre.len() as int) =~= pre);
}

proof fn lemma_rocm_entry(i: int)
    requires
        0 <= i < 3,
    ensures
        ends_with(wheel_file(true, false, i), "cp312-cp312-linux_x86_64.whl"@),
        ends_with(wheel_url(true, false, i), "cp312-cp312-linux_x86_64.whl"@),
        starts_with(wheel_url(true, false, i), "https://repo.radeon.com/rocm/manylinux/rocm-rel-7.2.4/"@),
{
    reveal_strlit("cp312-cp312-linux_x86_64.whl");
    reveal_strlit("https://repo.radeon.com/rocm/manylinux/rocm-rel-7.2.4/");
    reveal_strlit("triton-3.6.0+rocm7.2.4.git4ed88892-cp312-cp312-linux_x86_64.whl");
    reveal_strlit("torch-2.10.0+rocm7.2.4.lw.git3d3aa833-cp312-cp312-linux_x86_64.whl");
    reveal_strlit("torchvision-0.25.0+rocm7.2.4.git82df5f59-cp312-cp312-linux_x86_64.whl");
    reveal_strlit("https://repo.radeon.com/rocm/manylinux/rocm-rel-7.2.4/triton-3.6.0%2Brocm7.2.4.git4ed88892-cp312-cp312-linux_x86_64.whl");
    reveal_strlit("https://repo.radeon.com/rocm/manylinux/rocm-rel-7.2.4/torch-2.10.0%2Brocm7.2.4.lw.git3d3aa833-cp312-cp312-linux_x86_64.whl");
    reveal_strlit("https://repo.radeon.com/rocm/manylinux/rocm-rel-7.2.4/torchvision-0.25.0%2Brocm7.2.4.git82df5f59-cp312-cp312-linux_x86_64.whl");
    let f = wheel_file(true, false, i);
    let u = wheel_url(true, false, i);
    let sfx = "cp312-cp312-linux_x86_64.whl"@;
    let pre = "https://repo.radeon.com/rocm/manylinux/rocm-rel-7.2.4/"@;
    assert(f.skip(f.len() - sfx.len()) =~= sfx);
    assert(u.skip(u.len() - sfx.len()) =~= sfx);
    assert(u.take(pre.len() as int) =~= pre);
}

/// Law: on Linux with an AMD GPU, every wheel downloaded is a ROCm 7.2.4 build for CPython
/// 3.12 on Linux x86-64 from repo.radeon.com, stored in the ROCm wheel folder; no other setup
/// stores anything there.
pub proof fn lemma_rocm_wheels(m: SetupModel, ok: bool, detail: Seq<char>)
    requires
        phase_ok(m),
    ensures
        setup_step(m, ok, detail).1 matches ActionModel::Download {
            url,
            folder: SetupDir::RocmWheels,
            file_name,
            ..
        } ==> {
            &&& m.amd_linux
            &&& ends_with(url, "cp312-cp312-linux_x86_64.whl"@)
            &&& ends_with(file_name, "cp312-cp312-linux_x86_64.whl"@)
            &&& starts_with(url, "https://repo.radeon.com/rocm/manylinux/rocm-rel-7.2.4/"@)
        },
{
    match m.phase {
        SetupPhase::WheelDirReady => {
            assert(setup_step(m, ok, detail).1 == wheel_download(m, 0));
            if m.amd_linux {
                lemma_rocm_entry(0);
            }
        },
        SetupPhase::WheelFetched(i) => {
            if ok && i + 1 < wheel_count(m.amd_linux) {
                assert(setup_step(m, ok, detail).1 == wheel_download(m, i + 1));
                if m.amd_linux {
                    lemma_rocm_entry(i + 1);
                }
            }
        },
        _ => {},
    }
}

/// Law: every PyTorch wheel downloaded for an NVIDIA GPU is a CUDA 12.1 build from
/// download.pytorch.org for the chosen operating system: a `win_amd64` wheel when the
/// system is Windows, a `linux_x86_64` wheel otherwise; and on Linux with an AMD GPU
/// nothing goes into the CUDA wheel folder.
pub proof fn lemma_wheels_match_platform(m: SetupModel, ok: bool, detail: Seq<char>)
    requires
        phase_ok(m),
    ensures
        setup_step(m, ok, detail).1 matches ActionModel::Download {
            url,
            folder: SetupDir::CudaWheels,
            file_name,
            ..
        } ==> {
            &&& !m.amd_linux
            &&& ends_with(url, platform_suffix(m.windows_wheels))
            &&& ends_with(file_name, platform_suffix(m.windows_wheels))
            &&& starts_with(url, "https://download.pytorch.org/whl/cu121/"@)
        },
{
    match m.phase {
        SetupPhase::WheelDirReady => {
            assert(setup_step(m, ok, detail).1 == wheel_download(m, 0));
            lemma_cuda_entry(m.windows_wheels, 0);
        },
        SetupPhase::WheelFetched(i) => {
            if ok && i + 1 < wheel_count(m.amd_linux) {
                assert(setup_step(m, ok, detail).1 == wheel_download(m, i + 1));
                if !m.amd_linux {
                    lemma_cuda_entry(m.windows_wheels, i + 1);
                }
            }
        },
        _ => {},
    }
}

// ---------------------------------------------------------------------------
// Executable tables
// ---------------------------------------------------------------------------

fn text(s: &str) -> (out: String)
    ensures
        out@ == s@,
{
    String::from_str(s)
}

/// The URL that `uv` is downloaded from (`windows`: the host runs Windows).
pub fn uv_download_url(windows: bool) -> (out: String)
    ensures
        out@ == uv_url(windows),
{
    if windows {
        text("https://github.com/astral-sh/uv/releases/latest/download/uv-x86_64-pc-windows-msvc.zip")
    } else {
        text("https://github.com/astral-sh/uv/releases/latest/download/uv-x86_64-unknown-linux-gnu.tar.gz")
    }
}

/// The file name of the downloaded `uv` archive (`windows`: the host runs Windows).
pub fn uv_archive_name(windows: bool) -> (out: String)
    ensures
        out@ == uv_archive(windows),
{
    if windows {
        text("uv.zip")
    } else {
        text("uv.tar.gz")
    }
}

/// The file name of the `uv` binary (`windows`: the host runs Windows).
pub fn uv_binary_name(windows: bool) -> (out: String)
    ensures
        out@ == uv_binary(windows),
{
    if windows {
        text("uv.exe")
    } else {
        text("uv")
    }
}

/// URL, file name and label of wheel `i`.
fn wheel_entry(amd_linux: bool, windows: bool, i: usize) -> (r: (String, String, String))
    ensures
        r.0@ == wheel_url(amd_linux, windows, i as int),
        r.1@ == wheel_file(amd_linux, windows, i as int),
        r.2@ == wheel_label(amd_linux, windows, i as int),
{
    if amd_linux {
        if i == 0 {
            (
                text("https://repo.radeon.com/rocm/manylinux/rocm-rel-7.2.4/triton-3.6.0%2Brocm7.2.4.git4ed88892-cp312-cp312-linux_x86_64.whl"),
                text("triton-3.6.0+rocm7.2.4.git4ed88892-cp312-cp312-linux_x86_64.whl"),
                text("Triton (ROCm 7.2.4)"),
            )
        } else if i == 1 {
            (
                text("https://repo.radeon.com/rocm/manylinux/rocm-rel-7.2.4/torch-2.10.0%2Brocm7.2.4.lw.git3d3aa833-cp312-cp312-linux_x86_64.whl"),
                text("torch-2.10.0+rocm7.2.4.lw.git3d3aa833-cp312-cp312-linux_x86_64.whl"),
                text("PyTorch 2.10 (ROCm 7.2.4)"),
            )
        } else {
            (
                text("https://repo.radeon.com/rocm/manylinux/rocm-rel-7.2.4/torchvision-0.25.0%2Brocm7.2.4.git82df5f59-cp312-cp312-linux_x86_64.whl"),
                text("torchvision-0.25.0+rocm7.2.4.git82df5f59-cp312-cp312-linux_x86_64.whl"),
                text("TorchVision (ROCm 7.2.4)"),
            )
        }
    } else if windows {
        if i == 0 {
            (
                text("https://download.pytorch.org/whl/cu121/torch-2.5.1%2Bcu121-cp312-cp312-win_amd64.whl"),
                text("torch-2.5.1+cu121-cp312-cp312-win_amd64.whl"),
                text("PyTorch 2.5.1 (CUDA 12.1)"),
            )
        } else {
            (
                text("https://download.pytorch.org/whl/cu121/torchvision-0.20.1%2Bcu121-cp312-cp312-win_amd64.whl"),
                text("torchvision-0.20.1+cu121-cp312-cp312-win_amd64.whl"),
                text("TorchVision 0.20.1 (CUDA 12.1)"),
            )
        }
    } else {
        if i == 0 {
            (
                text("https://download.pytorch.org/whl/cu121/torch-2.5.1%2Bcu121-cp312-cp312-linux_x86_64.whl"),
                text("torch-2.5.1+cu121-cp312-cp312-linux_x86_64.whl"),
                text("PyTorch 2.5.1 (CUDA 12.1)"),
            )
        } else {
            (
                text("https://download.pytorch.org/whl/cu121/torchvision-0.20.1%2Bcu121-cp312-cp312-linux_x86_64.whl"),
                text("torchvision-0.20.1+cu121-cp312-cp312-linux_x86_64.whl"),
                text("TorchVision 0.20.1 (CUDA 12.1)"),
            )
        }
    }
}

/// Line `i` of the notice about AMD GPU memory clocks.
fn notice(i: usize) -> (out: String)
    ensures
        out@ == notice_line(i as int),
{
    if i == 0 {
        text("\n=======================================================")
    } else if i == 1 {
        text("               IMPORTANT: AMD GPU PERFORMANCE                 ")
    } else if i == 2 {
        text("=======================================================")
    } else if i == 3 {
        text("If generation is very slow, your GPU memory clock (MCLK)")
    } else if i == 4 {
        text("might be stuck at 96MHz due to a known AMD Linux bug.")
    } else if i == 5 {
        text("")
    } else if i == 6 {
        text("To fix this, open your terminal and run:")
    } else if i == 7 {
        text("echo \"high\" | sudo tee /sys/class/drm/card0/device/power_dpm_force_performance_level")
    } else if i == 8 {
        text("(If you have an integrated GPU, you might need card1 instead of card0)")
    } else {
        text("=======================================================\n")
    }
}

fn joined(a: &str, b: &str) -> (out: String)
    ensures
        out@ == a@ + b@,
{
    let mut out = text(a);
    push_str(&mut out, b);
    out
}

fn uv_text_args(words: &[&str]) -> (out: Vec<UvArg>)
    ensures
        out@.len() == words@.len(),
        forall|i: int| 0 <= i < words@.len() ==> out@[i]@ == UvArgModel::Text(words@[i]@),
{
    let mut out: Vec<UvArg> = Vec::new();
    let mut i: usize = 0;
    while i < words.len()
        invariant
            i <= words@.len(),
            out@.len() == i,
            forall|k: int| 0 <= k < i ==> out@[k]@ == UvArgModel::Text(words@[k]@),
        decreases words.len() - i,
    {
        out.push(UvArg::Text(text(words[i])));
        i += 1;
    }
    out
}

impl SetupWizard {
    /// The setup for the chosen operating system and GPU vendor (`os_type`, `gpu_type`)
    /// on a host that runs Windows when `host_windows`.
    pub fn new(os_type: &str, gpu_type: &str, host_windows: bool) -> (w: SetupWizard)
        ensures
            w@.phase == SetupPhase::Start,
            w@.host_windows == host_windows,
            w@.amd_linux == (gpu_type@ == "AMD"@ && os_type@ == "Linux"@),
            w@.windows_wheels == (os_type@ == "Windows"@),
            w@.python.len() == 0,
            w@.error.len() == 0,
            phase_ok(w@),
    {
        let amd = str_equals(gpu_type, "AMD");
        let linux = str_equals(os_type, "Linux");
        let windows = str_equals(os_type, "Windows");
        SetupWizard {
            host_windows,
            amd_linux: amd && linux,
            windows_wheels: windows,
            phase: SetupPhase::Start,
            python: String::new(),
            error: String::new(),
        }
    }

    /// The wizard is in a phase it can be in.
    pub open spec fn well_formed(&self) -> bool {
        phase_ok(self@)
    }

    /// Takes the reply to the last action (anything, for the first call) and returns
    /// the next action.
    pub fn advance(&mut self, reply: StepReply) -> (a: SetupAction)
        requires
            old(self).well_formed(),
        ensures
            final(self).well_formed(),
            (final(self)@, a@) == setup_step(old(self)@, reply.ok, reply.detail@),
    {
        let ghost m = self@;
        let ok = reply.ok;
        match self.phase {
            SetupPhase::Start => {
                self.phase = SetupPhase::RuntimeReady;
                SetupAction::CreateDir(SetupDir::Runtime)
            },
            SetupPhase::RuntimeReady => {
                self.phase = SetupPhase::UvChecked;
                SetupAction::CheckUvBinary
            },
            SetupPhase::UvChecked => {
                if ok {
                    self.phase = SetupPhase::UvReady;
                    SetupAction::Log(text("uv already installed, skipping."))
                } else {
                    self.phase = SetupPhase::UvDownloaded;
                    SetupAction::Download {
                        url: uv_download_url(self.host_windows),
                        folder: SetupDir::Runtime,
                        file_name: uv_archive_name(self.host_windows),
                        label: text("uv"),
                    }
                }
            },
            SetupPhase::UvDownloaded => {
                if ok {
                    self.phase = SetupPhase::UvExtracted;
                    SetupAction::ExtractUv { zip: self.host_windows }
                } else {
                    self.phase = SetupPhase::Ended;
                    SetupAction::Log(reply.detail)
                }
            },
            SetupPhase::UvExtracted => {
                if ok {
                    self.phase = SetupPhase::UvArchiveRemoved;
                } else {
                    self.phase = SetupPhase::ExtractFailed;
                    self.error = reply.detail;
                }
                SetupAction::RemoveUvArchive
            },
            SetupPhase::ExtractFailed => {
                self.phase = SetupPhase::Ended;
                let mut line = text("uv extraction failed: ");
                push_str(&mut line, self.error.as_str());
                push_str(&mut line, ". Please restart.");
                SetupAction::Log(line)
            },
            SetupPhase::UvArchiveRemoved => {
                self.phase = SetupPhase::UvPlaced;
                SetupAction::PlaceUvBinary
            },
            SetupPhase::UvPlaced => {
                self.phase = SetupPhase::UvReady;
                SetupAction::Log(text("uv installed."))
            },
            SetupPhase::UvReady => {
                self.phase = SetupPhase::PythonDirReady;
                SetupAction::CreateDir(SetupDir::PythonInstall)
            },
            SetupPhase::PythonDirReady => {
                self.phase = SetupPhase::PythonLookedUp;
                SetupAction::FindPython
            },
            SetupPhase::PythonLookedUp => {
                if ok {
                    self.phase = SetupPhase::PythonReady;
                    let line = joined("Python already installed at: ", reply.detail.as_str());
                    self.python = reply.detail;
                    SetupAction::Log(line)
                } else {
                    self.phase = SetupPhase::PythonInstallAnnounced;
                    SetupAction::Log(text("Installing Python 3.12 via uv..."))
                }
            },
            SetupPhase::PythonInstallAnnounced => {
                self.phase = SetupPhase::PythonInstallRan;
                let args = uv_text_args(&["python", "install", "3.12"]);
                proof {
                    assert(args@.map_values(|a: UvArg| a@) =~= python_install_args());
                }
                SetupAction::RunUv { args, python_dir_env: true, in_backend: false }
            },
            SetupPhase::PythonInstallRan => {
                self.phase = SetupPhase::PythonRelooked;
                SetupAction::FindPython
            },
            SetupPhase::PythonRelooked => {
                if ok {
                    self.phase = SetupPhase::PythonReady;
                    let line = joined("Python installed at: ", reply.detail.as_str());
                    self.python = reply.detail;
                    SetupAction::Log(line)
                } else {
                    self.phase = SetupPhase::Ended;
                    SetupAction::Log(text("Python installation failed. Please restart."))
                }
            },
            SetupPhase::PythonReady => {
                self.phase = SetupPhase::WheelDirReady;
                if self.amd_linux {
                    SetupAction::CreateDir(SetupDir::RocmWheels)
                } else {
                    SetupAction::CreateDir(SetupDir::CudaWheels)
                }
            },
            SetupPhase::WheelDirReady => {
                self.phase = SetupPhase::WheelFetched(0);
                self.wheel_action(0)
            },
            SetupPhase::WheelFetched(i) => {
                let count: usize = if self.amd_linux { 3 } else { 2 };
                if !ok {
                    self.phase = SetupPhase::Ended;
                    SetupAction::Log(reply.detail)
                } else if i + 1 < count {
                    self.phase = SetupPhase::WheelFetched(i + 1);
                    self.wheel_action(i + 1)
                } else if self.amd_linux {
                    self.phase = SetupPhase::SyncAnnounced;
                    SetupAction::Log(text("Installing all dependencies via uv sync..."))
                } else {
                    self.phase = SetupPhase::TorchAnnounced;
                    SetupAction::Log(text("Installing PyTorch (CUDA) via uv..."))
                }
            },
            SetupPhase::SyncAnnounced => {
                self.phase = SetupPhase::DepsInstalled;
                let mut args = uv_text_args(&["sync", "--python"]);
                args.push(UvArg::Text(self.python.clone()));
                proof {
                    assert(args@.map_values(|a: UvArg| a@) =~= sync_args(m.python));
                }
                SetupAction::RunUv { args, python_dir_env: true, in_backend: true }
            },
            SetupPhase::TorchAnnounced => {
                self.phase = SetupPhase::TorchInstalled;
                let mut args = uv_text_args(&["pip", "install", "--no-config", "--python"]);
                args.push(UvArg::Text(self.python.clone()));
                args.push(UvArg::Text(text("--break-system-packages")));
                let (_, first, _) = wheel_entry(false, self.windows_wheels, 0);
                let (_, second, _) = wheel_entry(false, self.windows_wheels, 1);
                args.push(UvArg::CudaWheel(first));
                args.push(UvArg::CudaWheel(second));
                proof {
                    assert(args@.map_values(|a: UvArg| a@) =~= torch_args(m.python, m.windows_wheels));
                }
                SetupAction::RunUv { args, python_dir_env: false, in_backend: true }
            },
            SetupPhase::TorchInstalled => {
                if ok {
                    self.phase = SetupPhase::RestAnnounced;
                    SetupAction::Log(text("Installing remaining dependencies via uv pip..."))
                } else {
                    self.phase = SetupPhase::Ended;
                    SetupAction::Log(text("PyTorch installation failed. Please restart."))
                }
            },
            SetupPhase::RestAnnounced => {
                self.phase = SetupPhase::DepsInstalled;
                let mut args = uv_text_args(&["pip", "install", "--no-config", "--no-sources", "--python"]);
                args.push(UvArg::Text(self.python.clone()));
                args.push(UvArg::Text(text("--break-system-packages")));
                args.push(UvArg::Text(text(".")));
                proof {
                    assert(args@.map_values(|a: UvArg| a@) =~= rest_args(m.python));
                }
                SetupAction::RunUv { args, python_dir_env: false, in_backend: true }
            },
            SetupPhase::DepsInstalled => {
                if !ok {
                    self.phase = SetupPhase::Ended;
                    SetupAction::Log(text("Dependency installation failed. Please restart."))
                } else if self.amd_linux {
                    self.phase = SetupPhase::Notice(1);
                    SetupAction::Log(notice(0))
                } else {
                    self.phase = SetupPhase::RocmCleaned;
                    SetupAction::RemoveDirIfPresent(SetupDir::RocmWheels)
                }
            },
            SetupPhase::Notice(i) => {
                if i < 10 {
                    self.phase = SetupPhase::Notice(i + 1);
                    SetupAction::Log(notice(i))
                } else {
                    self.phase = SetupPhase::RocmCleaned;
                    SetupAction::RemoveDirIfPresent(SetupDir::RocmWheels)
                }
            },
            SetupPhase::RocmCleaned => {
                self.phase = SetupPhase::CudaCleaned;
                SetupAction::RemoveDirIfPresent(SetupDir::CudaWheels)
            },
            SetupPhase::CudaCleaned => {
                self.phase = SetupPhase::CleanupLogged;
                SetupAction::Log(text("Cleaned up temporary installation files."))
            },
            SetupPhase::CleanupLogged => {
                self.phase = SetupPhase::Marked;
                SetupAction::MarkComplete
            },
            SetupPhase::Marked => {
                self.phase = SetupPhase::Ended;
                SetupAction::Log(text("SETUP_COMPLETE"))
            },
            SetupPhase::Ended => SetupAction::Finish,
        }
    }

    fn wheel_action(&self, i: usize) -> (a: SetupAction)
        requires
            i < wheel_count(self.amd_linux),
        ensures
            a@ == wheel_download(self@, i as int),
    {
        let (url, file_name, label) = wheel_entry(self.amd_linux, self.windows_wheels, i);
        let folder = if self.amd_linux {
            SetupDir::RocmWheels
        } else {
            SetupDir::CudaWheels
        };
        SetupAction::Download { url, folder, file_name, label }
    }
}

} // verus!
