use mangajanai_gui::fetch::{archive_name, unzip_progress_line, wget_progress_line, FetchAction, ModelFetch};
use mangajanai_gui::setup::{SetupAction, SetupDir, SetupWizard, StepReply, UvArg, uv_binary_name};
use mangajanai_gui::transfer::{plan_transfer, range_header, skip_message, start_message, complete_message, DownloadProgress, TransferPlan};
use mangajanai_gui::upscale::{error_progress_line, python_program, MonitorStep, UpscaleState};

fn ok() -> StepReply {
    StepReply { ok: true, detail: String::new() }
}

fn fail(detail: &str) -> StepReply {
    StepReply { ok: false, detail: detail.to_string() }
}

fn describe(a: &SetupAction) -> String {
    match a {
        SetupAction::Log(s) => format!("log:{s}"),
        SetupAction::CreateDir(d) => format!("mkdir:{d:?}"),
        SetupAction::CheckUvBinary => "check-uv".to_string(),
        SetupAction::Download { url, folder, file_name, label } => format!("get:{url}|{folder:?}|{file_name}|{label}"),
        SetupAction::ExtractUv { zip } => format!("extract:{zip}"),
        SetupAction::RemoveUvArchive => "rm-archive".to_string(),
        SetupAction::PlaceUvBinary => "place-uv".to_string(),
        SetupAction::FindPython => "find-python".to_string(),
        SetupAction::RunUv { args, python_dir_env, in_backend } => {
            let a: Vec<String> = args
                .iter()
                .map(|a| match a {
                    UvArg::Text(t) => t.clone(),
                    UvArg::CudaWheel(w) => format!("<{w}>"),
                })
                .collect();
            format!("uv:{}|{python_dir_env}|{in_backend}", a.join(" "))
        }
        SetupAction::RemoveDirIfPresent(d) => format!("rmdir:{d:?}"),
        SetupAction::MarkComplete => "mark".to_string(),
        SetupAction::Finish => "finish".to_string(),
    }
}

#[test]
fn setup_on_linux_with_nvidia_and_fresh_machine() {
    let mut w = SetupWizard::new("Linux", "NVIDIA", false);
    let replies = vec![
        ok(),                  // start
        ok(),                  // runtime dir
        fail(""),              // uv missing
        ok(),                  // uv downloaded
        ok(),                  // uv extracted
        ok(),                  // archive removed
        ok(),                  // placed
        ok(),                  // logged
        ok(),                  // python dir
        fail(""),              // no python yet
        ok(),                  // announced
        ok(),                  // install ran
        StepReply { ok: true, detail: "/rt/python/cpython-3.12/bin/python3".to_string() },
        ok(),                  // logged
        ok(),                  // wheel dir
        ok(),                  // wheel 0
        ok(),                  // wheel 1
        ok(),                  // announced
        ok(),                  // torch installed
        ok(),                  // announced
        ok(),                  // rest installed
        ok(),                  // rocm dir
        ok(),                  // cuda dir
        ok(),                  // cleanup logged
        ok(),                  // marked
        ok(),                  // complete logged
    ];
    let got: Vec<String> = replies.into_iter().map(|r| describe(&w.advance(r))).collect();
    let expected = vec![
        "mkdir:Runtime",
        "check-uv",
        "get:https://github.com/astral-sh/uv/releases/latest/download/uv-x86_64-unknown-linux-gnu.tar.gz|Runtime|uv.tar.gz|uv",
        "extract:false",
        "rm-archive",
        "place-uv",
        "log:uv installed.",
        "mkdir:PythonInstall",
        "find-python",
        "log:Installing Python 3.12 via uv...",
        "uv:python install 3.12|true|false",
        "find-python",
        "log:Python installed at: /rt/python/cpython-3.12/bin/python3",
        "mkdir:CudaWheels",
        "get:https://download.pytorch.org/whl/cu121/torch-2.5.1%2Bcu121-cp312-cp312-linux_x86_64.whl|CudaWheels|torch-2.5.1+cu121-cp312-cp312-linux_x86_64.whl|PyTorch 2.5.1 (CUDA 12.1)",
        "get:https://download.pytorch.org/whl/cu121/torchvision-0.20.1%2Bcu121-cp312-cp312-linux_x86_64.whl|CudaWheels|torchvision-0.20.1+cu121-cp312-cp312-linux_x86_64.whl|TorchVision 0.20.1 (CUDA 12.1)",
        "log:Installing PyTorch (CUDA) via uv...",
        "uv:pip install --no-config --python /rt/python/cpython-3.12/bin/python3 --break-system-packages <torch-2.5.1+cu121-cp312-cp312-linux_x86_64.whl> <torchvision-0.20.1+cu121-cp312-cp312-linux_x86_64.whl>|false|true",
        "log:Installing remaining dependencies via uv pip...",
        "uv:pip install --no-config --no-sources --python /rt/python/cpython-3.12/bin/python3 --break-system-packages .|false|true",
        "rmdir:RocmWheels",
        "rmdir:CudaWheels",
        "log:Cleaned up temporary installation files.",
        "mark",
        "log:SETUP_COMPLETE",
        "finish",
    ];
    assert_eq!(got, expected);
}

#[test]
fn setup_on_amd_linux_with_everything_present() {
    let mut w = SetupWizard::new("Linux", "AMD", false);
    let mut got = Vec::new();
    got.push(describe(&w.advance(ok()))); // mkdir runtime
    got.push(describe(&w.advance(ok()))); // check uv
    got.push(describe(&w.advance(ok()))); // uv present
    got.push(describe(&w.advance(ok()))); // mkdir python
    got.push(describe(&w.advance(ok()))); // find python
    got.push(describe(&w.advance(StepReply { ok: true, detail: "/py".to_string() })));
    for _ in 0..25 {
        got.push(describe(&w.advance(ok())));
    }
    assert_eq!(got[2], "log:uv already installed, skipping.");
    assert_eq!(got[5], "log:Python already installed at: /py");
    assert_eq!(got[6], "mkdir:RocmWheels");
    assert!(got[7].starts_with("get:https://repo.radeon.com/rocm/manylinux/rocm-rel-7.2.4/triton-3.6.0%2Brocm7.2.4.git4ed88892"));
    assert!(got[9].ends_with("|RocmWheels|torchvision-0.25.0+rocm7.2.4.git82df5f59-cp312-cp312-linux_x86_64.whl|TorchVision (ROCm 7.2.4)"));
    assert_eq!(got[10], "log:Installing all dependencies via uv sync...");
    assert_eq!(got[11], "uv:sync --python /py|true|true");
    assert_eq!(got[12], "log:\n=======================================================");
    assert_eq!(got[19], "log:echo \"high\" | sudo tee /sys/class/drm/card0/device/power_dpm_force_performance_level");
    assert_eq!(got[21], "log:=======================================================\n");
    assert_eq!(got[22], "rmdir:RocmWheels");
    assert_eq!(got[23], "rmdir:CudaWheels");
    assert_eq!(got[24], "log:Cleaned up temporary installation files.");
    assert_eq!(got[25], "mark");
    assert_eq!(got[26], "log:SETUP_COMPLETE");
    assert!(got[27..].iter().all(|a| a == "finish"));
}

#[test]
fn setup_stops_on_failed_download() {
    let mut w = SetupWizard::new("Windows", "NVIDIA", true);
    w.advance(ok());
    w.advance(ok());
    let get = describe(&w.advance(fail("")));
    assert_eq!(get, "get:https://github.com/astral-sh/uv/releases/latest/download/uv-x86_64-pc-windows-msvc.zip|Runtime|uv.zip|uv");
    assert_eq!(describe(&w.advance(fail("Failed to connect to download uv: boom"))), "log:Failed to connect to download uv: boom");
    for _ in 0..5 {
        assert_eq!(describe(&w.advance(ok())), "finish");
    }
}

#[test]
fn setup_reports_failed_extraction() {
    let mut w = SetupWizard::new("Linux", "NVIDIA", false);
    for r in [ok(), ok(), fail(""), ok()] {
        w.advance(r);
    }
    assert_eq!(describe(&w.advance(fail("bad gzip"))), "rm-archive");
    assert_eq!(describe(&w.advance(ok())), "log:uv extraction failed: bad gzip. Please restart.");
    assert_eq!(describe(&w.advance(ok())), "finish");
}

#[test]
fn setup_reports_failed_dependency_install() {
    let mut w = SetupWizard::new("Windows", "NVIDIA", false);
    let mut last = String::new();
    let replies = [ok(), ok(), ok(), ok(), ok(), StepReply { ok: true, detail: "py".into() }, ok(), ok(), ok(), ok(), ok(), fail("")];
    for r in replies {
        last = describe(&w.advance(r));
    }
    assert_eq!(last, "log:PyTorch installation failed. Please restart.");
    assert_eq!(describe(&w.advance(ok())), "finish");
    assert_eq!(uv_binary_name(true), "uv.exe");
    assert_eq!(uv_binary_name(false), "uv");
}

#[test]
fn python_never_found_stops_setup() {
    let mut w = SetupWizard::new("Linux", "AMD", false);
    for r in [ok(), ok(), ok(), ok(), ok(), fail(""), ok(), ok()] {
        w.advance(r);
    }
    assert_eq!(describe(&w.advance(fail(""))), "log:Python installation failed. Please restart.");
    assert_eq!(describe(&w.advance(ok())), "finish");
    let _ = SetupDir::Runtime;
}

fn describe_fetch(a: &FetchAction) -> String {
    match a {
        FetchAction::Emit(s) => format!("emit:{s}"),
        FetchAction::Wget { url, name } => format!("wget:{url}|{name}"),
        FetchAction::Unzip => "unzip".to_string(),
        FetchAction::RemoveArchive => "rm".to_string(),
        FetchAction::Succeed => "ok".to_string(),
        FetchAction::Fail(e) => format!("err:{e}"),
    }
}

#[test]
fn fetches_all_model_archives() {
    let mut f = ModelFetch::new();
    let got: Vec<String> = (0..17).map(|_| describe_fetch(&f.advance(true))).collect();
    assert_eq!(got[0], "emit:Downloading MangaJaNai_V1_ModelsOnly.zip...");
    assert_eq!(got[1], "wget:https://github.com/the-database/MangaJaNai/releases/download/1.0.0/MangaJaNai_V1_ModelsOnly.zip|MangaJaNai_V1_ModelsOnly.zip");
    assert_eq!(got[2], "emit:Extracting MangaJaNai_V1_ModelsOnly.zip...");
    assert_eq!(got[3], "unzip");
    assert_eq!(got[4], "rm");
    assert_eq!(got[5], "emit:Downloading IllustrationJaNai_V3denoise.zip...");
    assert_eq!(got[10], "emit:Downloading IllustrationJaNai_V3detail.zip...");
    assert_eq!(got[15], "emit:Download complete!");
    assert_eq!(got[16], "ok");
    assert_eq!(describe_fetch(&f.advance(true)), "ok");
}

#[test]
fn fetch_fails_on_wget_or_unzip() {
    let mut f = ModelFetch::new();
    f.advance(true);
    f.advance(true);
    assert_eq!(
        describe_fetch(&f.advance(false)),
        "err:wget failed to download https://github.com/the-database/MangaJaNai/releases/download/1.0.0/MangaJaNai_V1_ModelsOnly.zip"
    );
    assert!(describe_fetch(&f.advance(true)).starts_with("err:wget failed"));

    let mut g = ModelFetch::new();
    for _ in 0..4 {
        g.advance(true);
    }
    assert_eq!(describe_fetch(&g.advance(false)), "err:unzip failed to extract models");
}

#[test]
fn progress_lines_of_tools() {
    assert_eq!(wget_progress_line("a.zip", "  50% [==>   ] \r"), Some("[a.zip] 50% [==>   ]".to_string()));
    assert_eq!(wget_progress_line("a.zip", "   "), None);
    assert_eq!(unzip_progress_line("  inflating: x"), "unzip:   inflating: x");
    assert_eq!(archive_name("https://h/x/y/z.zip"), "z.zip");
    assert_eq!(archive_name("no-slash"), "no-slash");
    assert_eq!(archive_name("ends/"), "");
}

#[test]
fn transfer_plans() {
    assert_eq!(plan_transfer(100, Some(100)), TransferPlan { skip: true, discard_partial: false, start_at: 100 });
    assert_eq!(plan_transfer(0, Some(0)), TransferPlan { skip: true, discard_partial: false, start_at: 0 });
    assert_eq!(plan_transfer(200, Some(100)), TransferPlan { skip: false, discard_partial: true, start_at: 0 });
    assert_eq!(plan_transfer(50, Some(100)), TransferPlan { skip: false, discard_partial: false, start_at: 50 });
    assert_eq!(plan_transfer(50, None), TransferPlan { skip: false, discard_partial: false, start_at: 50 });
    assert_eq!(range_header(0), None);
    assert_eq!(range_header(3145728), Some("bytes=3145728-".to_string()));
    assert_eq!(start_message("uv", 3145728), "Resuming uv from 3MB...");
    assert_eq!(start_message("uv", 0), "Downloading uv...");
    assert_eq!(skip_message("uv"), "uv already downloaded, skipping.");
    assert_eq!(complete_message("uv"), "uv download complete.");
}

#[test]
fn transfer_progress_reports_each_mebibyte() {
    let (mut p, note) = DownloadProgress::begin("w", 1048576, true, Some(3 * 1048576));
    assert_eq!(note, None);
    assert_eq!(p.advance("w", 1000), None);
    assert_eq!(p.advance("w", 1048576), Some("  w — 2MB / 4MB (50%)".to_string()));
    assert_eq!(p.downloaded(), 2 * 1048576 + 1000);

    let (mut q, note) = DownloadProgress::begin("w", 500, false, None);
    assert_eq!(note, Some("Server does not support resume, restarting w download...".to_string()));
    assert_eq!(q.downloaded(), 0);
    assert_eq!(q.advance("w", 10 * 1048576), Some("  w — 10MB downloaded".to_string()));
}

#[test]
fn upscale_state_machine() {
    let mut s: UpscaleState<u32> = UpscaleState::new();
    assert!(matches!(s.poll(None), MonitorStep::Stop));
    assert_eq!(s.cancel().unwrap_err(), "No process running");
    s.install(7);
    assert!(matches!(s.poll(None), MonitorStep::Wait));
    match s.poll(Some(false)) {
        MonitorStep::Finished(p) => assert_eq!(p, "failed"),
        _ => panic!("expected a finish"),
    }
    assert!(matches!(s.poll(Some(true)), MonitorStep::Stop));
    s.install(8);
    assert_eq!(s.cancel().unwrap(), 8);
    assert!(matches!(s.poll(Some(true)), MonitorStep::Stop));
    s.install(9);
    match s.poll(Some(true)) {
        MonitorStep::Finished(p) => assert_eq!(p, "success"),
        _ => panic!("expected a finish"),
    }
}

#[test]
fn upscale_helpers() {
    assert_eq!(python_program(Some(" /opt/py/bin/python3\n".to_string()), false), "/opt/py/bin/python3");
    assert_eq!(python_program(None, false), "python3");
    assert_eq!(python_program(None, true), "python");
    assert_eq!(error_progress_line("boom"), "ERROR: boom");
}
