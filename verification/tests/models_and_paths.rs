use mangajanai_gui::models::{select_model_files, ModelEntry};
use mangajanai_gui::paths::{extracting_message, first_python_install, project_root, windows_path, workflow_file_name};

fn entry(name: &str, is_file: bool) -> ModelEntry {
    ModelEntry { name: name.to_string(), is_file }
}

#[test]
fn lists_model_files_sorted() {
    let entries = vec![
        entry("b.safetensors", true),
        entry("readme.txt", true),
        entry("a.pth", true),
        entry("dir.pth", false),
        entry("B.pth", true),
        entry("é.pth", true),
        entry("a.pth.bak", true),
    ];
    let got = select_model_files(&entries);
    assert_eq!(got, vec!["B.pth", "a.pth", "b.safetensors", "é.pth"]);
}

#[test]
fn empty_models_folder() {
    assert!(select_model_files(&Vec::new()).is_empty());
}

#[test]
fn project_root_drops_src_tauri_and_gui() {
    let c = |v: &[&str]| v.iter().map(|s| s.to_string()).collect::<Vec<_>>();
    assert_eq!(project_root(c(&["/", "home", "app", "gui", "src-tauri"])), c(&["/", "home", "app"]));
    assert_eq!(project_root(c(&["/", "home", "app", "gui"])), c(&["/", "home", "app"]));
    assert_eq!(project_root(c(&["/", "home", "app"])), c(&["/", "home", "app"]));
    assert_eq!(project_root(c(&["/", "src-tauri", "x"])), c(&["/", "src-tauri", "x"]));
}

#[test]
fn windows_paths_use_backslashes() {
    assert_eq!(windows_path("C:/Users/me/out"), "C:\\Users\\me\\out");
    assert_eq!(windows_path("plain"), "plain");
}

#[test]
fn file_names_and_messages() {
    assert_eq!(workflow_file_name("my flow"), "my flow.json");
    assert_eq!(extracting_message("uv"), "Extracting uv...");
}

#[test]
fn picks_first_usable_python() {
    let names = vec!["cpython-3.11.9".to_string(), "cpython-3.12.3-x".to_string(), "cpython-3.12.7".to_string()];
    assert_eq!(first_python_install(&names, &vec![true, false, true]), Some(2));
    assert_eq!(first_python_install(&names, &vec![true, true, true]), Some(1));
    assert_eq!(first_python_install(&names, &vec![true, false, false]), None);
}
