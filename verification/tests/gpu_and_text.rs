use mangajanai_gui::gpu::{gpu_info_from_outputs, rocminfo_is_readable, scan_rocminfo};
use mangajanai_gui::text::{chars_of, parse_u32_in, str_contains, str_ends_with, str_equals, str_starts_with, trimmed};

const ROCMINFO: &str = "ROCk module is loaded\n\
Agent 1\n  Name:                    AMD Ryzen 9 7950X\n  Marketing Name:          AMD Ryzen 9 7950X 16-Core Processor\n\
Agent 2\n  Name:                    gfx1100\n  Marketing Name:          AMD Radeon RX 7900 XTX\r\n\
  POOL 1\n    Size:                    25149440(0x17fc000) KB\n    Size:                    25149440 KB\n\
  POOL 2\n    Size:                    64 KB\n";

#[test]
fn trims_unicode_whitespace() {
    assert_eq!(trimmed("  \t hello world \n"), "hello world");
    assert_eq!(trimmed("\u{3000}x\u{a0}"), "x");
    assert_eq!(trimmed("   "), "");
    assert_eq!(trimmed(""), "");
}

#[test]
fn string_predicates() {
    assert!(str_contains("AMD Radeon RX 7900", "Radeon RX"));
    assert!(!str_contains("AMD Radeon", "Radeon RX"));
    assert!(str_starts_with("cpython-3.12.4-linux", "cpython-3.12"));
    assert!(!str_starts_with("cpython-3.11", "cpython-3.12"));
    assert!(str_ends_with("model.pth", ".pth"));
    assert!(!str_ends_with("pth", ".pth"));
    assert!(str_equals("gui", "gui"));
    assert!(!str_equals("gui", "guix"));
}

#[test]
fn parses_u32_as_std_does() {
    let cases = ["0", "+7", "25149440", "4294967295", "4294967296", "", "+", "-1", "12a", " 1"];
    for c in cases {
        let v = chars_of(c);
        assert_eq!(parse_u32_in(&v, 0, v.len()), c.parse::<u32>().ok(), "{c:?}");
    }
}

#[test]
fn reads_name_and_memory_from_rocminfo() {
    assert!(rocminfo_is_readable(ROCMINFO));
    let (name, vram) = scan_rocminfo(ROCMINFO);
    assert_eq!(name, "AMD RX 7900 XTX");
    // The second size line (a plain number) is the last one above 1000000 KiB.
    assert_eq!(vram, 25149440 / 1024);
}

#[test]
fn size_line_with_kb_first_is_unreadable() {
    assert!(!rocminfo_is_readable("KB then Size: 5\n"));
    assert!(rocminfo_is_readable("Size: 5 KB\nno size here\n"));
}

#[test]
fn gpu_info_combines_the_tools() {
    let info = gpu_info_from_outputs(
        Some(ROCMINFO.to_string()),
        Some("GPU[0] topology".to_string()),
        Some("nothing".to_string()),
    );
    assert_eq!(info.name, "AMD RX 7900 XTX");
    assert_eq!(info.vram_mb, 24560);
    assert!(info.available);
    assert!(info.driver_loaded);
    assert!(info.rocmsmi_available);
}

#[test]
fn gpu_info_without_rocminfo() {
    let info = gpu_info_from_outputs(None, Some("GPU".to_string()), Some("amdgpu 1234 0".to_string()));
    assert_eq!(info.name, "AMD GPU");
    assert_eq!(info.vram_mb, 0);
    assert!(info.available);
    assert!(info.driver_loaded);
    assert!(!info.rocmsmi_available);

    let none = gpu_info_from_outputs(None, None, None);
    assert_eq!(none.name, "");
    assert!(!none.available && !none.driver_loaded && !none.rocmsmi_available);
}

#[test]
fn small_memory_pools_are_ignored() {
    let (name, vram) = scan_rocminfo("Size: 999999 KB\nSize: x KB\n");
    assert_eq!(name, "");
    assert_eq!(vram, 0);
}
