use gnu_provision::config::{dir_action, gnu_config, DirAction};

const EXPECTED: &str = "[target.x86_64-pc-windows-gnu]
linker = \"x86_64-w64-mingw32-gcc\"
ar = \"x86_64-w64-mingw32-ar\"

[build]
target = \"x86_64-pc-windows-gnu\"

[env]
CC_x86_64_pc_windows_gnu = \"x86_64-w64-mingw32-gcc\"
CXX_x86_64_pc_windows_gnu = \"x86_64-w64-mingw32-g++\"
";

#[test]
fn renders_fixed_schema() {
    let c = gnu_config();
    assert_eq!(String::from_utf8(c.render()).unwrap(), EXPECTED);
}

#[test]
fn rendering_twice_is_byte_identical() {
    let c = gnu_config();
    let first = c.render();
    let second = c.render();
    assert_eq!(first, second);
    assert!(c.is_current(&first));
    assert!(!c.is_current(b"[build]\ntarget = \"x86_64-pc-windows-msvc\"\n"));
    assert!(!c.is_current(b""));
}

#[test]
fn existing_directory_is_kept() {
    assert_eq!(dir_action(true), DirAction::Keep);
    assert_eq!(dir_action(false), DirAction::Create);
}
