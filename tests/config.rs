use chess_titans_rtx::config::{read, settings_from, Settings};
use ini::{Ini, Properties};

fn defaults() -> Settings {
    Settings { console: true, width: 1920, height: 1080, fullscreen: true }
}

#[test]
fn missing_section_gives_defaults() {
    assert_eq!(settings_from(None), defaults());
    assert_eq!(read(&Ini::new()), defaults());
}

#[test]
fn stored_values_override_defaults() {
    let mut p = Properties::new();
    p.insert("console", "false");
    p.insert("width", "800");
    p.insert("height", "+600");
    p.insert("fullscreen", "false");
    assert_eq!(
        settings_from(Some(&p)),
        Settings { console: false, width: 800, height: 600, fullscreen: false }
    );
}

#[test]
fn unparsable_values_fall_back() {
    let mut p = Properties::new();
    p.insert("console", "yes");
    p.insert("width", "-5");
    p.insert("height", "4294967296");
    p.insert("fullscreen", "True");
    assert_eq!(settings_from(Some(&p)), defaults());
}

#[test]
fn zero_size_is_kept() {
    let mut p = Properties::new();
    p.insert("width", "0");
    p.insert("height", "0");
    let s = settings_from(Some(&p));
    assert_eq!((s.width, s.height), (0, 0));
}

#[test]
fn general_section_of_loaded_file_is_read() {
    let ini = Ini::load_from_str("width=1024\nfullscreen=false\n[other]\nheight=1\n").unwrap();
    assert_eq!(read(&ini), Settings { console: true, width: 1024, height: 1080, fullscreen: false });
}

#[test]
fn file_without_general_section_gives_defaults() {
    let ini = Ini::load_from_str("[other]\nwidth=640\nconsole=false\n").unwrap();
    assert_eq!(read(&ini), defaults());
}
