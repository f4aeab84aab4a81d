use ravenlib::roption::ROption;

fn all() -> Vec<(ROption, &'static str)> {
    vec![
        (ROption::Polybar, "poly"),
        (ROption::OldI3, "wm"),
        (ROption::I3, "i3"),
        (ROption::Xres, "xres"),
        (ROption::MergeXRes, "xres_m"),
        (ROption::Pywal, "pywal"),
        (ROption::Wall, "wall"),
        (ROption::Ncmpcpp, "ncmpcpp"),
        (ROption::Termite, "termite"),
        (ROption::Script, "script"),
        (ROption::Bspwm, "bspwm"),
        (ROption::Rofi, "rofi"),
        (ROption::Ranger, "ranger"),
        (ROption::Lemonbar, "lemonbar"),
        (ROption::Openbox, "openbox"),
        (ROption::Dunst, "dunst"),
        (ROption::VsCode, "vscode"),
        (ROption::OldSublTheme, "st_subltheme"),
        (ROption::OldScs, "st_scs"),
        (ROption::OldTmTheme, "st_tmtheme"),
    ]
}

#[test]
fn each_option_has_its_name() {
    for (option, name) in all() {
        assert_eq!(option.file_name(), name);
    }
}

#[test]
fn each_name_finds_its_option() {
    for (option, name) in all() {
        assert_eq!(ROption::from_name(name), Some(option));
        assert_eq!(ROption::from_name(option.file_name()), Some(option));
    }
}

#[test]
fn other_names_find_nothing() {
    for name in ["", "Rofi", "rofi ", "polybar", "i3wm", "\"rofi\"", "xres_", "st_"] {
        assert_eq!(ROption::from_name(name), None, "{:?}", name);
    }
}

#[test]
fn option_as_json_text_is_its_name_in_quotes() {
    assert_eq!(ROption::Rofi.to_string(), "\"rofi\"");
    assert_eq!(ROption::MergeXRes.to_string(), "\"xres_m\"");
    for (option, name) in all() {
        assert_eq!(option.to_string(), format!("\"{}\"", name));
        assert_ne!(option.to_string(), name);
    }
}

#[test]
fn json_text_reads_back_as_the_name() {
    for (option, name) in all() {
        let back: String = serde_json::from_str(&option.to_string()).unwrap();
        assert_eq!(back, name);
    }
}
