use ravenlib::loaders::{probes, strip_prefix};
use ravenlib::steps::Step;
use ravenlib::themes::{Loader, Theme};


fn theme() -> Theme {
    Theme {
        name: "nord".to_string(),
        options: vec![],
        monitor: 2,
        enabled: vec![],
        order: vec!["main".to_string(), "other".to_string(), "third".to_string()],
        kv: serde_json::Map::new(),
        screenshot: String::new(),
        description: String::new(),
    }
}

fn run(program: &str, args: &[&str], wait: bool) -> Step {
    Step::Run {
        program: program.to_string(),
        args: args.iter().map(|a| a.to_string()).collect(),
        wait,
    }
}

fn copy(from: &str, to: &str) -> Step {
    Step::Copy { from: from.to_string(), to: to.to_string() }
}

fn read(path: &str) -> Step {
    Step::Read { path: path.to_string() }
}

fn remove(path: &str) -> Step {
    Step::Remove { path: path.to_string() }
}

fn write(path: &str, mode: Option<u32>) -> Step {
    Step::Write { path: path.to_string(), mode }
}

fn patch(file: &str, pattern: &str, value: &str) -> Step {
    Step::Patch { file: file.to_string(), pattern: pattern.to_string(), value: value.to_string() }
}

const T: &str = "/h/.config/raven/themes/nord";

#[test]
fn rofi_steps() {
    let c = copy("/h/.config/raven/themes/nord/rofi", "/h/.config/rofi/theme.rasi");
    assert_eq!(theme().load_rofi("/h", true), vec![c.clone()]);
    assert_eq!(
        theme().load_rofi("/h", false),
        vec![Step::CreateDir { path: "/h/.config/rofi".to_string() }, c]
    );
}

#[test]
fn pywal_steps() {
    assert_eq!(
        theme().load_pywal("/h"),
        vec![run("wal", &["-n", "-i", "/h/.config/raven/themes/nord/pywal"], true)]
    );
}

#[test]
fn script_steps() {
    assert_eq!(
        theme().load_script("/h"),
        vec![run("sh", &["-c", "/h/.config/raven/themes/nord/script"], true)]
    );
}

#[test]
fn openbox_steps() {
    let rest = vec![
        read("/h/.config/raven/themes/nord/openbox"),
        remove("/h/.config/openbox/rc.xml"),
        write("/h/.config/openbox/rc.xml", None),
        run("openbox", &["--reconfigure"], true),
    ];
    assert_eq!(theme().load_openbox("/h", false), rest);
    let mut with_base = vec![read("/h/.config/raven/base_rc.xml")];
    with_base.extend(rest);
    assert_eq!(theme().load_openbox("/h", true), with_base);
}

#[test]
fn ranger_steps() {
    assert_eq!(
        theme().load_ranger("/h"),
        vec![copy("/h/.config/raven/themes/nord/ranger", "/h/.config/ranger/rc.conf")]
    );
}

#[test]
fn dunst_steps() {
    let rest = vec![
        read("/h/.config/raven/themes/nord/dunst"),
        remove("/h/.config/dunst/dunstrc"),
        write("/h/.config/dunst/dunstrc", None),
        run("dunst", &[], false),
    ];
    assert_eq!(theme().load_dunst("/h", false), rest);
    let mut with_base = vec![read("/h/.config/raven/base_dunst")];
    with_base.extend(rest);
    assert_eq!(theme().load_dunst("/h", true), with_base);
}

#[test]
fn bspwm_steps() {
    let rest = vec![
        read("/h/.config/raven/themes/nord/bspwm"),
        remove("/h/.config/bspwm/bspwmrc"),
        write("/h/.config/bspwm/bspwmrc", Some(0o744)),
        run("sh", &["-c", "/h/.config/bspwm/bspwmrc"], true),
    ];
    assert_eq!(theme().load_bspwm("/h", false), rest);
    let mut with_base = vec![read("/h/.config/raven/base_bspwm")];
    with_base.extend(rest);
    assert_eq!(theme().load_bspwm("/h", true), with_base);
}

#[test]
fn i3_steps_with_everything_there() {
    assert_eq!(
        theme().load_i3("/h", false, true, true, true),
        vec![
            read("/h/.config/raven/base_i3"),
            read("/h/.config/raven/themes/nord/i3"),
            remove("/h/.config/i3/config"),
            write("/h/.config/i3/config", None),
            run("i3-msg", &["reload"], true),
        ]
    );
}

#[test]
fn i3_steps_on_a_bare_machine() {
    assert_eq!(
        theme().load_i3("/h", true, false, false, false),
        vec![
            read("/h/.config/raven/themes/nord/wm"),
            Step::CreateDir { path: "/h/.config/i3".to_string() },
            write("/h/.config/i3/config", None),
            run("i3-msg", &["reload"], true),
        ]
    );
}

#[test]
fn termite_steps() {
    assert_eq!(
        theme().load_termite("/h"),
        vec![
            copy("/h/.config/raven/themes/nord/termite", "/h/.config/termite/config"),
            run("pkill", &["-SIGUSR1", "termite"], true),
        ]
    );
}

#[test]
fn poly_steps() {
    let bar = |name: &str| {
        run(
            "sh",
            &[
                "-c",
                &format!(
                    "polybar --config=/h/.config/raven/themes/nord/poly {} > /dev/null 2> /dev/null",
                    name
                ),
            ],
            false,
        )
    };
    assert_eq!(theme().load_poly("/h", 2), vec![bar("main"), bar("other")]);
    assert_eq!(theme().load_poly("/h", 3), vec![bar("main"), bar("other"), bar("third")]);
    assert_eq!(theme().load_poly("/h", 1), vec![bar("main")]);
    assert!(theme().load_poly("/h", 0).is_empty());
    assert!(theme().load_poly("/h", -4).is_empty());
}

#[test]
fn lemon_steps() {
    assert_eq!(
        theme().load_lemon("/h"),
        vec![run("sh", &["/h/.config/raven/themes/nord/lemonbar"], false)]
    );
}

#[test]
fn wall_steps() {
    assert_eq!(
        theme().load_wall("/h"),
        vec![run("feh", &["--bg-scale", "/h/.config/raven/themes/nord/wall"], true)]
    );
}

#[test]
fn xres_steps() {
    assert_eq!(
        theme().load_xres("/h", false),
        vec![run("xrdb", &["/h/.config/raven/themes/nord/xres"], true)]
    );
    assert_eq!(
        theme().load_xres("/h", true),
        vec![run("xrdb", &["-merge", "/h/.config/raven/themes/nord/xres_m"], true)]
    );
}

#[test]
fn ncm_steps() {
    let from = "/h/.config/raven/themes/nord/ncmpcpp";
    assert_eq!(
        theme().load_ncm("/h", true, true),
        (vec![copy(from, "/h/.config/ncmpcpp/config")], true)
    );
    assert_eq!(
        theme().load_ncm("/h", true, false),
        (vec![copy(from, "/h/.config/ncmpcpp/config")], true)
    );
    assert_eq!(theme().load_ncm("/h", false, true), (vec![copy(from, "/h/.ncmpcpp/config")], true));
    assert_eq!(theme().load_ncm("/h", false, false), (vec![], false));
}

#[test]
fn vscode_steps() {
    let code = patch("/h/.config/Code/User/settings.json", "\"workbench.colorTheme\": ", "Dark");
    let oss = patch("/h/.config/Code - OSS/User/settings.json", "\"workbench.colorTheme\": ", "Dark");
    assert_eq!(theme().load_vscode("/h", "Dark", false, false), (vec![], false));
    assert_eq!(theme().load_vscode("/h", "Dark", true, false), (vec![code.clone()], true));
    assert_eq!(theme().load_vscode("/h", "Dark", false, true), (vec![oss.clone()], true));
    assert_eq!(theme().load_vscode("/h", "Dark", true, true), (vec![code, oss], true));
}

#[test]
fn sublt_steps_without_the_editor() {
    assert_eq!(theme().load_sublt("/h", "st_scs", "sublt/a.scs", false), (vec![], false));
}

#[test]
fn sublt_steps_for_a_named_scheme() {
    let prefs = "/h/.config/sublime-text-3/Packages/User/Preferences.sublime-settings";
    assert_eq!(
        theme().load_sublt("/h", "st_scs", "Packages/Nord.scs", true),
        (vec![patch(prefs, "\"color_scheme\": ", "Packages/Nord.scs")], true)
    );
    assert_eq!(
        theme().load_sublt("/h", "st_tmtheme", "x", true),
        (vec![patch(prefs, "\"color_scheme\": ", "x")], true)
    );
    assert_eq!(
        theme().load_sublt("/h", "st_subltheme", "x", true),
        (vec![patch(prefs, "\"theme\": ", "x")], true)
    );
    assert_eq!(theme().load_sublt("/h", "other", "x", true), (vec![patch(prefs, "", "x")], true));
}

#[test]
fn sublt_steps_for_a_file_of_the_theme() {
    let prefs = "/h/.config/sublime-text-3/Packages/User/Preferences.sublime-settings";
    assert_eq!(
        theme().load_sublt("/h", "st_subltheme", "sublt/a.sublime-theme", true),
        (
            vec![
                copy(
                    &format!("{}/sublt/a.sublime-theme", T),
                    "/h/.config/sublime-text-3/Packages/User/a.sublime-theme"
                ),
                patch(prefs, "\"theme\": ", "a.sublime-theme"),
            ],
            true
        )
    );
}

#[test]
fn prefix_is_stripped_as_often_as_it_stands() {
    for (s, p) in [
        ("sublt/a", "sublt/"),
        ("sublt/sublt/a", "sublt/"),
        ("a/sublt/", "sublt/"),
        ("sublt", "sublt/"),
        ("", "sublt/"),
        ("sublt/", "sublt/"),
        ("aaa", "a"),
        ("abc", ""),
        ("", ""),
    ] {
        let (out, found) = strip_prefix(s, p);
        assert_eq!(out, s.trim_start_matches(p), "{:?} {:?}", s, p);
        assert_eq!(found, s.starts_with(p), "{:?} {:?}", s, p);
    }
}

#[test]
fn loaders_ask_about_their_paths() {
    let paths = |loader: Loader| probes("/h", &loader);
    assert_eq!(
        paths(Loader::I3 { legacy: true }),
        vec!["/h/.config/raven/base_i3", "/h/.config/i3", "/h/.config/i3/config"]
    );
    assert_eq!(paths(Loader::Ncm), vec!["/h/.config/ncmpcpp", "/h/.ncmpcpp"]);
    assert_eq!(paths(Loader::Bspwm), vec!["/h/.config/raven/base_bspwm"]);
    assert_eq!(paths(Loader::Rofi), vec!["/h/.config/rofi"]);
    assert_eq!(paths(Loader::Openbox), vec!["/h/.config/raven/base_rc.xml"]);
    assert_eq!(paths(Loader::Dunst), vec!["/h/.config/raven/base_dunst"]);
    assert_eq!(
        paths(Loader::Sublt { stype: "st_scs".to_string(), value: "x".to_string() }),
        vec!["/h/.config/sublime-text-3/Packages/User"]
    );
    assert_eq!(
        paths(Loader::VsCode { value: "x".to_string() }),
        vec!["/h/.config/Code/User", "/h/.config/Code - OSS/User"]
    );
    for loader in [
        Loader::Poly { monitors: 2 },
        Loader::Xres { merge: true },
        Loader::Pywal,
        Loader::Wall,
        Loader::Termite,
        Loader::Script,
        Loader::Ranger,
        Loader::Lemon,
        Loader::Convert { key: "vscode".to_string() },
        Loader::Skip { key: "x".to_string() },
    ] {
        assert!(paths(loader).is_empty());
    }
}

#[test]
fn load_runs_the_loader_that_is_asked_for() {
    let t = theme();
    assert_eq!(t.load("/h", &Loader::Rofi, &vec![true]), Some((t.load_rofi("/h", true), true)));
    assert_eq!(t.load("/h", &Loader::Rofi, &vec![false]), Some((t.load_rofi("/h", false), true)));
    assert_eq!(t.load("/h", &Loader::Rofi, &vec![]), Some((t.load_rofi("/h", false), true)));
    assert_eq!(
        t.load("/h", &Loader::I3 { legacy: true }, &vec![true, false, true]),
        Some((t.load_i3("/h", true, true, false, true), true))
    );
    assert_eq!(
        t.load("/h", &Loader::I3 { legacy: false }, &vec![false, true]),
        Some((t.load_i3("/h", false, false, true, false), true))
    );
    assert_eq!(t.load("/h", &Loader::Poly { monitors: 2 }, &vec![]), Some((t.load_poly("/h", 2), true)));
    assert_eq!(
        t.load("/h", &Loader::Xres { merge: true }, &vec![]),
        Some((t.load_xres("/h", true), true))
    );
    assert_eq!(t.load("/h", &Loader::Pywal, &vec![]), Some((t.load_pywal("/h"), true)));
    assert_eq!(t.load("/h", &Loader::Wall, &vec![]), Some((t.load_wall("/h"), true)));
    assert_eq!(t.load("/h", &Loader::Ncm, &vec![false, true]), Some(t.load_ncm("/h", false, true)));
    assert_eq!(t.load("/h", &Loader::Ncm, &vec![false, false]), Some((vec![], false)));
    assert_eq!(t.load("/h", &Loader::Termite, &vec![]), Some((t.load_termite("/h"), true)));
    assert_eq!(t.load("/h", &Loader::Script, &vec![]), Some((t.load_script("/h"), true)));
    assert_eq!(t.load("/h", &Loader::Bspwm, &vec![true]), Some((t.load_bspwm("/h", true), true)));
    assert_eq!(t.load("/h", &Loader::Ranger, &vec![]), Some((t.load_ranger("/h"), true)));
    assert_eq!(t.load("/h", &Loader::Lemon, &vec![]), Some((t.load_lemon("/h"), true)));
    assert_eq!(t.load("/h", &Loader::Openbox, &vec![false]), Some((t.load_openbox("/h", false), true)));
    assert_eq!(t.load("/h", &Loader::Dunst, &vec![true]), Some((t.load_dunst("/h", true), true)));
    let sublt = Loader::Sublt { stype: "st_scs".to_string(), value: "sublt/a".to_string() };
    assert_eq!(t.load("/h", &sublt, &vec![true]), Some(t.load_sublt("/h", "st_scs", "sublt/a", true)));
    assert_eq!(t.load("/h", &sublt, &vec![false]), Some((vec![], false)));
    let vscode = Loader::VsCode { value: "Dark".to_string() };
    assert_eq!(t.load("/h", &vscode, &vec![false, true]), Some(t.load_vscode("/h", "Dark", false, true)));
    assert_eq!(t.load("/h", &vscode, &vec![false, false]), Some((vec![], false)));
    assert_eq!(t.load("/h", &Loader::Skip { key: "x".to_string() }, &vec![]), Some((vec![], false)));
    assert_eq!(t.load("/h", &Loader::Convert { key: "vscode".to_string() }, &vec![]), None);
}
