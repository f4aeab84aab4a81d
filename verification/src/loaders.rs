//! The loaders: for each option of a theme the steps that apply it.
//!
//! A loader is told what it would otherwise look up on the machine, such as
//! whether a directory exists, and returns its steps in order. The loaders
//! of the editors also say whether the editor was found at all.
use crate::paths::{cat, raven_file, raven_file_path, theme_dir, theme_file, theme_file_path};
use crate::steps::{args1, args2, args3, no_steps, run, steps_view, append_step, Step, StepView};
use crate::text::{chars_of, same_text, string_of, texts};
use crate::players::{ncm_dirs, ncm_probes, ncm_steps};
use crate::themes::{Loader, LoaderView, Theme};
use vstd::prelude::*;

verus! {

/// The steps that give the launcher its theme: its settings directory is
/// created if it is missing, then the theme's file is copied into it.
pub open spec fn rofi_steps(home: Seq<char>, name: Seq<char>, dir_exists: bool) -> Seq<StepView> {
    let copy = StepView::Copy {
        from: theme_file(home, name, "rofi"@),
        to: home + "/.config/rofi/theme.rasi"@,
    };
    if dir_exists {
        seq![copy]
    } else {
        seq![StepView::CreateDir { path: home + "/.config/rofi"@ }, copy]
    }
}

/// The step that draws the colour scheme from the theme's picture.
pub open spec fn pywal_steps(home: Seq<char>, name: Seq<char>) -> Seq<StepView> {
    seq![
        StepView::Run {
            program: "wal"@,
            args: seq!["-n"@, "-i"@, theme_file(home, name, "pywal"@)],
            wait: true,
        },
    ]
}

/// The step that runs the theme's script.
pub open spec fn script_steps(home: Seq<char>, name: Seq<char>) -> Seq<StepView> {
    seq![
        StepView::Run {
            program: "sh"@,
            args: seq!["-c"@, theme_file(home, name, "script"@)],
            wait: true,
        },
    ]
}

/// The steps that write a settings file from a shared first part, if there
/// is one, and the theme's part: both are read, the file at `target` is
/// removed if `remove` is set, and the two parts are written to it.
pub open spec fn assemble_steps(
    base: Seq<char>,
    base_exists: bool,
    part: Seq<char>,
    target: Seq<char>,
    remove: bool,
    mode: Option<u32>,
) -> Seq<StepView> {
    (if base_exists {
        seq![StepView::Read { path: base }]
    } else {
        Seq::empty()
    }) + seq![StepView::Read { path: part }] + (if remove {
        seq![StepView::Remove { path: target }]
    } else {
        Seq::empty()
    }) + seq![StepView::Write { path: target, mode }]
}

/// The steps that give the stacking window manager its settings and make
/// it read them.
pub open spec fn openbox_steps(home: Seq<char>, name: Seq<char>, base_exists: bool) -> Seq<
    StepView,
> {
    assemble_steps(
        raven_file(home, "base_rc.xml"@),
        base_exists,
        theme_file(home, name, "openbox"@),
        home + "/.config/openbox/rc.xml"@,
        true,
        None,
    ) + seq![StepView::Run { program: "openbox"@, args: seq!["--reconfigure"@], wait: true }]
}

/// The step that gives the file manager its settings.
pub open spec fn ranger_steps(home: Seq<char>, name: Seq<char>) -> Seq<StepView> {
    seq![
        StepView::Copy {
            from: theme_file(home, name, "ranger"@),
            to: home + "/.config/ranger/rc.conf"@,
        },
    ]
}

/// The steps that give the notification daemon its settings and start it.
pub open spec fn dunst_steps(home: Seq<char>, name: Seq<char>, base_exists: bool) -> Seq<
    StepView,
> {
    assemble_steps(
        raven_file(home, "base_dunst"@),
        base_exists,
        theme_file(home, name, "dunst"@),
        home + "/.config/dunst/dunstrc"@,
        true,
        None,
    ) + seq![StepView::Run { program: "dunst"@, args: Seq::empty(), wait: false }]
}

/// The steps that give the tiling window manager its start script, which
/// its owner may run, and run it.
pub open spec fn bspwm_steps(home: Seq<char>, name: Seq<char>, base_exists: bool) -> Seq<
    StepView,
> {
    assemble_steps(
        raven_file(home, "base_bspwm"@),
        base_exists,
        theme_file(home, name, "bspwm"@),
        home + "/.config/bspwm/bspwmrc"@,
        true,
        Some(0o744u32),
    ) + seq![
        StepView::Run {
            program: "sh"@,
            args: seq!["-c"@, home + "/.config/bspwm/bspwmrc"@],
            wait: true,
        },
    ]
}

/// The steps that give the window manager its settings and make it read
/// them. The theme's part is the file under the older name if `isw` is set.
/// The settings directory is created if it is missing, and settings that
/// are there are removed first.
pub open spec fn i3_steps(
    home: Seq<char>,
    name: Seq<char>,
    isw: bool,
    base_exists: bool,
    dir_exists: bool,
    config_exists: bool,
) -> Seq<StepView> {
    (if base_exists {
        seq![StepView::Read { path: raven_file(home, "base_i3"@) }]
    } else {
        Seq::empty()
    }) + seq![
        StepView::Read {
            path: theme_file(
                home,
                name,
                if isw {
                    "wm"@
                } else {
                    "i3"@
                },
            ),
        },
    ] + (if dir_exists {
        Seq::empty()
    } else {
        seq![StepView::CreateDir { path: home + "/.config/i3"@ }]
    }) + (if config_exists {
        seq![StepView::Remove { path: home + "/.config/i3/config"@ }]
    } else {
        Seq::empty()
    }) + seq![
        StepView::Write { path: home + "/.config/i3/config"@, mode: None },
        StepView::Run { program: "i3-msg"@, args: seq!["reload"@], wait: true },
    ]
}

/// The steps that give the terminal its settings and make the running
/// terminals read them.
pub open spec fn termite_steps(home: Seq<char>, name: Seq<char>) -> Seq<StepView> {
    seq![
        StepView::Copy {
            from: theme_file(home, name, "termite"@),
            to: home + "/.config/termite/config"@,
        },
        StepView::Run { program: "pkill"@, args: seq!["-SIGUSR1"@, "termite"@], wait: true },
    ]
}

/// The command line that starts the bar `bar` of a theme.
pub open spec fn bar_command(home: Seq<char>, name: Seq<char>, bar: Seq<char>) -> Seq<char> {
    "polybar --config="@ + theme_file(home, name, "poly"@) + " "@ + bar
        + " > /dev/null 2> /dev/null"@
}

/// The step that starts the bar `bar` without waiting for it.
pub open spec fn bar_step(home: Seq<char>, name: Seq<char>, bar: Seq<char>) -> StepView {
    StepView::Run {
        program: "sh"@,
        args: seq!["-c"@, bar_command(home, name, bar)],
        wait: false,
    }
}

/// The steps that start one bar on each of the first `monitor` monitors,
/// each with the bar that `order` names for it.
pub open spec fn poly_steps(
    home: Seq<char>,
    name: Seq<char>,
    monitor: int,
    order: Seq<Seq<char>>,
) -> Seq<StepView> {
    Seq::new(
        if monitor > 0 {
            monitor as nat
        } else {
            0
        },
        |i: int| bar_step(home, name, order[i]),
    )
}

/// The step that starts the theme's bar script without waiting for it.
pub open spec fn lemon_steps(home: Seq<char>, name: Seq<char>) -> Seq<StepView> {
    seq![
        StepView::Run {
            program: "sh"@,
            args: seq![theme_file(home, name, "lemonbar"@)],
            wait: false,
        },
    ]
}

/// The step that sets the wallpaper.
pub open spec fn wall_steps(home: Seq<char>, name: Seq<char>) -> Seq<StepView> {
    seq![
        StepView::Run {
            program: "feh"@,
            args: seq!["--bg-scale"@, theme_file(home, name, "wall"@)],
            wait: true,
        },
    ]
}

/// The step that loads the theme's X resources, merging them into the
/// loaded ones if `merge` is set.
pub open spec fn xres_steps(home: Seq<char>, name: Seq<char>, merge: bool) -> Seq<StepView> {
    if merge {
        seq![
            StepView::Run {
                program: "xrdb"@,
                args: seq!["-merge"@, theme_file(home, name, "xres_m"@)],
                wait: true,
            },
        ]
    } else {
        seq![
            StepView::Run {
                program: "xrdb"@,
                args: seq![theme_file(home, name, "xres"@)],
                wait: true,
            },
        ]
    }
}

/// The steps that set the code editor's colour theme to `value`, in the
/// settings of each of its two installations that is there.
pub open spec fn vscode_steps(
    home: Seq<char>,
    value: Seq<char>,
    code_exists: bool,
    oss_exists: bool,
) -> Seq<StepView> {
    (if code_exists {
        seq![
            StepView::Patch {
                file: home + "/.config/Code/User/settings.json"@,
                pattern: "\"workbench.colorTheme\": "@,
                value,
            },
        ]
    } else {
        Seq::empty()
    }) + (if oss_exists {
        seq![
            StepView::Patch {
                file: home + "/.config/Code - OSS/User/settings.json"@,
                pattern: "\"workbench.colorTheme\": "@,
                value,
            },
        ]
    } else {
        Seq::empty()
    })
}

/// `s` without `prefix` at its start, as often as it stands there.
pub open spec fn without_prefix(s: Seq<char>, prefix: Seq<char>) -> Seq<char>
    decreases s.len(),
{
    if prefix.len() > 0 && prefix.is_prefix_of(s) {
        without_prefix(s.skip(prefix.len() as int), prefix)
    } else {
        s
    }
}

/// The key of the text editor's settings that the kind `stype` sets: the
/// colour scheme for the two kinds of colour scheme, the theme for the kind
/// of theme, and the empty key for any other kind.
pub open spec fn sublt_pattern(stype: Seq<char>) -> Seq<char> {
    if stype == "st_tmtheme"@ || stype == "st_scs"@ {
        "\"color_scheme\": "@
    } else if stype == "st_subltheme"@ {
        "\"theme\": "@
    } else {
        Seq::empty()
    }
}

/// The steps that set the text editor's setting of kind `stype` to
/// `value`. A value that names a file of the theme, by starting with the
/// name of the theme's directory for such files, has that file copied to
/// the editor first, and is set without that start.
pub open spec fn sublt_steps(
    home: Seq<char>,
    name: Seq<char>,
    stype: Seq<char>,
    value: Seq<char>,
) -> Seq<StepView> {
    let user = home + "/.config/sublime-text-3/Packages/User"@;
    let file = without_prefix(value, "sublt/"@);
    (if "sublt/"@.is_prefix_of(value) {
        seq![
            StepView::Copy {
                from: theme_dir(home, name) + "/sublt/"@ + file,
                to: user + "/"@ + file,
            },
        ]
    } else {
        Seq::empty()
    }) + seq![
        StepView::Patch {
            file: user + "/Preferences.sublime-settings"@,
            pattern: sublt_pattern(stype),
            value: file,
        },
    ]
}

/// `s` without `prefix` at its start, as often as it stands there, and
/// whether it stood there at all.
pub fn strip_prefix(s: &str, prefix: &str) -> (stripped: (String, bool))
    ensures
        stripped.0@ == without_prefix(s@, prefix@),
        stripped.1 == prefix@.is_prefix_of(s@),
{
    let text = chars_of(s);
    let lead = chars_of(prefix);
    let n = text.len();
    let m = lead.len();
    let mut from: usize = 0;
    let mut found = false;
    assert(text@.skip(0) == text@);
    if m > 0 {
        loop
            invariant
                from <= n == text.len(),
                m == lead.len(),
                m > 0,
                without_prefix(text@, lead@) == without_prefix(text@.skip(from as int), lead@),
                found == (from > 0),
                from == 0 || lead@.is_prefix_of(text@),
            ensures
                !lead@.is_prefix_of(text@.skip(from as int)),
            decreases n - from,
        {
            let ghost rest = text@.skip(from as int);
            if n - from < m {
                assert(!lead@.is_prefix_of(rest));
                break ;
            }
            let mut j: usize = 0;
            while j < m && text[from + j] == lead[j]
                invariant
                    j <= m == lead.len(),
                    from + m <= n == text.len(),
                    rest == text@.skip(from as int),
                    forall|k: int| 0 <= k < j ==> rest[k] == lead@[k],
                decreases m - j,
            {
                j += 1;
            }
            if j < m {
                assert(rest[j as int] != lead@[j as int]);
                assert(!lead@.is_prefix_of(rest)) by {
                    if lead@.is_prefix_of(rest) {
                        assert(rest.subrange(0, m as int)[j as int] == rest[j as int]);
                    }
                }
                break ;
            }
            proof {
                assert(rest.subrange(0, m as int) =~= lead@);
                assert(lead@.is_prefix_of(rest));
                assert(rest.skip(m as int) == text@.skip(from + m));
                if from == 0 {
                    assert(rest == text@);
                }
            }
            from = from + m;
            found = true;
        }
    } else {
        assert(lead@.is_prefix_of(text@)) by {
            assert(text@.subrange(0, 0) =~= lead@);
        }
        found = true;
    }
    let out = string_of(&text, from, n);
    assert(text@.subrange(from as int, n as int) == text@.skip(from as int));
    (out, found)
}

impl Theme {
    /// The steps that give the launcher its theme. `dir_exists` says
    /// whether the launcher's settings directory is there.
    pub fn load_rofi(&self, home: &str, dir_exists: bool) -> (plan: Vec<Step>)
        ensures
            steps_view(plan@) == rofi_steps(home@, self.name@, dir_exists),
    {
        let mut plan = no_steps();
        if !dir_exists {
            append_step(&mut plan, Step::CreateDir { path: cat(home, "/.config/rofi") });
        }
        append_step(
            &mut plan,
            Step::Copy {
                from: theme_file_path(home, self.name.as_str(), "rofi"),
                to: cat(home, "/.config/rofi/theme.rasi"),
            },
        );
        assert(steps_view(plan@) =~= rofi_steps(home@, self.name@, dir_exists));
        plan
    }

    /// The step that draws the colour scheme from the theme's picture.
    pub fn load_pywal(&self, home: &str) -> (plan: Vec<Step>)
        ensures
            steps_view(plan@) == pywal_steps(home@, self.name@),
    {
        let mut plan = no_steps();
        let picture = theme_file_path(home, self.name.as_str(), "pywal");
        append_step(&mut plan, run("wal", args3("-n".to_owned(), "-i".to_owned(), picture), true));
        assert(steps_view(plan@) =~= pywal_steps(home@, self.name@));
        plan
    }

    /// The step that runs the theme's script.
    pub fn load_script(&self, home: &str) -> (plan: Vec<Step>)
        ensures
            steps_view(plan@) == script_steps(home@, self.name@),
    {
        let mut plan = no_steps();
        let script = theme_file_path(home, self.name.as_str(), "script");
        append_step(&mut plan, run("sh", args2("-c".to_owned(), script), true));
        assert(steps_view(plan@) =~= script_steps(home@, self.name@));
        plan
    }

    /// The steps that give the stacking window manager its settings.
    /// `base_exists` says whether there is a shared first part.
    pub fn load_openbox(&self, home: &str, base_exists: bool) -> (plan: Vec<Step>)
        ensures
            steps_view(plan@) == openbox_steps(home@, self.name@, base_exists),
    {
        let mut plan = assemble(
            raven_file_path(home, "base_rc.xml"),
            base_exists,
            theme_file_path(home, self.name.as_str(), "openbox"),
            cat(home, "/.config/openbox/rc.xml"),
            true,
            None,
        );
        append_step(&mut plan, run("openbox", args1("--reconfigure".to_owned()), true));
        plan
    }

    /// The step that gives the file manager its settings.
    pub fn load_ranger(&self, home: &str) -> (plan: Vec<Step>)
        ensures
            steps_view(plan@) == ranger_steps(home@, self.name@),
    {
        let mut plan = no_steps();
        append_step(
            &mut plan,
            Step::Copy {
                from: theme_file_path(home, self.name.as_str(), "ranger"),
                to: cat(home, "/.config/ranger/rc.conf"),
            },
        );
        assert(steps_view(plan@) =~= ranger_steps(home@, self.name@));
        plan
    }

    /// The steps that give the notification daemon its settings and start
    /// it. `base_exists` says whether there is a shared first part.
    pub fn load_dunst(&self, home: &str, base_exists: bool) -> (plan: Vec<Step>)
        ensures
            steps_view(plan@) == dunst_steps(home@, self.name@, base_exists),
    {
        let mut plan = assemble(
            raven_file_path(home, "base_dunst"),
            base_exists,
            theme_file_path(home, self.name.as_str(), "dunst"),
            cat(home, "/.config/dunst/dunstrc"),
            true,
            None,
        );
        let none: Vec<String> = Vec::new();
        assert(texts(none@) =~= Seq::<Seq<char>>::empty());
        append_step(&mut plan, run("dunst", none, false));
        plan
    }

    /// The steps that give the tiling window manager its start script and
    /// run it. `base_exists` says whether there is a shared first part.
    pub fn load_bspwm(&self, home: &str, base_exists: bool) -> (plan: Vec<Step>)
        ensures
            steps_view(plan@) == bspwm_steps(home@, self.name@, base_exists),
    {
        let mut plan = assemble(
            raven_file_path(home, "base_bspwm"),
            base_exists,
            theme_file_path(home, self.name.as_str(), "bspwm"),
            cat(home, "/.config/bspwm/bspwmrc"),
            true,
            Some(0o744u32),
        );
        append_step(
            &mut plan,
            run("sh", args2("-c".to_owned(), cat(home, "/.config/bspwm/bspwmrc")), true),
        );
        plan
    }

    /// The steps that give the window manager its settings. `isw` chooses
    /// the theme's file under the older name. The other three say whether
    /// there is a shared first part, whether the settings directory is
    /// there, and whether it holds settings already.
    pub fn load_i3(
        &self,
        home: &str,
        isw: bool,
        base_exists: bool,
        dir_exists: bool,
        config_exists: bool,
    ) -> (plan: Vec<Step>)
        ensures
            steps_view(plan@) == i3_steps(
                home@,
                self.name@,
                isw,
                base_exists,
                dir_exists,
                config_exists,
            ),
    {
        let mut plan = no_steps();
        if base_exists {
            append_step(&mut plan, Step::Read { path: raven_file_path(home, "base_i3") });
        }
        let part = if isw {
            theme_file_path(home, self.name.as_str(), "wm")
        } else {
            theme_file_path(home, self.name.as_str(), "i3")
        };
        append_step(&mut plan, Step::Read { path: part });
        if !dir_exists {
            append_step(&mut plan, Step::CreateDir { path: cat(home, "/.config/i3") });
        }
        if config_exists {
            append_step(&mut plan, Step::Remove { path: cat(home, "/.config/i3/config") });
        }
        append_step(&mut plan, Step::Write { path: cat(home, "/.config/i3/config"), mode: None });
        append_step(&mut plan, run("i3-msg", args1("reload".to_owned()), true));
        assert(steps_view(plan@) =~= i3_steps(
            home@,
            self.name@,
            isw,
            base_exists,
            dir_exists,
            config_exists,
        ));
        plan
    }

    /// The steps that give the terminal its settings.
    pub fn load_termite(&self, home: &str) -> (plan: Vec<Step>)
        ensures
            steps_view(plan@) == termite_steps(home@, self.name@),
    {
        let mut plan = no_steps();
        append_step(
            &mut plan,
            Step::Copy {
                from: theme_file_path(home, self.name.as_str(), "termite"),
                to: cat(home, "/.config/termite/config"),
            },
        );
        append_step(&mut plan, run("pkill", args2("-SIGUSR1".to_owned(), "termite".to_owned()), true));
        assert(steps_view(plan@) =~= termite_steps(home@, self.name@));
        plan
    }

    /// The steps that start one bar on each of the first `monitor`
    /// monitors. The theme names a bar for each of them.
    pub fn load_poly(&self, home: &str, monitor: i32) -> (plan: Vec<Step>)
        requires
            monitor <= self.order@.len(),
        ensures
            steps_view(plan@) == poly_steps(home@, self.name@, monitor as int, texts(self.order@)),
    {
        let mut plan = no_steps();
        let mut number: usize = 0;
        while monitor > 0 && number < monitor as usize
            invariant
                number <= self.order@.len(),
                monitor > 0 ==> number <= monitor,
                monitor <= 0 ==> number == 0,
                monitor <= self.order@.len(),
                steps_view(plan@).len() == number,
                forall|k: int|
                    0 <= k < number ==> (#[trigger] steps_view(plan@)[k]) == bar_step(
                        home@,
                        self.name@,
                        self.order@[k]@,
                    ),
            decreases monitor - number,
        {
            let command = cat("polybar --config=", theme_file_path(home, self.name.as_str(), "poly").as_str()).concat(" ").concat(self.order[number].as_str()).concat(" > /dev/null 2> /dev/null");
            append_step(&mut plan, run("sh", args2("-c".to_owned(), command), false));
            number += 1;
        }
        assert(steps_view(plan@) =~= poly_steps(
            home@,
            self.name@,
            monitor as int,
            texts(self.order@),
        ));
        plan
    }

    /// The step that starts the theme's bar script.
    pub fn load_lemon(&self, home: &str) -> (plan: Vec<Step>)
        ensures
            steps_view(plan@) == lemon_steps(home@, self.name@),
    {
        let mut plan = no_steps();
        let script = theme_file_path(home, self.name.as_str(), "lemonbar");
        append_step(&mut plan, run("sh", args1(script), false));
        assert(steps_view(plan@) =~= lemon_steps(home@, self.name@));
        plan
    }

    /// The step that sets the wallpaper.
    pub fn load_wall(&self, home: &str) -> (plan: Vec<Step>)
        ensures
            steps_view(plan@) == wall_steps(home@, self.name@),
    {
        let mut plan = no_steps();
        let picture = theme_file_path(home, self.name.as_str(), "wall");
        append_step(&mut plan, run("feh", args2("--bg-scale".to_owned(), picture), true));
        assert(steps_view(plan@) =~= wall_steps(home@, self.name@));
        plan
    }

    /// The step that loads the theme's X resources.
    pub fn load_xres(&self, home: &str, merge: bool) -> (plan: Vec<Step>)
        ensures
            steps_view(plan@) == xres_steps(home@, self.name@, merge),
    {
        let mut plan = no_steps();
        if merge {
            let file = theme_file_path(home, self.name.as_str(), "xres_m");
            append_step(&mut plan, run("xrdb", args2("-merge".to_owned(), file), true));
        } else {
            let file = theme_file_path(home, self.name.as_str(), "xres");
            append_step(&mut plan, run("xrdb", args1(file), true));
        }
        assert(steps_view(plan@) =~= xres_steps(home@, self.name@, merge));
        plan
    }

    /// The steps that set the code editor's colour theme to `value`.
    /// `code_exists` and `oss_exists` say which of the editor's two
    /// settings directories are there. With neither the editor is not
    /// installed: nothing is done, and `false` comes back, which is no
    /// error.
    pub fn load_vscode(&self, home: &str, value: &str, code_exists: bool, oss_exists: bool) -> (loaded:
        (Vec<Step>, bool))
        ensures
            steps_view(loaded.0@) == vscode_steps(home@, value@, code_exists, oss_exists),
            loaded.1 == (code_exists || oss_exists),
    {
        let mut plan = no_steps();
        if code_exists {
            append_step(
                &mut plan,
                Step::Patch {
                    file: cat(home, "/.config/Code/User/settings.json"),
                    pattern: "\"workbench.colorTheme\": ".to_owned(),
                    value: value.to_owned(),
                },
            );
        }
        if oss_exists {
            append_step(
                &mut plan,
                Step::Patch {
                    file: cat(home, "/.config/Code - OSS/User/settings.json"),
                    pattern: "\"workbench.colorTheme\": ".to_owned(),
                    value: value.to_owned(),
                },
            );
        }
        assert(steps_view(plan@) =~= vscode_steps(home@, value@, code_exists, oss_exists));
        (plan, code_exists || oss_exists)
    }

    /// The steps that set the text editor's setting of kind `stype` to
    /// `value`. `installed` says whether the editor's settings directory is
    /// there. Without it the editor is not installed: nothing is done, and
    /// `false` comes back, which is no error.
    pub fn load_sublt(&self, home: &str, stype: &str, value: &str, installed: bool) -> (loaded: (
        Vec<Step>,
        bool,
    ))
        ensures
            loaded.1 == installed,
            steps_view(loaded.0@) == if installed {
                sublt_steps(home@, self.name@, stype@, value@)
            } else {
                Seq::empty()
            },
    {
        let mut plan = no_steps();
        if !installed {
            return (plan, false);
        }
        let (file, named) = strip_prefix(value, "sublt/");
        if named {
            append_step(
                &mut plan,
                Step::Copy {
                    from: cat(
                        crate::paths::theme_dir_path(home, self.name.as_str()).as_str(),
                        "/sublt/",
                    ).concat(file.as_str()),
                    to: cat(home, "/.config/sublime-text-3/Packages/User").concat("/").concat(
                        file.as_str(),
                    ),
                },
            );
        }
        let pattern = if same_text(stype, "st_tmtheme") || same_text(stype, "st_scs") {
            "\"color_scheme\": ".to_owned()
        } else if same_text(stype, "st_subltheme") {
            "\"theme\": ".to_owned()
        } else {
            String::new()
        };
        append_step(
            &mut plan,
            Step::Patch {
                file: cat(home, "/.config/sublime-text-3/Packages/User").concat(
                    "/Preferences.sublime-settings",
                ),
                pattern,
                value: file,
            },
        );
        assert(steps_view(plan@) =~= sublt_steps(home@, self.name@, stype@, value@));
        (plan, true)
    }
}

/// The steps that write a settings file from a shared first part, if there
/// is one, and the theme's part.
pub fn assemble(
    base: String,
    base_exists: bool,
    part: String,
    target: String,
    remove: bool,
    mode: Option<u32>,
) -> (plan: Vec<Step>)
    ensures
        steps_view(plan@) == assemble_steps(base@, base_exists, part@, target@, remove, mode),
{
    let mut plan = no_steps();
    if base_exists {
        append_step(&mut plan, Step::Read { path: base });
    }
    append_step(&mut plan, Step::Read { path: part });
    if remove {
        append_step(&mut plan, Step::Remove { path: target.clone() });
    }
    append_step(&mut plan, Step::Write { path: target, mode });
    assert(steps_view(plan@) =~= assemble_steps(base@, base_exists, part@, target@, remove, mode));
    plan
}

/// What was found at the `i`th path that a loader asked about. A path
/// without an answer counts as not found.
pub open spec fn answer(found: Seq<bool>, i: int) -> bool {
    0 <= i < found.len() && found[i]
}

/// What was found at the `i`th path that a loader asked about.
pub fn found_at(found: &Vec<bool>, i: usize) -> (b: bool)
    ensures
        b == answer(found@, i as int),
{
    i < found.len() && found[i]
}

/// The paths of which a loader needs to know whether they exist, in the
/// order in which it takes the answers.
pub open spec fn probe_paths(home: Seq<char>, loader: LoaderView) -> Seq<Seq<char>> {
    match loader {
        LoaderView::I3 { .. } => seq![
            raven_file(home, "base_i3"@),
            home + "/.config/i3"@,
            home + "/.config/i3/config"@,
        ],
        LoaderView::Ncm => ncm_dirs(home),
        LoaderView::Bspwm => seq![raven_file(home, "base_bspwm"@)],
        LoaderView::Rofi => seq![home + "/.config/rofi"@],
        LoaderView::Openbox => seq![raven_file(home, "base_rc.xml"@)],
        LoaderView::Dunst => seq![raven_file(home, "base_dunst"@)],
        LoaderView::Sublt { .. } => seq![home + "/.config/sublime-text-3/Packages/User"@],
        LoaderView::VsCode { .. } => seq![
            home + "/.config/Code/User"@,
            home + "/.config/Code - OSS/User"@,
        ],
        _ => Seq::empty(),
    }
}

/// The paths of which `loader` needs to know whether they exist.
pub fn probes(home: &str, loader: &Loader) -> (paths: Vec<String>)
    ensures
        texts(paths@) == probe_paths(home@, loader@),
{
    let mut paths: Vec<String> = Vec::new();
    match loader {
        Loader::I3 { .. } => {
            paths.push(raven_file_path(home, "base_i3"));
            paths.push(cat(home, "/.config/i3"));
            paths.push(cat(home, "/.config/i3/config"));
        },
        Loader::Ncm => {
            return ncm_probes(home);
        },
        Loader::Bspwm => {
            paths.push(raven_file_path(home, "base_bspwm"));
        },
        Loader::Rofi => {
            paths.push(cat(home, "/.config/rofi"));
        },
        Loader::Openbox => {
            paths.push(raven_file_path(home, "base_rc.xml"));
        },
        Loader::Dunst => {
            paths.push(raven_file_path(home, "base_dunst"));
        },
        Loader::Sublt { .. } => {
            paths.push(cat(home, "/.config/sublime-text-3/Packages/User"));
        },
        Loader::VsCode { .. } => {
            paths.push(cat(home, "/.config/Code/User"));
            paths.push(cat(home, "/.config/Code - OSS/User"));
        },
        _ => {},
    }
    assert(texts(paths@) =~= probe_paths(home@, loader@));
    paths
}

/// The steps of a loader for the theme `name` with the bars `order`, and
/// whether the loader found the program it loads into. `found` holds the
/// answers to the loader's questions. A loader that first moves an older
/// option into the overrides has no steps of its own.
pub open spec fn loader_steps(
    home: Seq<char>,
    name: Seq<char>,
    order: Seq<Seq<char>>,
    loader: LoaderView,
    found: Seq<bool>,
) -> Option<(Seq<StepView>, bool)> {
    match loader {
        LoaderView::Poly { monitors } => Some((poly_steps(home, name, monitors as int, order), true)),
        LoaderView::I3 { legacy } => Some(
            (
                i3_steps(home, name, legacy, answer(found, 0), answer(found, 1), answer(found, 2)),
                true,
            ),
        ),
        LoaderView::Xres { merge } => Some((xres_steps(home, name, merge), true)),
        LoaderView::Pywal => Some((pywal_steps(home, name), true)),
        LoaderView::Wall => Some((wall_steps(home, name), true)),
        LoaderView::Ncm => Some(
            (
                ncm_steps(home, name, answer(found, 0), answer(found, 1)),
                answer(found, 0) || answer(found, 1),
            ),
        ),
        LoaderView::Termite => Some((termite_steps(home, name), true)),
        LoaderView::Script => Some((script_steps(home, name), true)),
        LoaderView::Bspwm => Some((bspwm_steps(home, name, answer(found, 0)), true)),
        LoaderView::Rofi => Some((rofi_steps(home, name, answer(found, 0)), true)),
        LoaderView::Ranger => Some((ranger_steps(home, name), true)),
        LoaderView::Lemon => Some((lemon_steps(home, name), true)),
        LoaderView::Openbox => Some((openbox_steps(home, name, answer(found, 0)), true)),
        LoaderView::Dunst => Some((dunst_steps(home, name, answer(found, 0)), true)),
        LoaderView::Convert { .. } => None,
        LoaderView::Sublt { stype, value } => Some(
            if answer(found, 0) {
                (sublt_steps(home, name, stype, value), true)
            } else {
                (Seq::empty(), false)
            },
        ),
        LoaderView::VsCode { value } => Some(
            (
                vscode_steps(home, value, answer(found, 0), answer(found, 1)),
                answer(found, 0) || answer(found, 1),
            ),
        ),
        LoaderView::Skip { .. } => Some((Seq::empty(), false)),
    }
}

/// The steps of a plan and the mark that goes with them, by their views.
pub open spec fn loaded_view(loaded: Option<(Vec<Step>, bool)>) -> Option<(Seq<StepView>, bool)> {
    match loaded {
        Some(l) => Some((steps_view(l.0@), l.1)),
        None => None,
    }
}

impl Theme {
    /// The steps of `loader` for this theme, and whether the loader found
    /// the program it loads into. `found` holds, for each path of
    /// `probes`, whether it exists. `None` comes back for a loader that
    /// first moves an older option into the overrides. A loader of bars
    /// needs a bar for each monitor.
    pub fn load(&self, home: &str, loader: &Loader, found: &Vec<bool>) -> (loaded: Option<
        (Vec<Step>, bool),
    >)
        requires
            loader matches Loader::Poly { monitors } ==> monitors <= self.order@.len(),
        ensures
            loaded_view(loaded) == loader_steps(
                home@,
                self.name@,
                texts(self.order@),
                loader@,
                found@,
            ),
    {
        match loader {
            Loader::Poly { monitors } => Some((self.load_poly(home, *monitors), true)),
            Loader::I3 { legacy } => Some(
                (
                    self.load_i3(
                        home,
                        *legacy,
                        found_at(found, 0),
                        found_at(found, 1),
                        found_at(found, 2),
                    ),
                    true,
                ),
            ),
            Loader::Xres { merge } => Some((self.load_xres(home, *merge), true)),
            Loader::Pywal => Some((self.load_pywal(home), true)),
            Loader::Wall => Some((self.load_wall(home), true)),
            Loader::Ncm => Some(self.load_ncm(home, found_at(found, 0), found_at(found, 1))),
            Loader::Termite => Some((self.load_termite(home), true)),
            Loader::Script => Some((self.load_script(home), true)),
            Loader::Bspwm => Some((self.load_bspwm(home, found_at(found, 0)), true)),
            Loader::Rofi => Some((self.load_rofi(home, found_at(found, 0)), true)),
            Loader::Ranger => Some((self.load_ranger(home), true)),
            Loader::Lemon => Some((self.load_lemon(home), true)),
            Loader::Openbox => Some((self.load_openbox(home, found_at(found, 0)), true)),
            Loader::Dunst => Some((self.load_dunst(home, found_at(found, 0)), true)),
            Loader::Convert { .. } => None,
            Loader::Sublt { stype, value } => Some(
                self.load_sublt(home, stype.as_str(), value.as_str(), found_at(found, 0)),
            ),
            Loader::VsCode { value } => Some(
                self.load_vscode(home, value.as_str(), found_at(found, 0), found_at(found, 1)),
            ),
            Loader::Skip { .. } => Some((no_steps(), false)),
        }
    }
}

} // verus!
