//! The options that a theme can declare.
use crate::text::same_text;
use vstd::prelude::*;
use vstd::string::*;

verus! {

/// One option of a theme. Each stands for one loader and for one file in the
/// theme's directory, which goes by the option's name.
#[derive(Debug, Clone, Copy, PartialEq, Eq, Structural)]
pub enum ROption {
    /// A bar on each monitor.
    Polybar,
    /// The window manager's settings, under their older file name.
    OldI3,
    /// The window manager's settings.
    I3,
    /// X resources that replace the loaded ones.
    Xres,
    /// X resources that are merged into the loaded ones.
    MergeXRes,
    /// A picture that the colour scheme is drawn from.
    Pywal,
    /// The wallpaper.
    Wall,
    /// The music player's settings.
    Ncmpcpp,
    /// The terminal's settings.
    Termite,
    /// A shell script that the theme brings.
    Script,
    /// The tiling window manager's start script.
    Bspwm,
    /// The launcher's theme.
    Rofi,
    /// The file manager's settings.
    Ranger,
    /// A bar script.
    Lemonbar,
    /// The stacking window manager's settings.
    Openbox,
    /// The notification daemon's settings.
    Dunst,
    /// The code editor's colour theme, as a file of its own.
    VsCode,
    /// The text editor's theme, as a file of its own.
    OldSublTheme,
    /// The text editor's colour scheme, as a file of its own.
    OldScs,
    /// The text editor's older colour scheme, as a file of its own.
    OldTmTheme,
}

/// Whether JSON writes `c` as it is inside a string: it is no control
/// character, no double quote and no backslash.
pub open spec fn plain_in_json(c: char) -> bool {
    c >= ' ' && c != '"' && c != '\\'
}

/// `serde_json::to_string` on a string slice writes a double quote, the
/// characters of the text and a double quote, where each character of the
/// text is one that JSON writes as it is. It cannot fail on a string slice.
#[verifier::external_body]
fn json_text(s: &str) -> (t: String)
    requires
        forall|i: int| 0 <= i < s@.len() ==> plain_in_json(#[trigger] s@[i]),
    ensures
        t@ == seq!['"'] + s@ + seq!['"'],
{
    serde_json::to_string(s).unwrap()
}

/// The option that goes by the name `s`, if there is one.
pub open spec fn option_named(s: Seq<char>) -> Option<ROption> {
    if s == "poly"@ {
        Some(ROption::Polybar)
    }     else if s == "wm"@ {
        Some(ROption::OldI3)
    }     else if s == "i3"@ {
        Some(ROption::I3)
    }     else if s == "xres"@ {
        Some(ROption::Xres)
    }     else if s == "xres_m"@ {
        Some(ROption::MergeXRes)
    }     else if s == "pywal"@ {
        Some(ROption::Pywal)
    }     else if s == "wall"@ {
        Some(ROption::Wall)
    }     else if s == "ncmpcpp"@ {
        Some(ROption::Ncmpcpp)
    }     else if s == "termite"@ {
        Some(ROption::Termite)
    }     else if s == "script"@ {
        Some(ROption::Script)
    }     else if s == "bspwm"@ {
        Some(ROption::Bspwm)
    }     else if s == "rofi"@ {
        Some(ROption::Rofi)
    }     else if s == "ranger"@ {
        Some(ROption::Ranger)
    }     else if s == "lemonbar"@ {
        Some(ROption::Lemonbar)
    }     else if s == "openbox"@ {
        Some(ROption::Openbox)
    }     else if s == "dunst"@ {
        Some(ROption::Dunst)
    }     else if s == "vscode"@ {
        Some(ROption::VsCode)
    }     else if s == "st_subltheme"@ {
        Some(ROption::OldSublTheme)
    }     else if s == "st_scs"@ {
        Some(ROption::OldScs)
    }     else if s == "st_tmtheme"@ {
        Some(ROption::OldTmTheme)
    } else {
        None
    }
}

impl ROption {
    /// The option's name: what a theme writes to declare it, and the name of
    /// its file in the theme's directory.
    pub open spec fn name(self) -> Seq<char> {
        match self {
            ROption::Polybar => "poly"@,
            ROption::OldI3 => "wm"@,
            ROption::I3 => "i3"@,
            ROption::Xres => "xres"@,
            ROption::MergeXRes => "xres_m"@,
            ROption::Pywal => "pywal"@,
            ROption::Wall => "wall"@,
            ROption::Ncmpcpp => "ncmpcpp"@,
            ROption::Termite => "termite"@,
            ROption::Script => "script"@,
            ROption::Bspwm => "bspwm"@,
            ROption::Rofi => "rofi"@,
            ROption::Ranger => "ranger"@,
            ROption::Lemonbar => "lemonbar"@,
            ROption::Openbox => "openbox"@,
            ROption::Dunst => "dunst"@,
            ROption::VsCode => "vscode"@,
            ROption::OldSublTheme => "st_subltheme"@,
            ROption::OldScs => "st_scs"@,
            ROption::OldTmTheme => "st_tmtheme"@,
        }
    }

    /// The option's name.
    pub fn file_name(&self) -> (s: &'static str)
        ensures
            s@ == self.name(),
    {
        match self {
            ROption::Polybar => "poly",
            ROption::OldI3 => "wm",
            ROption::I3 => "i3",
            ROption::Xres => "xres",
            ROption::MergeXRes => "xres_m",
            ROption::Pywal => "pywal",
            ROption::Wall => "wall",
            ROption::Ncmpcpp => "ncmpcpp",
            ROption::Termite => "termite",
            ROption::Script => "script",
            ROption::Bspwm => "bspwm",
            ROption::Rofi => "rofi",
            ROption::Ranger => "ranger",
            ROption::Lemonbar => "lemonbar",
            ROption::Openbox => "openbox",
            ROption::Dunst => "dunst",
            ROption::VsCode => "vscode",
            ROption::OldSublTheme => "st_subltheme",
            ROption::OldScs => "st_scs",
            ROption::OldTmTheme => "st_tmtheme",
        }
    }

    /// The option that goes by the name `s`, if there is one.
    pub fn from_name(s: &str) -> (found: Option<ROption>)
        ensures
            found == option_named(s@),
    {
        if same_text(s, "poly") {
            Some(ROption::Polybar)
        }         else if same_text(s, "wm") {
            Some(ROption::OldI3)
        }         else if same_text(s, "i3") {
            Some(ROption::I3)
        }         else if same_text(s, "xres") {
            Some(ROption::Xres)
        }         else if same_text(s, "xres_m") {
            Some(ROption::MergeXRes)
        }         else if same_text(s, "pywal") {
            Some(ROption::Pywal)
        }         else if same_text(s, "wall") {
            Some(ROption::Wall)
        }         else if same_text(s, "ncmpcpp") {
            Some(ROption::Ncmpcpp)
        }         else if same_text(s, "termite") {
            Some(ROption::Termite)
        }         else if same_text(s, "script") {
            Some(ROption::Script)
        }         else if same_text(s, "bspwm") {
            Some(ROption::Bspwm)
        }         else if same_text(s, "rofi") {
            Some(ROption::Rofi)
        }         else if same_text(s, "ranger") {
            Some(ROption::Ranger)
        }         else if same_text(s, "lemonbar") {
            Some(ROption::Lemonbar)
        }         else if same_text(s, "openbox") {
            Some(ROption::Openbox)
        }         else if same_text(s, "dunst") {
            Some(ROption::Dunst)
        }         else if same_text(s, "vscode") {
            Some(ROption::VsCode)
        }         else if same_text(s, "st_subltheme") {
            Some(ROption::OldSublTheme)
        }         else if same_text(s, "st_scs") {
            Some(ROption::OldScs)
        }         else if same_text(s, "st_tmtheme") {
            Some(ROption::OldTmTheme)
        } else {
            None
        }
    }

    /// The option as JSON text: its name in double quotes.
    pub fn to_string(&self) -> (s: String)
        ensures
            s@ == seq!['"'] + self.name() + seq!['"'],
    {
        let name = self.file_name();
        proof {
            lemma_names_plain(*self);
        }
        json_text(name)
    }
}

/// No name holds a character that JSON would escape.
pub proof fn lemma_names_plain(option: ROption)
    ensures
        forall|i: int| 0 <= i < option.name().len() ==> plain_in_json(#[trigger] option.name()[i]),
{
    reveal_strlit("poly");
    reveal_strlit("wm");
    reveal_strlit("i3");
    reveal_strlit("xres");
    reveal_strlit("xres_m");
    reveal_strlit("pywal");
    reveal_strlit("wall");
    reveal_strlit("ncmpcpp");
    reveal_strlit("termite");
    reveal_strlit("script");
    reveal_strlit("bspwm");
    reveal_strlit("rofi");
    reveal_strlit("ranger");
    reveal_strlit("lemonbar");
    reveal_strlit("openbox");
    reveal_strlit("dunst");
    reveal_strlit("vscode");
    reveal_strlit("st_subltheme");
    reveal_strlit("st_scs");
    reveal_strlit("st_tmtheme");
}

/// An option is the one that goes by its name.
pub proof fn lemma_name_found(option: ROption)
    ensures
        option_named(option.name()) == Some(option),
{
    lemma_names_known();
}

/// The length and the first two characters of each name, which tell the
/// names apart.
proof fn lemma_names_known()
    ensures
        "poly"@.len() == 4 && "poly"@[0] == 'p' && "poly"@[1] == 'o',
        "wm"@.len() == 2 && "wm"@[0] == 'w' && "wm"@[1] == 'm',
        "i3"@.len() == 2 && "i3"@[0] == 'i' && "i3"@[1] == '3',
        "xres"@.len() == 4 && "xres"@[0] == 'x' && "xres"@[1] == 'r',
        "xres_m"@.len() == 6 && "xres_m"@[0] == 'x' && "xres_m"@[1] == 'r',
        "pywal"@.len() == 5 && "pywal"@[0] == 'p' && "pywal"@[1] == 'y',
        "wall"@.len() == 4 && "wall"@[0] == 'w' && "wall"@[1] == 'a',
        "ncmpcpp"@.len() == 7 && "ncmpcpp"@[0] == 'n' && "ncmpcpp"@[1] == 'c',
        "termite"@.len() == 7 && "termite"@[0] == 't' && "termite"@[1] == 'e',
        "script"@.len() == 6 && "script"@[0] == 's' && "script"@[1] == 'c',
        "bspwm"@.len() == 5 && "bspwm"@[0] == 'b' && "bspwm"@[1] == 's',
        "rofi"@.len() == 4 && "rofi"@[0] == 'r' && "rofi"@[1] == 'o',
        "ranger"@.len() == 6 && "ranger"@[0] == 'r' && "ranger"@[1] == 'a',
        "lemonbar"@.len() == 8 && "lemonbar"@[0] == 'l' && "lemonbar"@[1] == 'e',
        "openbox"@.len() == 7 && "openbox"@[0] == 'o' && "openbox"@[1] == 'p',
        "dunst"@.len() == 5 && "dunst"@[0] == 'd' && "dunst"@[1] == 'u',
        "vscode"@.len() == 6 && "vscode"@[0] == 'v' && "vscode"@[1] == 's',
        "st_subltheme"@.len() == 12 && "st_subltheme"@[0] == 's' && "st_subltheme"@[1] == 't',
        "st_scs"@.len() == 6 && "st_scs"@[0] == 's' && "st_scs"@[1] == 't',
        "st_tmtheme"@.len() == 10 && "st_tmtheme"@[0] == 's' && "st_tmtheme"@[1] == 't',
{
    reveal_strlit("poly");
    reveal_strlit("wm");
    reveal_strlit("i3");
    reveal_strlit("xres");
    reveal_strlit("xres_m");
    reveal_strlit("pywal");
    reveal_strlit("wall");
    reveal_strlit("ncmpcpp");
    reveal_strlit("termite");
    reveal_strlit("script");
    reveal_strlit("bspwm");
    reveal_strlit("rofi");
    reveal_strlit("ranger");
    reveal_strlit("lemonbar");
    reveal_strlit("openbox");
    reveal_strlit("dunst");
    reveal_strlit("vscode");
    reveal_strlit("st_subltheme");
    reveal_strlit("st_scs");
    reveal_strlit("st_tmtheme");
}

/// No two options go by one name.
pub proof fn lemma_names_distinct(a: ROption, b: ROption)
    requires
        a.name() == b.name(),
    ensures
        a == b,
{
    lemma_names_known();
}

} // verus!
