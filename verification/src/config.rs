//! Process-wide settings and the fixed defaults of the data model.
use crate::kv::{kv_new, KvView};
use crate::paths::{
    raven_dir, raven_dir_path, raven_file, raven_file_path, theme_dir, theme_file,
    theme_file_path,
};
use crate::steps::{no_steps, save, save_steps, steps_view, append_step, append_steps, Step, StepView};
use crate::text::{chars_of, pipe_tokens, split_pipes};
use crate::themes::{ThemeStore, ThemeStoreView};
use vstd::prelude::*;
use vstd::string::*;

verus! {

/// Host of the theme repository that is used when none is configured.
pub fn default_host() -> (host: String)
    ensures
        host@ == "https://demenses.net"@,
{
    String::from_str("https://demenses.net")
}

/// Screenshot address of a theme that has none: the empty string.
pub fn default_screen() -> (screen: String)
    ensures
        screen@ == Seq::<char>::empty(),
{
    String::new()
}

/// Description of a theme that was never described.
pub fn default_desc() -> (desc: String)
    ensures
        desc@ == "A raven theme."@,
{
    String::from_str("A raven theme.")
}

/// The main settings: how many monitors get a bar, which bar goes to which
/// monitor, the menu command, the theme applied last, the theme being edited
/// and the repository host.
#[derive(Debug)]
pub struct Config {
    pub monitors: i32,
    pub polybar: Vec<String>,
    pub menu_command: String,
    pub last: String,
    pub editing: String,
    pub host: String,
}

impl Config {
    /// What `default` returns, field by field.
    pub open spec fn is_default(&self) -> bool {
        &&& self.monitors == 1
        &&& self.polybar@.len() == 2
        &&& self.polybar@[0]@ == "main"@
        &&& self.polybar@[1]@ == "other"@
        &&& self.menu_command@ == "rofi -theme sidebar -mesg 'raven:' -p '> ' -dmenu"@
        &&& self.last@ == Seq::<char>::empty()
        &&& self.editing@ == Seq::<char>::empty()
        &&& self.host@ == "https://demenses.net"@
    }

    /// Settings of a fresh installation.
    pub fn default() -> (conf: Config)
        ensures
            conf.is_default(),
    {
        let mut polybar: Vec<String> = Vec::new();
        polybar.push(String::from_str("main"));
        polybar.push(String::from_str("other"));
        Config {
            monitors: 1,
            polybar,
            menu_command: String::from_str("rofi -theme sidebar -mesg 'raven:' -p '> ' -dmenu"),
            last: String::new(),
            editing: String::new(),
            host: default_host(),
        }
    }
}

/// The steps that store the settings below the home directory `home`: the
/// buffer holds the settings as text, and replaces the settings file.
pub fn up_config(home: &str) -> (plan: Vec<Step>)
    ensures
        steps_view(plan@) == save_steps(raven_dir(home@), "config.json"@),
{
    save(raven_dir_path(home).as_str(), "config.json")
}

/// The steps that set up a home directory: the settings directory and the
/// themes directory in it are created unless settings of the older form
/// are there, and the settings are stored from the buffer, which holds
/// the settings of a fresh installation as text.
pub open spec fn init_steps(home: Seq<char>, older_settings: bool) -> Seq<StepView> {
    (if older_settings {
        Seq::empty()
    } else {
        seq![
            StepView::CreateDir { path: raven_dir(home) },
            StepView::CreateDir { path: raven_file(home, "themes"@) },
        ]
    }) + save_steps(raven_dir(home), "config.json"@)
}

/// The steps that set up the home directory `home`. `older_settings` says
/// whether settings of the older form are there, which the user has to
/// carry over by hand.
pub fn init(home: &str, older_settings: bool) -> (plan: Vec<Step>)
    ensures
        steps_view(plan@) == init_steps(home@, older_settings),
{
    let mut plan = no_steps();
    if !older_settings {
        append_step(&mut plan, Step::CreateDir { path: raven_dir_path(home) });
        append_step(&mut plan, Step::CreateDir { path: raven_file_path(home, "themes") });
    }
    append_steps(&mut plan, up_config(home));
    plan
}

/// The store of a theme that declares its options in the older way, in one
/// text with vertical bars between them: the options are the pieces
/// between the bars, trimmed, without the empty ones, and the rest is as in
/// a new theme.
pub open spec fn converted_store(name: Seq<char>, legacy: Seq<char>) -> ThemeStoreView {
    ThemeStoreView {
        name,
        options: pipe_tokens(legacy),
        enabled: Seq::empty(),
        screenshot: Seq::empty(),
        description: "A raven theme."@,
        kv: KvView::empty(),
    }
}

/// The steps that go with the conversion of the theme `name`: the store is
/// stored from the buffer, which holds it as text, and then the file with
/// the older declaration is removed.
pub open spec fn convert_steps(home: Seq<char>, name: Seq<char>) -> Seq<StepView> {
    save_steps(theme_dir(home, name), "theme.json"@) + seq![
        StepView::Remove { path: theme_file(home, name, "theme"@) },
    ]
}

/// Turns the older declaration of the theme `theme_name`, whose text is
/// `legacy`, into the store of the theme, and gives the steps that write
/// the store and remove the older declaration.
pub fn convert_theme(home: &str, theme_name: &str, legacy: &str) -> (converted: (
    ThemeStore,
    Vec<Step>,
))
    ensures
        converted.0@ == converted_store(theme_name@, legacy@),
        steps_view(converted.1@) == convert_steps(home@, theme_name@),
{
    let text = chars_of(legacy);
    let options = split_pipes(&text);
    let store = ThemeStore {
        name: theme_name.to_owned(),
        enabled: Vec::new(),
        options,
        screenshot: default_screen(),
        description: default_desc(),
        kv: kv_new(),
    };
    assert(store@.enabled =~= Seq::<Seq<char>>::empty());
    let mut plan = store.store(home);
    append_step(&mut plan, Step::Remove { path: theme_file_path(home, theme_name, "theme") });
    (store, plan)
}

/// The names among `entries` whose mark is set, in order.
pub open spec fn marked(entries: Seq<(String, bool)>) -> Seq<Seq<char>>
    decreases entries.len(),
{
    if entries.len() == 0 {
        Seq::empty()
    } else if entries.last().1 {
        marked(entries.drop_last()).push(entries.last().0@)
    } else {
        marked(entries.drop_last())
    }
}

/// The themes to convert. `entries` holds the name of each theme, and
/// whether it still has a declaration of the older form: those that have
/// one come back, in order.
pub fn check_themes(entries: &Vec<(String, bool)>) -> (todo: Vec<String>)
    ensures
        crate::text::texts(todo@) == marked(entries@),
{
    let n = entries.len();
    let mut todo: Vec<String> = Vec::new();
    let mut i: usize = 0;
    assert(entries@.take(0) =~= Seq::<(String, bool)>::empty());
    assert(crate::text::texts(todo@) =~= Seq::<Seq<char>>::empty());
    while i < n
        invariant
            i <= n == entries.len(),
            crate::text::texts(todo@) == marked(entries@.take(i as int)),
        decreases n - i,
    {
        let ghost before = crate::text::texts(todo@);
        assert(entries@.take(i + 1).drop_last() =~= entries@.take(i as int));
        if entries[i].1 {
            todo.push(entries[i].0.clone());
            assert(crate::text::texts(todo@) =~= before.push(entries@[i as int].0@));
        }
        i += 1;
    }
    assert(entries@.take(n as int) =~= entries@);
    todo
}

} // verus!
