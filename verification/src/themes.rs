//! Themes: what is stored of one, what is loaded of one, and the operations
//! that create, change and apply it.
use crate::config::{default_desc, default_screen, Config};
use crate::error::{Error, ErrorView};
use crate::kv::{entry_view, kv_entries, kv_insert, kv_new, kv_pairs, KvView};
use crate::roption::{lemma_name_found, option_named, ROption};
use crate::paths::{theme_dir, theme_dir_path, theme_file, theme_file_path};
use crate::steps::{
    args1, no_steps, run, save, save_steps, steps_view, append_step, append_steps, Step, StepView,
};
use crate::text::{same_text, texts, trim, trimmed};
use vstd::prelude::*;

verus! {

/// What is stored of a theme.
#[derive(Debug)]
pub struct ThemeStore {
    /// The theme's name, which is also the name of its directory.
    pub name: String,
    /// The names of the options that the theme declares, in order.
    pub options: Vec<String>,
    /// Flags, kept as they are.
    pub enabled: Vec<String>,
    /// Address of a screenshot, or the empty string.
    pub screenshot: String,
    /// A free text.
    pub description: String,
    /// Free-form key/value overrides.
    pub kv: serde_json::Map<String, serde_json::Value>,
}

/// A stored theme with its texts as character sequences.
pub struct ThemeStoreView {
    pub name: Seq<char>,
    pub options: Seq<Seq<char>>,
    pub enabled: Seq<Seq<char>>,
    pub screenshot: Seq<char>,
    pub description: Seq<char>,
    pub kv: KvView,
}

impl View for ThemeStore {
    type V = ThemeStoreView;

    open spec fn view(&self) -> ThemeStoreView {
        ThemeStoreView {
            name: self.name@,
            options: texts(self.options@),
            enabled: texts(self.enabled@),
            screenshot: self.screenshot@,
            description: self.description@,
            kv: kv_entries(self.kv),
        }
    }
}

impl ThemeStore {
    /// The steps that store the theme below the home directory `home`: the
    /// buffer holds the store as text, and replaces the store file in the
    /// theme's directory.
    pub fn store(&self, home: &str) -> (plan: Vec<Step>)
        ensures
            steps_view(plan@) == save_steps(theme_dir(home@, self.name@), "theme.json"@),
    {
        save(theme_dir_path(home, self.name.as_str()).as_str(), "theme.json")
    }
}

impl ThemeStoreView {
    /// Whether no option is declared twice.
    pub open spec fn wf(self) -> bool {
        self.options.no_duplicates()
    }
}

/// A theme as it is applied: what is stored of it, with its options
/// resolved, and the monitors it is applied to.
#[derive(Debug)]
pub struct Theme {
    /// The theme's name, which is also the name of its directory.
    pub name: String,
    /// The options, in the order in which the theme declares them.
    pub options: Vec<ROption>,
    /// How many monitors get a bar.
    pub monitor: i32,
    /// Flags, kept as they are.
    pub enabled: Vec<String>,
    /// The bar of each monitor.
    pub order: Vec<String>,
    /// Free-form key/value overrides.
    pub kv: serde_json::Map<String, serde_json::Value>,
    /// Address of a screenshot, or the empty string.
    pub screenshot: String,
    /// A free text.
    pub description: String,
}

/// A loaded theme with its texts as character sequences.
pub struct ThemeView {
    pub name: Seq<char>,
    pub options: Seq<ROption>,
    pub monitor: i32,
    pub enabled: Seq<Seq<char>>,
    pub order: Seq<Seq<char>>,
    pub kv: KvView,
    pub screenshot: Seq<char>,
    pub description: Seq<char>,
}

impl View for Theme {
    type V = ThemeView;

    open spec fn view(&self) -> ThemeView {
        ThemeView {
            name: self.name@,
            options: self.options@,
            monitor: self.monitor,
            enabled: texts(self.enabled@),
            order: texts(self.order@),
            kv: kv_entries(self.kv),
            screenshot: self.screenshot@,
            description: self.description@,
        }
    }
}

/// The options that a list of names declares: each name that is the name of
/// an option stands for that option, and every other name is passed over.
pub open spec fn parsed_options(names: Seq<Seq<char>>) -> Seq<ROption>
    decreases names.len(),
{
    if names.len() == 0 {
        Seq::empty()
    } else {
        match option_named(names.last()) {
            Some(option) => parsed_options(names.drop_last()).push(option),
            None => parsed_options(names.drop_last()),
        }
    }
}

/// The names of a list of options.
pub open spec fn option_names(options: Seq<ROption>) -> Seq<Seq<char>> {
    Seq::new(options.len(), |i: int| options[i].name())
}

/// The store of a theme that was just created: no options, no flags, no
/// screenshot, the standard description and no overrides.
pub open spec fn empty_store(name: Seq<char>) -> ThemeStoreView {
    ThemeStoreView {
        name,
        options: Seq::empty(),
        enabled: Seq::empty(),
        screenshot: Seq::empty(),
        description: "A raven theme."@,
        kv: KvView::empty(),
    }
}

/// The steps that create the theme `name`: its directory is created, and
/// its store is stored from the buffer, which holds it as text.
pub open spec fn new_theme_steps(home: Seq<char>, name: Seq<char>) -> Seq<StepView> {
    seq![StepView::CreateDir { path: theme_dir(home, name) }] + save_steps(
        theme_dir(home, name),
        "theme.json"@,
    )
}

/// What is stored of the new theme `theme_name`, and the steps that create
/// the theme. The new theme is then the one that is being edited.
pub fn new_theme(home: &str, theme_name: &str) -> (created: (ThemeStore, Vec<Step>))
    ensures
        created.0@ == empty_store(theme_name@),
        created.0@.wf(),
        steps_view(created.1@) == new_theme_steps(home@, theme_name@),
{
    let store = ThemeStore {
        name: theme_name.to_owned(),
        options: Vec::new(),
        enabled: Vec::new(),
        screenshot: default_screen(),
        description: default_desc(),
        kv: kv_new(),
    };
    assert(store@.options =~= Seq::<Seq<char>>::empty());
    assert(store@.enabled =~= Seq::<Seq<char>>::empty());
    let mut plan = no_steps();
    append_step(&mut plan, Step::CreateDir { path: theme_dir_path(home, theme_name) });
    append_steps(&mut plan, store.store(home));
    (store, plan)
}

/// The step that removes the theme `theme_name`: its directory goes, with
/// all that is in it.
pub fn del_theme(home: &str, theme_name: &str) -> (plan: Vec<Step>)
    ensures
        steps_view(plan@) == seq![StepView::RemoveTree { path: theme_dir(home@, theme_name@) }],
{
    let mut plan = no_steps();
    append_step(&mut plan, Step::RemoveTree { path: theme_dir_path(home, theme_name) });
    assert(steps_view(plan@) =~= seq![
        StepView::RemoveTree { path: theme_dir(home@, theme_name@) },
    ]);
    plan
}

/// The theme that `store` and the settings make, under the name `name`.
pub open spec fn loaded_theme(
    name: Seq<char>,
    monitors: i32,
    order: Seq<Seq<char>>,
    store: ThemeStoreView,
) -> ThemeView {
    ThemeView {
        name,
        options: parsed_options(store.options),
        monitor: monitors,
        enabled: store.enabled,
        order,
        kv: store.kv,
        screenshot: store.screenshot,
        description: store.description,
    }
}

/// Loads the theme `theme_name`. `dir_exists` says whether the theme has a
/// directory, and `store` is what its store file holds, `None` if it has no
/// such file. Without either there is no such theme. Names in the store that
/// are no option's name are passed over.
pub fn load_theme(theme_name: &str, conf: &Config, dir_exists: bool, store: Option<ThemeStore>) -> (loaded:
    Result<Theme, Error>)
    ensures
        match loaded {
            Ok(theme) => dir_exists && store is Some && theme@ == loaded_theme(
                theme_name@,
                conf.monitors,
                texts(conf.polybar@),
                store->0@,
            ),
            Err(e) => !(dir_exists && store is Some) && e@ == ErrorView::InvalidTheme(
                theme_name@,
            ),
        },
{
    if !dir_exists {
        return Err(Error::InvalidTheme(theme_name.to_owned()));
    }
    match store {
        None => Err(Error::InvalidTheme(theme_name.to_owned())),
        Some(info) => {
            let ghost names = texts(info.options@);
            let n = info.options.len();
            let mut options: Vec<ROption> = Vec::new();
            let mut i: usize = 0;
            assert(names.take(0) =~= Seq::<Seq<char>>::empty());
            while i < n
                invariant
                    i <= n == info.options.len(),
                    names == texts(info.options@),
                    options@ == parsed_options(names.take(i as int)),
                decreases n - i,
            {
                proof {
                    let upto = names.take(i + 1);
                    assert(upto.drop_last() =~= names.take(i as int));
                    assert(upto.last() == info.options@[i as int]@);
                }
                match ROption::from_name(info.options[i].as_str()) {
                    Some(option) => {
                        options.push(option);
                    },
                    None => {},
                }
                i += 1;
            }
            assert(names.take(n as int) =~= names);
            let order = copy_texts(&conf.polybar);
            Ok(
                Theme {
                    name: theme_name.to_owned(),
                    options,
                    monitor: conf.monitors,
                    enabled: info.enabled,
                    order,
                    kv: info.kv,
                    screenshot: info.screenshot,
                    description: info.description,
                },
            )
        },
    }
}

/// A copy of a list of strings.
pub fn copy_texts(v: &Vec<String>) -> (copy: Vec<String>)
    ensures
        texts(copy@) == texts(v@),
{
    let n = v.len();
    let mut copy: Vec<String> = Vec::new();
    let mut i: usize = 0;
    while i < n
        invariant
            i <= n == v.len(),
            copy@.len() == i,
            forall|k: int| 0 <= k < i ==> copy@[k]@ == v@[k]@,
        decreases n - i,
    {
        copy.push(v[i].clone());
        i += 1;
    }
    assert(texts(copy@) =~= texts(v@));
    copy
}

/// The names of the options of a theme.
pub fn names_of(options: &Vec<ROption>) -> (names: Vec<String>)
    ensures
        texts(names@) == option_names(options@),
{
    let n = options.len();
    let mut names: Vec<String> = Vec::new();
    let mut i: usize = 0;
    while i < n
        invariant
            i <= n == options.len(),
            names@.len() == i,
            forall|k: int| 0 <= k < i ==> names@[k]@ == options@[k].name(),
        decreases n - i,
    {
        names.push(options[i].file_name().to_owned());
        i += 1;
    }
    assert(texts(names@) =~= option_names(options@));
    names
}

/// Where `name` stands first in `names`, if it stands there.
pub fn position(names: &Vec<String>, name: &str) -> (at: Option<usize>)
    ensures
        match at {
            Some(i) => i < names.len() && texts(names@)[i as int] == name@ && forall|k: int|
                0 <= k < i ==> texts(names@)[k] != name@,
            None => !texts(names@).contains(name@),
        },
{
    let n = names.len();
    let mut i: usize = 0;
    while i < n
        invariant
            i <= n == names.len(),
            forall|k: int| 0 <= k < i ==> texts(names@)[k] != name@,
        decreases n - i,
    {
        if same_text(names[i].as_str(), name) {
            return Some(i);
        }
        i += 1;
    }
    None
}

/// The store that is written back when the options of a theme change: the
/// given options, and everything else as it is stored.
pub open spec fn rebuilt_store(options: Seq<Seq<char>>, store: ThemeStoreView) -> ThemeStoreView {
    ThemeStoreView { options, ..store }
}

/// The steps that go with adding an option to a theme: the store is
/// replaced if `written` is set, and the file `source` is copied into the
/// theme's directory under the option's name.
pub open spec fn added_steps(
    home: Seq<char>,
    name: Seq<char>,
    option: Seq<char>,
    source: Seq<char>,
    written: bool,
) -> Seq<StepView> {
    (if written {
        save_steps(theme_dir(home, name), "theme.json"@)
    } else {
        Seq::empty()
    }) + seq![StepView::Copy { from: source, to: theme_file(home, name, option) }]
}

/// Adds the option `option` to the theme `theme_name`, of which `cur_theme`
/// is what was loaded and `cur_st` what is stored. `source` is the file
/// that the option brings.
///
/// Where the theme does not have the option yet, the store to write comes
/// back: the names of the theme's options with `option` after them, and
/// everything else as it is stored. Where it has the option, the store
/// stays as it is and `None` comes back. Either way the steps end with the
/// copy of `source` into the theme's directory.
pub fn add_to_theme(
    home: &str,
    theme_name: &str,
    option: &str,
    source: &str,
    cur_theme: Theme,
    cur_st: ThemeStore,
) -> (added: (Option<ThemeStore>, Vec<Step>))
    ensures
        match added.0 {
            Some(store) => !option_names(cur_theme@.options).contains(option@) && store@
                == rebuilt_store(option_names(cur_theme@.options).push(option@), cur_st@),
            None => option_names(cur_theme@.options).contains(option@),
        },
        option_names(cur_theme@.options).no_duplicates() && added.0 is Some ==> added.0->0@.wf(),
        steps_view(added.1@) == added_steps(home@, theme_name@, option@, source@, added.0 is Some),
{
    let mut names = names_of(&cur_theme.options);
    let mut plan = no_steps();
    let written = match position(&names, option) {
        Some(_) => None,
        None => {
            let ghost before = texts(names@);
            names.push(option.to_owned());
            assert(texts(names@) =~= before.push(option@));
            append_steps(&mut plan, save(theme_dir_path(home, theme_name).as_str(), "theme.json"));
            Some(
                ThemeStore {
                    name: cur_st.name,
                    options: names,
                    enabled: cur_st.enabled,
                    screenshot: cur_st.screenshot,
                    description: cur_st.description,
                    kv: cur_st.kv,
                },
            )
        },
    };
    append_step(
        &mut plan,
        Step::Copy { from: source.to_owned(), to: theme_file_path(home, theme_name, option) },
    );
    assert(steps_view(plan@) =~= added_steps(
        home@,
        theme_name@,
        option@,
        source@,
        written is Some,
    ));
    (written, plan)
}

/// Removes the option `option` from the theme `theme_name`, of which
/// `cur_theme` is what was loaded and `cur_st` what is stored.
///
/// Where the theme has the option, the store to write comes back: the names
/// of the theme's options without the first `option` among them, and
/// everything else as it is stored. Where it does not, there is nothing to
/// remove, and the theme's name comes back as the error.
pub fn rm_from_theme(theme_name: &str, option: &str, cur_theme: Theme, cur_st: ThemeStore) -> (written:
    Result<ThemeStore, Error>)
    ensures
        match written {
            Ok(store) => option_names(cur_theme@.options).contains(option@) && store@
                == rebuilt_store(option_names(cur_theme@.options).remove_value(option@), cur_st@),
            Err(e) => !option_names(cur_theme@.options).contains(option@) && e@
                == ErrorView::InvalidTheme(theme_name@),
        },
        option_names(cur_theme@.options).no_duplicates() && written is Ok ==> written->Ok_0@.wf()
            && !written->Ok_0@.options.contains(option@),
{
    let names = names_of(&cur_theme.options);
    let ghost all = texts(names@);
    match position(&names, option) {
        None => Err(Error::InvalidTheme(theme_name.to_owned())),
        Some(at) => {
            let n = names.len();
            let mut kept: Vec<String> = Vec::new();
            let mut i: usize = 0;
            while i < n
                invariant
                    i <= n == names.len(),
                    at < n,
                    all == texts(names@),
                    kept@.len() == if i <= at {
                        i as int
                    } else {
                        i - 1
                    },
                    forall|k: int| 0 <= k < i && k < at ==> kept@[k]@ == all[k],
                    forall|k: int| at < k < i ==> kept@[k - 1]@ == all[k],
                decreases n - i,
            {
                if i != at {
                    kept.push(names[i].clone());
                }
                i += 1;
            }
            proof {
                all.index_of_first_ensures(option@);
                assert(all.index_of_first(option@) == Some(at as int));
                assert(texts(kept@) =~= all.remove(at as int));
                assert(all[at as int] == option@);
            }
            Ok(
                ThemeStore {
                    name: cur_st.name,
                    options: kept,
                    enabled: cur_st.enabled,
                    screenshot: cur_st.screenshot,
                    description: cur_st.description,
                    kv: cur_st.kv,
                },
            )
        },
    }
}


/// What `load_all` asks for: one loader, with what it works on.
#[derive(Debug, Clone, PartialEq, Eq)]
pub enum Loader {
    /// Start a bar on each of `monitors` monitors.
    Poly { monitors: i32 },
    /// Write the window manager's settings, from the file under the older
    /// name if `legacy` is set.
    I3 { legacy: bool },
    /// Load the X resources, merging them if `merge` is set.
    Xres { merge: bool },
    /// Draw the colour scheme from the theme's picture.
    Pywal,
    /// Set the wallpaper.
    Wall,
    /// Give the music player its settings.
    Ncm,
    /// Give the terminal its settings.
    Termite,
    /// Run the theme's script.
    Script,
    /// Give the tiling window manager its start script.
    Bspwm,
    /// Give the launcher its theme.
    Rofi,
    /// Give the file manager its settings.
    Ranger,
    /// Start the theme's bar script.
    Lemon,
    /// Give the stacking window manager its settings.
    Openbox,
    /// Give the notification daemon its settings.
    Dunst,
    /// Move the contents of the file `key` of the theme into the overrides,
    /// then load that override.
    Convert { key: String },
    /// Set the text editor's setting of kind `stype` to `value`.
    Sublt { stype: String, value: String },
    /// Set the code editor's colour theme to `value`.
    VsCode { value: String },
    /// The override `key` is none that a loader knows: pass it over.
    Skip { key: String },
}

/// A loader with its texts as character sequences.
pub enum LoaderView {
    Poly { monitors: i32 },
    I3 { legacy: bool },
    Xres { merge: bool },
    Pywal,
    Wall,
    Ncm,
    Termite,
    Script,
    Bspwm,
    Rofi,
    Ranger,
    Lemon,
    Openbox,
    Dunst,
    Convert { key: Seq<char> },
    Sublt { stype: Seq<char>, value: Seq<char> },
    VsCode { value: Seq<char> },
    Skip { key: Seq<char> },
}

impl View for Loader {
    type V = LoaderView;

    open spec fn view(&self) -> LoaderView {
        match self {
            Loader::Poly { monitors } => LoaderView::Poly { monitors: *monitors },
            Loader::I3 { legacy } => LoaderView::I3 { legacy: *legacy },
            Loader::Xres { merge } => LoaderView::Xres { merge: *merge },
            Loader::Pywal => LoaderView::Pywal,
            Loader::Wall => LoaderView::Wall,
            Loader::Ncm => LoaderView::Ncm,
            Loader::Termite => LoaderView::Termite,
            Loader::Script => LoaderView::Script,
            Loader::Bspwm => LoaderView::Bspwm,
            Loader::Rofi => LoaderView::Rofi,
            Loader::Ranger => LoaderView::Ranger,
            Loader::Lemon => LoaderView::Lemon,
            Loader::Openbox => LoaderView::Openbox,
            Loader::Dunst => LoaderView::Dunst,
            Loader::Convert { key } => LoaderView::Convert { key: key@ },
            Loader::Sublt { stype, value } => LoaderView::Sublt { stype: stype@, value: value@ },
            Loader::VsCode { value } => LoaderView::VsCode { value: value@ },
            Loader::Skip { key } => LoaderView::Skip { key: key@ },
        }
    }
}

/// The loaders of a plan, each by its view.
pub open spec fn loaders_view(plan: Seq<Loader>) -> Seq<LoaderView> {
    Seq::new(plan.len(), |i: int| plan[i]@)
}

/// The loader of an option, for a theme that is applied to `monitors`
/// monitors. The four options that older themes keep in a file of their own
/// are moved into the overrides.
pub open spec fn loader_of(option: ROption, monitors: i32) -> LoaderView {
    match option {
        ROption::Polybar => LoaderView::Poly { monitors },
        ROption::OldI3 => LoaderView::I3 { legacy: true },
        ROption::I3 => LoaderView::I3 { legacy: false },
        ROption::Xres => LoaderView::Xres { merge: false },
        ROption::MergeXRes => LoaderView::Xres { merge: true },
        ROption::Pywal => LoaderView::Pywal,
        ROption::Wall => LoaderView::Wall,
        ROption::Ncmpcpp => LoaderView::Ncm,
        ROption::Termite => LoaderView::Termite,
        ROption::Script => LoaderView::Script,
        ROption::Bspwm => LoaderView::Bspwm,
        ROption::Rofi => LoaderView::Rofi,
        ROption::Ranger => LoaderView::Ranger,
        ROption::Lemonbar => LoaderView::Lemon,
        ROption::Openbox => LoaderView::Openbox,
        ROption::Dunst => LoaderView::Dunst,
        ROption::VsCode => LoaderView::Convert { key: "vscode"@ },
        ROption::OldSublTheme => LoaderView::Convert { key: "st_subltheme"@ },
        ROption::OldScs => LoaderView::Convert { key: "st_scs"@ },
        ROption::OldTmTheme => LoaderView::Convert { key: "st_tmtheme"@ },
    }
}

/// The loader of an option.
pub fn loader_for(option: ROption, monitors: i32) -> (loader: Loader)
    ensures
        loader@ == loader_of(option, monitors),
{
    match option {
        ROption::Polybar => Loader::Poly { monitors },
        ROption::OldI3 => Loader::I3 { legacy: true },
        ROption::I3 => Loader::I3 { legacy: false },
        ROption::Xres => Loader::Xres { merge: false },
        ROption::MergeXRes => Loader::Xres { merge: true },
        ROption::Pywal => Loader::Pywal,
        ROption::Wall => Loader::Wall,
        ROption::Ncmpcpp => Loader::Ncm,
        ROption::Termite => Loader::Termite,
        ROption::Script => Loader::Script,
        ROption::Bspwm => Loader::Bspwm,
        ROption::Rofi => Loader::Rofi,
        ROption::Ranger => Loader::Ranger,
        ROption::Lemonbar => Loader::Lemon,
        ROption::Openbox => Loader::Openbox,
        ROption::Dunst => Loader::Dunst,
        ROption::VsCode => Loader::Convert { key: "vscode".to_owned() },
        ROption::OldSublTheme => Loader::Convert { key: "st_subltheme".to_owned() },
        ROption::OldScs => Loader::Convert { key: "st_scs".to_owned() },
        ROption::OldTmTheme => Loader::Convert { key: "st_tmtheme".to_owned() },
    }
}

/// The loader of an override: the three keys of the text editor and the key
/// of the code editor have one, and any other key is passed over.
pub open spec fn key_loader(key: Seq<char>, value: Seq<char>) -> LoaderView {
    if key == "st_tmtheme"@ || key == "st_scs"@ || key == "st_subltheme"@ {
        LoaderView::Sublt { stype: key, value }
    } else if key == "vscode"@ {
        LoaderView::VsCode { value }
    } else {
        LoaderView::Skip { key }
    }
}

/// Whether `pairs` lists the entries of `kv`: each pair is an entry with a
/// text as its value, no key comes twice, and no key of `kv` is left out.
pub open spec fn lists_entries(pairs: Seq<(Seq<char>, Seq<char>)>, kv: KvView) -> bool {
    &&& forall|i: int, j: int|
        0 <= i < j < pairs.len() ==> (#[trigger] pairs[i]).0 != (#[trigger] pairs[j]).0
    &&& forall|i: int|
        0 <= i < pairs.len() ==> kv.contains_pair((#[trigger] pairs[i]).0, Some(pairs[i].1))
    &&& forall|key: Seq<char>| #[trigger]
        kv.dom().contains(key) ==> exists|i: int|
            0 <= i < pairs.len() && (#[trigger] pairs[i]).0 == key
}

/// The loaders of a list of overrides, in the order of the list.
pub open spec fn key_loaders(pairs: Seq<(Seq<char>, Seq<char>)>) -> Seq<LoaderView> {
    Seq::new(pairs.len(), |i: int| key_loader(pairs[i].0, pairs[i].1))
}

/// Whether `plan` holds the loader of each entry of `kv` once, in some
/// order, and nothing else.
pub open spec fn dispatches(plan: Seq<LoaderView>, kv: KvView) -> bool {
    exists|pairs: Seq<(Seq<char>, Seq<char>)>|
        lists_entries(pairs, kv) && plan == #[trigger] key_loaders(pairs)
}

/// Whether each override is a text.
pub open spec fn all_text(kv: KvView) -> bool {
    forall|key: Seq<char>| #[trigger] kv.dom().contains(key) ==> kv[key] is Some
}

impl Theme {
    /// Whether each override of the theme is a text.
    pub fn has_text_overrides(&self) -> (b: bool)
        ensures
            b == all_text(self@.kv),
    {
        let pairs = kv_pairs(&self.kv);
        let n = pairs.len();
        let mut i: usize = 0;
        while i < n
            invariant
                i <= n == pairs.len(),
                forall|k: int|
                    0 <= k < pairs@.len() ==> kv_entries(self.kv).contains_pair(
                        (#[trigger] pairs@[k]).0@,
                        entry_view(pairs@[k].1),
                    ),
                forall|k: int| 0 <= k < i ==> (#[trigger] pairs@[k]).1 is Some,
            decreases n - i,
        {
            if pairs[i].1.is_none() {
                proof {
                    let key = pairs@[i as int].0@;
                    assert(kv_entries(self.kv).contains_pair(key, entry_view(pairs@[i as int].1)));
                }
                return false;
            }
            i += 1;
        }
        proof {
            assert forall|key: Seq<char>| #[trigger]
                kv_entries(self.kv).dom().contains(key) implies kv_entries(
                self.kv,
            )[key] is Some by {
                let k = choose|k: int| 0 <= k < pairs@.len() && (#[trigger] pairs@[k]).0@ == key;
                assert(kv_entries(self.kv).contains_pair(key, entry_view(pairs@[k].1)));
            }
        }
        true
    }

    /// The loader of the override `k` with the value `v`.
    pub fn load_k(&self, k: &str, v: &str) -> (loader: Loader)
        ensures
            loader@ == key_loader(k@, v@),
    {
        if same_text(k, "st_tmtheme") || same_text(k, "st_scs") || same_text(k, "st_subltheme") {
            Loader::Sublt { stype: k.to_owned(), value: v.to_owned() }
        } else if same_text(k, "vscode") {
            Loader::VsCode { value: v.to_owned() }
        } else {
            Loader::Skip { key: k.to_owned() }
        }
    }

    /// The loaders of the overrides of the theme: one for each, in no
    /// stated order.
    pub fn load_kv(&self) -> (plan: Vec<Loader>)
        requires
            all_text(self@.kv),
        ensures
            dispatches(loaders_view(plan@), self@.kv),
    {
        let pairs = kv_pairs(&self.kv);
        let n = pairs.len();
        let ghost kv = kv_entries(self.kv);
        let ghost listed = Seq::new(
            pairs@.len(),
            |i: int| (pairs@[i].0@, pairs@[i].1->0@),
        );
        let mut plan: Vec<Loader> = Vec::new();
        let mut i: usize = 0;
        while i < n
            invariant
                i <= n == pairs.len(),
                kv == kv_entries(self.kv),
                all_text(kv),
                forall|k: int|
                    0 <= k < pairs@.len() ==> kv.contains_pair(
                        (#[trigger] pairs@[k]).0@,
                        entry_view(pairs@[k].1),
                    ),
                plan@.len() == i,
                forall|k: int|
                    0 <= k < i ==> (#[trigger] plan@[k])@ == key_loader(
                        pairs@[k].0@,
                        pairs@[k].1->0@,
                    ),
            decreases n - i,
        {
            assert(kv.contains_pair(pairs@[i as int].0@, entry_view(pairs@[i as int].1)));
            match &pairs[i].1 {
                Some(value) => {
                    let loader = self.load_k(pairs[i].0.as_str(), value.as_str());
                    plan.push(loader);
                },
                None => {
                    assert(false);
                },
            }
            i += 1;
        }
        proof {
            assert forall|k: int| 0 <= k < listed.len() implies kv.contains_pair(
                (#[trigger] listed[k]).0,
                Some(listed[k].1),
            ) by {
                assert(kv.contains_pair(pairs@[k].0@, entry_view(pairs@[k].1)));
            }
            assert forall|key: Seq<char>| #[trigger] kv.dom().contains(key) implies exists|k: int|
                0 <= k < listed.len() && (#[trigger] listed[k]).0 == key by {
                let k = choose|k: int| 0 <= k < pairs@.len() && (#[trigger] pairs@[k]).0@ == key;
                assert(listed[k].0 == key);
            }
            assert forall|a: int, b: int| 0 <= a < b < listed.len() implies (#[trigger] listed[a]).0
                != (#[trigger] listed[b]).0 by {
                assert(pairs@[a].0@ != pairs@[b].0@);
            }
            assert(lists_entries(listed, kv));
            assert(loaders_view(plan@) =~= key_loaders(listed));
        }
        plan
    }

    /// What applying the theme asks for, in order: the loader of each
    /// option, the option declared last first and the one declared first
    /// last, and after them the loaders of the overrides. The plan is made
    /// before any loader runs, so each loader is to be run whether or not
    /// one before it failed.
    pub fn load_all(&self) -> (plan: Vec<Loader>)
        requires
            all_text(self@.kv),
        ensures
            plan@.len() >= self.options@.len(),
            forall|i: int|
                0 <= i < self.options@.len() ==> (#[trigger] plan@[i])@ == loader_of(
                    self.options@[self.options@.len() - 1 - i],
                    self.monitor,
                ),
            dispatches(loaders_view(plan@.skip(self.options@.len() as int)), self@.kv),
    {
        let n = self.options.len();
        let mut plan: Vec<Loader> = Vec::new();
        let mut i: usize = 0;
        while i < n
            invariant
                i <= n == self.options.len(),
                plan@.len() == i,
                forall|k: int|
                    0 <= k < i ==> (#[trigger] plan@[k])@ == loader_of(
                        self.options@[n - 1 - k],
                        self.monitor,
                    ),
            decreases n - i,
        {
            plan.push(loader_for(self.options[n - 1 - i], self.monitor));
            i += 1;
        }
        let ghost head = plan@;
        let mut tail = self.load_kv();
        let ghost rest = tail@;
        plan.append(&mut tail);
        proof {
            assert(plan@ =~= head + rest);
            assert(plan@.skip(n as int) =~= rest);
        }
        plan
    }
}

/// The steps that stop what an earlier theme left running: the bars and the
/// notification daemon, each by its name.
pub open spec fn clear_steps() -> Seq<StepView> {
    seq![
        StepView::Run { program: "pkill"@, args: seq!["polybar"@], wait: true },
        StepView::Run { program: "pkill"@, args: seq!["lemonbar"@], wait: true },
        StepView::Run { program: "pkill"@, args: seq!["dunst"@], wait: true },
    ]
}

/// The steps that stop what an earlier theme left running.
pub fn clear_prev() -> (plan: Vec<Step>)
    ensures
        steps_view(plan@) == clear_steps(),
{
    let mut plan = no_steps();
    append_step(&mut plan, run("pkill", args1("polybar".to_owned()), true));
    append_step(&mut plan, run("pkill", args1("lemonbar".to_owned()), true));
    append_step(&mut plan, run("pkill", args1("dunst".to_owned()), true));
    assert(steps_view(plan@) =~= clear_steps());
    plan
}

/// Applies a theme: first the steps that clear what an earlier theme left,
/// then the loaders of the theme, and when they are done the settings to
/// store, which name the theme as the one applied last and are otherwise
/// unchanged.
pub fn run_theme(new_theme: &Theme, conf: Config) -> (run: (Vec<Step>, Vec<Loader>, Config))
    requires
        all_text(new_theme@.kv),
    ensures
        steps_view(run.0@) == clear_steps(),
        run.1@.len() >= new_theme.options@.len(),
        forall|i: int|
            0 <= i < new_theme.options@.len() ==> (#[trigger] run.1@[i])@ == loader_of(
                new_theme.options@[new_theme.options@.len() - 1 - i],
                new_theme.monitor,
            ),
        dispatches(loaders_view(run.1@.skip(new_theme.options@.len() as int)), new_theme@.kv),
        run.2.last@ == new_theme.name@,
        run.2 == (Config { last: run.2.last, ..conf }),
{
    let clear = clear_prev();
    let loaders = new_theme.load_all();
    let mut conf = conf;
    conf.last = new_theme.name.clone();
    (clear, loaders, conf)
}

/// The theme to apply again. `last` is the name that the settings hold as
/// the theme applied last: without the whitespace around it, it is the name
/// of the theme to load and run. Where the settings hold no name, there is
/// nothing to apply.
pub fn refresh_theme(last: &str) -> (name: Result<String, Error>)
    ensures
        match name {
            Ok(name) => last@.len() > 0 && name@ == trimmed(last@),
            Err(e) => last@.len() == 0 && e@ == ErrorView::InvalidTheme(last@),
        },
{
    if last.unicode_len() > 0 {
        Ok(trim(last))
    } else {
        Err(Error::InvalidTheme(last.to_owned()))
    }
}

/// Makes `theme_name` the theme that is being edited. `exists` says whether
/// the theme has a directory. Where it has one, the settings to store come
/// back, which name the theme as the one being edited and are otherwise
/// unchanged. Where it has none, there is no such theme.
pub fn edit(theme_name: &str, exists: bool, conf: Config) -> (edited: Result<Config, Error>)
    ensures
        match edited {
            Ok(new) => exists && new.editing@ == theme_name@ && new == (Config {
                editing: new.editing,
                ..conf
            }),
            Err(e) => !exists && e@ == ErrorView::InvalidTheme(theme_name@),
        },
{
    if exists {
        let mut conf = conf;
        conf.editing = theme_name.to_owned();
        Ok(conf)
    } else {
        Err(Error::InvalidTheme(theme_name.to_owned()))
    }
}

/// Sets the override `key` of a stored theme to the text `value`. Nothing
/// else of the store changes.
pub fn key_value(key: &str, value: &str, store: ThemeStore) -> (changed: ThemeStore)
    ensures
        changed@ == (ThemeStoreView { kv: store@.kv.insert(key@, Some(value@)), ..store@ }),
{
    let mut store = store;
    kv_insert(&mut store.kv, key.to_owned(), value.to_owned());
    store
}

/// What tells the names other than `key` from `key`.
pub open spec fn other_than(key: Seq<char>) -> spec_fn(Seq<char>) -> bool {
    |name: Seq<char>| name != key
}

/// The store of a theme after the file of its older option `key`, which
/// held `raw_value`, was moved into the overrides: the override `key` is
/// the file's text without the whitespace around it, and `key` is no
/// option any more. Nothing else of the store changes.
pub open spec fn converted_single(
    store: ThemeStoreView,
    key: Seq<char>,
    raw_value: Seq<char>,
) -> ThemeStoreView {
    ThemeStoreView {
        options: store.options.filter(other_than(key)),
        kv: store.kv.insert(key, Some(trimmed(raw_value))),
        ..store
    }
}

/// The steps that go with moving the older option `key` of the theme
/// `name` into the overrides: the store is replaced, and then the option's
/// file is removed.
pub open spec fn single_steps(home: Seq<char>, name: Seq<char>, key: Seq<char>) -> Seq<StepView> {
    save_steps(theme_dir(home, name), "theme.json"@) + seq![
        StepView::Remove { path: theme_file(home, name, key) },
    ]
}

impl Theme {
    /// Moves the older option `key` of the theme into its overrides.
    /// `raw_value` is what the option's file holds, and `store` what is
    /// stored of the theme. What comes back is the store to write, the
    /// steps that write it and remove the option's file, and the loader to
    /// run after them: that of the override `key` with the file's text as
    /// it is.
    pub fn convert_single(&self, home: &str, key: &str, raw_value: &str, store: ThemeStore) -> (converted: (
        ThemeStore,
        Vec<Step>,
        Loader,
    ))
        ensures
            converted.0@ == converted_single(store@, key@, raw_value@),
            steps_view(converted.1@) == single_steps(home@, store.name@, key@),
            converted.2@ == key_loader(key@, raw_value@),
    {
        let ghost names = texts(store.options@);
        let ghost keep = other_than(key@);
        let n = store.options.len();
        let mut kept: Vec<String> = Vec::new();
        let mut i: usize = 0;
        assert(names.take(0) =~= Seq::<Seq<char>>::empty());
        assert(texts(kept@) =~= Seq::<Seq<char>>::empty());
        assert(Seq::<Seq<char>>::empty().filter(keep) =~= Seq::<Seq<char>>::empty()) by {
            reveal(Seq::filter);
        }
        while i < n
            invariant
                i <= n == store.options.len(),
                names == texts(store.options@),
                keep == other_than(key@),
                texts(kept@) == names.take(i as int).filter(keep),
            decreases n - i,
        {
            let ghost before = texts(kept@);
            proof {
                assert(names.take(i + 1) =~= names.take(i as int).push(names[i as int]));
                names.take(i as int).lemma_filter_push(names[i as int], keep);
            }
            if !same_text(store.options[i].as_str(), key) {
                kept.push(store.options[i].clone());
                assert(texts(kept@) =~= before.push(names[i as int]));
            }
            i += 1;
        }
        assert(names.take(n as int) =~= names);
        let mut plan = save(theme_dir_path(home, store.name.as_str()).as_str(), "theme.json");
        append_step(&mut plan, Step::Remove { path: theme_file_path(home, store.name.as_str(), key) });
        let mut kv = store.kv;
        kv_insert(&mut kv, key.to_owned(), trim(raw_value));
        let loader = self.load_k(key, raw_value);
        (
            ThemeStore {
                name: store.name,
                options: kept,
                enabled: store.enabled,
                screenshot: store.screenshot,
                description: store.description,
                kv,
            },
            plan,
            loader,
        )
    }
}

/// The themes among the results of loading each theme that loaded, in
/// order.
pub open spec fn loaded_ones(results: Seq<Result<Theme, Error>>) -> Seq<Theme>
    decreases results.len(),
{
    if results.len() == 0 {
        Seq::empty()
    } else {
        match results.last() {
            Ok(theme) => loaded_ones(results.drop_last()).push(theme),
            Err(_) => loaded_ones(results.drop_last()),
        }
    }
}

/// The themes that loaded. `results` holds what loading each theme of the
/// themes directory gave: a theme that did not load is passed over.
pub fn load_themes(results: Vec<Result<Theme, Error>>) -> (themes: Vec<Theme>)
    ensures
        themes@ == loaded_ones(results@),
{
    let ghost all = results@;
    let mut results = results;
    let mut themes: Vec<Theme> = Vec::new();
    let ghost mut done: int = 0;
    assert(all.take(0) =~= Seq::<Result<Theme, Error>>::empty());
    assert(all.skip(0) =~= all);
    while results.len() > 0
        invariant
            0 <= done <= all.len(),
            results@ == all.skip(done),
            themes@ == loaded_ones(all.take(done)),
        decreases results@.len(),
    {
        let next = results.remove(0);
        proof {
            assert(all.take(done + 1).drop_last() =~= all.take(done));
            assert(all.take(done + 1).last() == next);
            assert(results@ =~= all.skip(done + 1));
            done = done + 1;
        }
        match next {
            Ok(theme) => {
                themes.push(theme);
            },
            Err(_) => {},
        }
    }
    assert(all.take(all.len() as int) =~= all);
    themes
}

/// The options of a list of option names are the options of the list.
pub proof fn lemma_parse_names(options: Seq<ROption>)
    ensures
        parsed_options(option_names(options)) == options,
    decreases options.len(),
{
    let names = option_names(options);
    if options.len() > 0 {
        lemma_parse_names(options.drop_last());
        assert(names.drop_last() =~= option_names(options.drop_last()));
        lemma_name_found(options.last());
        assert(options.drop_last().push(options.last()) =~= options);
    } else {
        assert(parsed_options(names) =~= options);
    }
}

/// What the store of a theme holds as options after `option` was added to
/// the theme, where it held `stored` before.
pub open spec fn options_after_add(stored: Seq<Seq<char>>, option: Seq<char>) -> Seq<Seq<char>> {
    let names = option_names(parsed_options(stored));
    if names.contains(option) {
        stored
    } else {
        names.push(option)
    }
}

/// Adding an option a second time changes nothing: the store holds after
/// the second addition what it held after the first, whatever was stored at
/// the start and whether or not `option` is the name of an option.
pub proof fn lemma_add_twice(stored: Seq<Seq<char>>, option: Seq<char>)
    ensures
        options_after_add(options_after_add(stored, option), option) == options_after_add(
            stored,
            option,
        ),
{
    let options = parsed_options(stored);
    let names = option_names(options);
    if !names.contains(option) {
        let once = names.push(option);
        assert(once.drop_last() =~= names);
        lemma_parse_names(options);
        match option_named(option) {
            Some(found) => {
                let again = option_names(options.push(found));
                assert(found.name() == option);
                assert(again =~= once);
                assert(again[names.len() as int] == option);
            },
            None => {
                assert(parsed_options(once) == options);
            },
        }
    }
}

/// Removing an option that stands in a list takes one entry away: the list
/// gets shorter by one, and it holds the option once less and every other
/// name as often as before.
pub proof fn lemma_remove_one(names: Seq<Seq<char>>, option: Seq<char>)
    requires
        names.contains(option),
    ensures
        names.remove_value(option).len() == names.len() - 1,
        names.remove_value(option).to_multiset() == names.to_multiset().remove(option),
{
    names.index_of_first_ensures(option);
    let at = names.index_of_first(option)->0;
    vstd::seq_lib::to_multiset_remove(names, at);
}

} // verus!
