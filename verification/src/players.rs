//! The loader of the music player's settings.
use crate::paths::{cat, theme_file, theme_file_path};
use crate::steps::{no_steps, steps_view, append_step, Step, StepView};
use crate::text::texts;
use crate::themes::Theme;
use vstd::prelude::*;

verus! {

/// The step that gives the music player its settings: the theme's file is
/// copied into the player's settings directory below the settings of other
/// programs if that is there, else into the one directly below the home
/// directory if that is there, else nowhere.
pub open spec fn ncm_steps(
    home: Seq<char>,
    name: Seq<char>,
    config_dir_exists: bool,
    home_dir_exists: bool,
) -> Seq<StepView> {
    if config_dir_exists {
        seq![
            StepView::Copy {
                from: theme_file(home, name, "ncmpcpp"@),
                to: home + "/.config/ncmpcpp/config"@,
            },
        ]
    } else if home_dir_exists {
        seq![
            StepView::Copy {
                from: theme_file(home, name, "ncmpcpp"@),
                to: home + "/.ncmpcpp/config"@,
            },
        ]
    } else {
        Seq::empty()
    }
}

/// The two settings directories of the music player, the one below the
/// settings of other programs first.
pub open spec fn ncm_dirs(home: Seq<char>) -> Seq<Seq<char>> {
    seq![home + "/.config/ncmpcpp"@, home + "/.ncmpcpp"@]
}

/// The two settings directories of the music player.
pub fn ncm_probes(home: &str) -> (paths: Vec<String>)
    ensures
        texts(paths@) == ncm_dirs(home@),
{
    let mut paths: Vec<String> = Vec::new();
    paths.push(cat(home, "/.config/ncmpcpp"));
    paths.push(cat(home, "/.ncmpcpp"));
    assert(texts(paths@) =~= ncm_dirs(home@));
    paths
}

impl Theme {
    /// The step that gives the music player its settings. The two marks
    /// say which of the player's two settings directories are there. With
    /// neither nothing is done, and `false` comes back, which is no error.
    pub fn load_ncm(&self, home: &str, config_dir_exists: bool, home_dir_exists: bool) -> (loaded: (
        Vec<Step>,
        bool,
    ))
        ensures
            steps_view(loaded.0@) == ncm_steps(
                home@,
                self.name@,
                config_dir_exists,
                home_dir_exists,
            ),
            loaded.1 == (config_dir_exists || home_dir_exists),
    {
        let mut plan = no_steps();
        if config_dir_exists {
            append_step(
                &mut plan,
                Step::Copy {
                    from: theme_file_path(home, self.name.as_str(), "ncmpcpp"),
                    to: cat(home, "/.config/ncmpcpp/config"),
                },
            );
        } else if home_dir_exists {
            append_step(
                &mut plan,
                Step::Copy {
                    from: theme_file_path(home, self.name.as_str(), "ncmpcpp"),
                    to: cat(home, "/.ncmpcpp/config"),
                },
            );
        }
        assert(steps_view(plan@) =~= ncm_steps(
            home@,
            self.name@,
            config_dir_exists,
            home_dir_exists,
        ));
        (plan, config_dir_exists || home_dir_exists)
    }
}

} // verus!
