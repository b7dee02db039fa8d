//! The highlighting themes that the editor can be switched between.

use vstd::prelude::*;

verus! {

/// A colour theme for syntax highlighting.
#[derive(Debug, Clone, Copy, PartialEq, Eq, Structural)]
pub enum Theme {
    SolarizedDark,
    Base16Mocha,
    Base16Ocean,
    Base16Eighties,
    InspiredGitHub,
}

/// Whether the window around the text is drawn light or dark.
#[derive(Debug, Clone, Copy, PartialEq, Eq, Structural)]
pub enum Appearance {
    Light,
    Dark,
}

impl Theme {
    /// Every theme, in the order in which a picker offers them.
    pub open spec fn all_themes() -> Seq<Theme> {
        seq![
            Theme::SolarizedDark,
            Theme::Base16Mocha,
            Theme::Base16Ocean,
            Theme::Base16Eighties,
            Theme::InspiredGitHub,
        ]
    }

    /// True of the themes that put light text on a dark ground.
    pub open spec fn dark(self) -> bool {
        self != Theme::InspiredGitHub
    }

    /// The window appearance that goes with this theme.
    pub open spec fn appearance_of(self) -> Appearance {
        if self.dark() {
            Appearance::Dark
        } else {
            Appearance::Light
        }
    }

    /// The theme that a fresh editor starts with.
    pub fn initial() -> (theme: Theme)
        ensures
            theme == Theme::SolarizedDark,
    {
        Theme::SolarizedDark
    }

    /// Lists every theme once, first the initial one.
    pub fn all() -> (themes: Vec<Theme>)
        ensures
            themes@ == Theme::all_themes(),
    {
        let mut themes: Vec<Theme> = Vec::new();
        themes.push(Theme::SolarizedDark);
        themes.push(Theme::Base16Mocha);
        themes.push(Theme::Base16Ocean);
        themes.push(Theme::Base16Eighties);
        themes.push(Theme::InspiredGitHub);
        themes
    }

    pub fn is_dark(self) -> (dark: bool)
        ensures
            dark == self.dark(),
    {
        match self {
            Theme::SolarizedDark
            | Theme::Base16Mocha
            | Theme::Base16Ocean
            | Theme::Base16Eighties => true,
            Theme::InspiredGitHub => false,
        }
    }

    pub fn appearance(self) -> (appearance: Appearance)
        ensures
            appearance == self.appearance_of(),
    {
        if self.is_dark() {
            Appearance::Dark
        } else {
            Appearance::Light
        }
    }
}

/// Whatever theme the editor is in, it is one of the themes listed, and none
/// of them is listed twice.
pub proof fn lemma_all_themes_complete(theme: Theme)
    ensures
        Theme::all_themes().contains(theme),
        Theme::all_themes().no_duplicates(),
{
    let all = Theme::all_themes();
    match theme {
        Theme::SolarizedDark => assert(all[0] == theme),
        Theme::Base16Mocha => assert(all[1] == theme),
        Theme::Base16Ocean => assert(all[2] == theme),
        Theme::Base16Eighties => assert(all[3] == theme),
        Theme::InspiredGitHub => assert(all[4] == theme),
    }
}

} // verus!
