use vstd::prelude::*;
use crate::scan::{all_digits, digits_value, parse_i64_chars, parse_i64_spec};
use crate::text::{chars_of, owned, push_char};

verus! {

/// Client-side user preferences.
pub struct Settings {
    pub posts_per_page: u32,
    pub tag_suggestions_enabled: bool,
    pub dark_theme: bool,
    pub list_posts_safe: bool,
    pub list_posts_sketchy: bool,
    pub list_posts_unsafe: bool,
    pub upscale_small_posts: bool,
    pub endless_scroll: bool,
    pub tag_underscores: bool,
    pub keyboard_shortcuts: bool,
    pub fit_mode: String,
    pub post_flow: bool,
    pub transparency_grid: bool,
    pub autoplay_videos: bool,
}

/// The preferences of a new visitor.
pub open spec fn default_settings(s: Settings) -> bool {
    &&& s.posts_per_page == 42
    &&& s.tag_suggestions_enabled
    &&& !s.dark_theme
    &&& s.list_posts_safe
    &&& s.list_posts_sketchy
    &&& !s.list_posts_unsafe
    &&& !s.upscale_small_posts
    &&& !s.endless_scroll
    &&& !s.tag_underscores
    &&& s.keyboard_shortcuts
    &&& s.fit_mode@ == "fit-both"@
    &&& !s.post_flow
    &&& s.transparency_grid
    &&& !s.autoplay_videos
}

impl Default for Settings {
    fn default() -> (s: Self)
        ensures
            default_settings(s),
    {
        Settings {
            posts_per_page: 42,
            tag_suggestions_enabled: true,
            dark_theme: false,
            list_posts_safe: true,
            list_posts_sketchy: true,
            list_posts_unsafe: false,
            upscale_small_posts: false,
            endless_scroll: false,
            tag_underscores: false,
            keyboard_shortcuts: true,
            fit_mode: owned("fit-both"),
            post_flow: false,
            transparency_grid: true,
            autoplay_videos: false,
        }
    }
}

/// `s` with every underscore written as a space.
pub open spec fn underscores_as_spaces(s: Seq<char>) -> Seq<char> {
    s.map_values(|c: char| if c == '_' { ' ' } else { c })
}

/// How a name is shown: with its underscores as spaces when that setting is
/// on, else as it is.
pub open spec fn shown_name(tag_underscores: bool, name: Seq<char>) -> Seq<char> {
    if tag_underscores {
        underscores_as_spaces(name)
    } else {
        name
    }
}

impl Settings {
    /// Format a name for display, replacing underscores with spaces if the
    /// setting is enabled.
    pub fn display_name(&self, name: &str) -> (r: String)
        ensures
            r@ == shown_name(self.tag_underscores, name@),
    {
        if !self.tag_underscores {
            return owned(name);
        }
        let v = chars_of(name);
        let mut r = String::new();
        for i in 0..v.len()
            invariant
                v@ == name@,
                r@ == underscores_as_spaces(v@.take(i as int)),
        {
            let c = v[i];
            push_char(
                &mut r,
                if c == '_' {
                    ' '
                } else {
                    c
                },
            );
            assert(underscores_as_spaces(v@.take(i + 1)) =~= underscores_as_spaces(
                v@.take(i as int),
            ).push(if c == '_' {
                ' '
            } else {
                c
            }));
        }
        assert(v@.take(v.len() as int) =~= v@);
        r
    }
}

/// What `s.parse::<u32>()` gives: an optional `+` and at least one decimal
/// digit, the value fitting in `u32`.
pub open spec fn parse_u32_spec(s: Seq<char>) -> Option<u32> {
    let body = if s.len() > 0 && s[0] == '+' {
        s.drop_first()
    } else {
        s
    };
    if body.len() == 0 || !all_digits(body) || digits_value(body) > u32::MAX {
        None
    } else {
        Some(digits_value(body) as u32)
    }
}

/// The page size typed in the settings form: taken when it reads as a
/// number from 10 to 100, ignored otherwise.
pub open spec fn page_size_input(text: Seq<char>) -> Option<u32> {
    match parse_u32_spec(text) {
        Some(v) => if 10 <= v <= 100 {
            Some(v)
        } else {
            None
        },
        None => None,
    }
}

proof fn lemma_digits_value_nonneg(t: Seq<char>)
    requires
        all_digits(t),
    ensures
        digits_value(t) >= 0,
    decreases t.len(),
{
    if t.len() > 0 {
        assert(all_digits(t.drop_last()));
        lemma_digits_value_nonneg(t.drop_last());
    }
}

/// Reads the posts-per-page field of the settings form.
pub fn posts_per_page_input(text: &str) -> (r: Option<u32>)
    ensures
        r == page_size_input(text@),
{
    let v = chars_of(text);
    let parsed = parse_i64_chars(&v);
    proof {
        let s = text@;
        if s.len() > 0 && s[0] == '-' {
            if s.drop_first().len() > 0 && all_digits(s.drop_first()) {
                lemma_digits_value_nonneg(s.drop_first());
            }
            assert(!is_digit_char(s[0]));
            if s.len() > 0 {
                assert(!all_digits(s));
            }
        } else if s.len() > 0 && s[0] == '+' {
            if s.drop_first().len() > 0 && all_digits(s.drop_first()) {
                lemma_digits_value_nonneg(s.drop_first());
            }
        } else {
            if s.len() > 0 && all_digits(s) {
                lemma_digits_value_nonneg(s);
            }
        }
    }
    match parsed {
        Some(n) => if 10 <= n && n <= 100 {
            Some(n as u32)
        } else {
            None
        },
        None => None,
    }
}

spec fn is_digit_char(c: char) -> bool {
    '0' <= c <= '9'
}

/// The same preferences: every field equal, the fit mode by its text.
pub open spec fn same_settings(a: Settings, b: Settings) -> bool {
    &&& a.posts_per_page == b.posts_per_page
    &&& a.tag_suggestions_enabled == b.tag_suggestions_enabled
    &&& a.dark_theme == b.dark_theme
    &&& a.list_posts_safe == b.list_posts_safe
    &&& a.list_posts_sketchy == b.list_posts_sketchy
    &&& a.list_posts_unsafe == b.list_posts_unsafe
    &&& a.upscale_small_posts == b.upscale_small_posts
    &&& a.endless_scroll == b.endless_scroll
    &&& a.tag_underscores == b.tag_underscores
    &&& a.keyboard_shortcuts == b.keyboard_shortcuts
    &&& a.fit_mode@ == b.fit_mode@
    &&& a.post_flow == b.post_flow
    &&& a.transparency_grid == b.transparency_grid
    &&& a.autoplay_videos == b.autoplay_videos
}

impl Settings {
    /// A copy of these preferences.
    pub fn copy(&self) -> (r: Settings)
        ensures
            same_settings(r, *self),
    {
        Settings {
            posts_per_page: self.posts_per_page,
            tag_suggestions_enabled: self.tag_suggestions_enabled,
            dark_theme: self.dark_theme,
            list_posts_safe: self.list_posts_safe,
            list_posts_sketchy: self.list_posts_sketchy,
            list_posts_unsafe: self.list_posts_unsafe,
            upscale_small_posts: self.upscale_small_posts,
            endless_scroll: self.endless_scroll,
            tag_underscores: self.tag_underscores,
            keyboard_shortcuts: self.keyboard_shortcuts,
            fit_mode: owned(self.fit_mode.as_str()),
            post_flow: self.post_flow,
            transparency_grid: self.transparency_grid,
            autoplay_videos: self.autoplay_videos,
        }
    }
}

/// A check box of the settings form.
#[derive(Clone, Copy, Debug, PartialEq, Eq, Structural)]
pub enum SettingsToggle {
    KeyboardShortcuts,
    DarkTheme,
    UpscaleSmallPosts,
    EndlessScroll,
    PostFlow,
    TransparencyGrid,
    TagSuggestions,
    AutoplayVideos,
    TagUnderscores,
    ListPostsSafe,
    ListPostsSketchy,
    ListPostsUnsafe,
}

/// `s` with the preference of check box `t` switched.
#[verifier::opaque]
pub open spec fn toggled_settings(s: Settings, t: SettingsToggle) -> Settings {
    match t {
        SettingsToggle::KeyboardShortcuts => Settings { keyboard_shortcuts: !s.keyboard_shortcuts, ..s },
        SettingsToggle::DarkTheme => Settings { dark_theme: !s.dark_theme, ..s },
        SettingsToggle::UpscaleSmallPosts => Settings { upscale_small_posts: !s.upscale_small_posts, ..s },
        SettingsToggle::EndlessScroll => Settings { endless_scroll: !s.endless_scroll, ..s },
        SettingsToggle::PostFlow => Settings { post_flow: !s.post_flow, ..s },
        SettingsToggle::TransparencyGrid => Settings { transparency_grid: !s.transparency_grid, ..s },
        SettingsToggle::TagSuggestions => Settings {
            tag_suggestions_enabled: !s.tag_suggestions_enabled,
            ..s
        },
        SettingsToggle::AutoplayVideos => Settings { autoplay_videos: !s.autoplay_videos, ..s },
        SettingsToggle::TagUnderscores => Settings { tag_underscores: !s.tag_underscores, ..s },
        SettingsToggle::ListPostsSafe => Settings { list_posts_safe: !s.list_posts_safe, ..s },
        SettingsToggle::ListPostsSketchy => Settings { list_posts_sketchy: !s.list_posts_sketchy, ..s },
        SettingsToggle::ListPostsUnsafe => Settings { list_posts_unsafe: !s.list_posts_unsafe, ..s },
    }
}

fn toggle_keyboard_shortcuts(s: &mut Settings)
    ensures
        *final(s) == toggled_settings(*old(s), SettingsToggle::KeyboardShortcuts),
{
    proof {
        reveal(toggled_settings);
    }
    s.keyboard_shortcuts = !s.keyboard_shortcuts;
}

fn toggle_dark_theme(s: &mut Settings)
    ensures
        *final(s) == toggled_settings(*old(s), SettingsToggle::DarkTheme),
{
    proof {
        reveal(toggled_settings);
    }
    s.dark_theme = !s.dark_theme;
}

fn toggle_upscale_small_posts(s: &mut Settings)
    ensures
        *final(s) == toggled_settings(*old(s), SettingsToggle::UpscaleSmallPosts),
{
    proof {
        reveal(toggled_settings);
    }
    s.upscale_small_posts = !s.upscale_small_posts;
}

fn toggle_endless_scroll(s: &mut Settings)
    ensures
        *final(s) == toggled_settings(*old(s), SettingsToggle::EndlessScroll),
{
    proof {
        reveal(toggled_settings);
    }
    s.endless_scroll = !s.endless_scroll;
}

fn toggle_post_flow(s: &mut Settings)
    ensures
        *final(s) == toggled_settings(*old(s), SettingsToggle::PostFlow),
{
    proof {
        reveal(toggled_settings);
    }
    s.post_flow = !s.post_flow;
}

fn toggle_transparency_grid(s: &mut Settings)
    ensures
        *final(s) == toggled_settings(*old(s), SettingsToggle::TransparencyGrid),
{
    proof {
        reveal(toggled_settings);
    }
    s.transparency_grid = !s.transparency_grid;
}

fn toggle_tag_suggestions_enabled(s: &mut Settings)
    ensures
        *final(s) == toggled_settings(*old(s), SettingsToggle::TagSuggestions),
{
    proof {
        reveal(toggled_settings);
    }
    s.tag_suggestions_enabled = !s.tag_suggestions_enabled;
}

fn toggle_autoplay_videos(s: &mut Settings)
    ensures
        *final(s) == toggled_settings(*old(s), SettingsToggle::AutoplayVideos),
{
    proof {
        reveal(toggled_settings);
    }
    s.autoplay_videos = !s.autoplay_videos;
}

fn toggle_tag_underscores(s: &mut Settings)
    ensures
        *final(s) == toggled_settings(*old(s), SettingsToggle::TagUnderscores),
{
    proof {
        reveal(toggled_settings);
    }
    s.tag_underscores = !s.tag_underscores;
}

fn toggle_list_posts_safe(s: &mut Settings)
    ensures
        *final(s) == toggled_settings(*old(s), SettingsToggle::ListPostsSafe),
{
    proof {
        reveal(toggled_settings);
    }
    s.list_posts_safe = !s.list_posts_safe;
}

fn toggle_list_posts_sketchy(s: &mut Settings)
    ensures
        *final(s) == toggled_settings(*old(s), SettingsToggle::ListPostsSketchy),
{
    proof {
        reveal(toggled_settings);
    }
    s.list_posts_sketchy = !s.list_posts_sketchy;
}

fn toggle_list_posts_unsafe(s: &mut Settings)
    ensures
        *final(s) == toggled_settings(*old(s), SettingsToggle::ListPostsUnsafe),
{
    proof {
        reveal(toggled_settings);
    }
    s.list_posts_unsafe = !s.list_posts_unsafe;
}

fn toggle_in(s: &mut Settings, t: SettingsToggle)
    ensures
        *final(s) == toggled_settings(*old(s), t),
{
    match t {
        SettingsToggle::KeyboardShortcuts => toggle_keyboard_shortcuts(s),
        SettingsToggle::DarkTheme => toggle_dark_theme(s),
        SettingsToggle::UpscaleSmallPosts => toggle_upscale_small_posts(s),
        SettingsToggle::EndlessScroll => toggle_endless_scroll(s),
        SettingsToggle::PostFlow => toggle_post_flow(s),
        SettingsToggle::TransparencyGrid => toggle_transparency_grid(s),
        SettingsToggle::TagSuggestions => toggle_tag_suggestions_enabled(s),
        SettingsToggle::AutoplayVideos => toggle_autoplay_videos(s),
        SettingsToggle::TagUnderscores => toggle_tag_underscores(s),
        SettingsToggle::ListPostsSafe => toggle_list_posts_safe(s),
        SettingsToggle::ListPostsSketchy => toggle_list_posts_sketchy(s),
        SettingsToggle::ListPostsUnsafe => toggle_list_posts_unsafe(s),
    }
}

/// The settings form: a draft of the preferences, and whether the draft as
/// it stands has been applied.
pub struct SettingsDraft {
    pub draft: Settings,
    pub saved: bool,
}

impl SettingsDraft {
    /// A form opened on the current preferences, not yet applied.
    pub fn new(current: &Settings) -> (d: Self)
        ensures
            same_settings(d.draft, *current),
            !d.saved,
    {
        SettingsDraft { draft: current.copy(), saved: false }
    }

    /// A check box was clicked: its preference switches in the draft.
    pub fn toggle(&mut self, t: SettingsToggle)
        ensures
            final(self).draft == toggled_settings(old(self).draft, t),
            !final(self).saved,
    {
        toggle_in(&mut self.draft, t);
        self.saved = false;
    }

    /// Text was typed into the posts-per-page field: a number from 10 to
    /// 100 goes into the draft; anything else leaves the form as it was.
    pub fn posts_per_page_typed(&mut self, text: &str)
        ensures
            match page_size_input(text@) {
                Some(v) => final(self).draft == Settings { posts_per_page: v, ..old(self).draft }
                    && !final(self).saved,
                None => final(self).draft == old(self).draft && final(self).saved == old(
                    self,
                ).saved,
            },
    {
        if let Some(v) = posts_per_page_input(text) {
            self.draft.posts_per_page = v;
            self.saved = false;
        }
    }

    /// A fit mode was picked in the post fit mode select (`fit-both`,
    /// `fit-width`, ...): it goes into the draft.
    pub fn fit_mode_chosen(&mut self, mode: &str)
        ensures
            final(self).draft.fit_mode@ == mode@,
            same_settings(final(self).draft, Settings { fit_mode: final(self).draft.fit_mode, ..old(self).draft }),
            !final(self).saved,
    {
        self.draft.fit_mode = owned(mode);
        self.saved = false;
    }

    /// The form was submitted: the draft becomes the preferences in force
    /// (returned, for the caller to keep and store) and counts as applied.
    pub fn apply(&mut self) -> (s: Settings)
        ensures
            same_settings(s, old(self).draft),
            final(self).draft == old(self).draft,
            final(self).saved,
    {
        self.saved = true;
        self.draft.copy()
    }
}

} // verus!
