use vstd::prelude::*;

verus! {

/// The colour scheme the interface is drawn in.
#[derive(Clone, Copy, Debug, PartialEq, Eq, Structural)]
pub enum Theme {
    Light,
    Dark,
}

/// The value written to the root element's theme attribute for a theme.
pub open spec fn theme_attr_spec(t: Theme) -> Seq<char> {
    match t {
        Theme::Light => "light"@,
        Theme::Dark => "dark"@,
    }
}

impl Theme {
    /// The attribute value that stands for this theme.
    pub fn as_attr(&self) -> (r: &'static str)
        ensures
            r@ == theme_attr_spec(*self),
    {
        match self {
            Theme::Light => "light",
            Theme::Dark => "dark",
        }
    }
}

/// The attribute of the root element that carries the theme.
pub const THEME_ATTRIBUTE: &'static str = "data-bs-theme";

/// How much of the host's rendering surface could be reached.
#[derive(Clone, Copy, Debug, PartialEq, Eq, Structural)]
pub enum Surface {
    Present,
    NoWindow,
    NoDocument,
    NoRootElement,
}

/// What the theme synchronisation does after a write: set the root element's
/// attribute to the theme, or skip and report which handle was missing.
#[derive(Clone, Copy, Debug, PartialEq, Eq, Structural)]
pub enum ThemeEffect {
    SetAttribute(Theme),
    Skip(Surface),
}

/// The effect of one theme write on a surface.
pub open spec fn sync_effect(t: Theme, surface: Surface) -> ThemeEffect {
    match surface {
        Surface::Present => ThemeEffect::SetAttribute(t),
        _ => ThemeEffect::Skip(surface),
    }
}

/// The effects of a run of writes, one per write, in order.
pub open spec fn sync_effects(writes: Seq<Theme>, surface: Surface) -> Seq<ThemeEffect> {
    writes.map_values(|t: Theme| sync_effect(t, surface))
}

impl ThemeEffect {
    /// The diagnostic logged for this effect when it had to skip.
    pub fn diagnostic(&self) -> (r: Option<&'static str>)
        ensures
            r is None <==> *self is SetAttribute,
    {
        match self {
            ThemeEffect::SetAttribute(_) => None,
            ThemeEffect::Skip(Surface::NoWindow) => Some("(Theme Update Effect) Failed to get window."),
            ThemeEffect::Skip(Surface::NoDocument) => Some("(Theme Update Effect) Failed to get document."),
            ThemeEffect::Skip(_) => Some("(Theme Update Effect) Failed to get document_element."),
        }
    }
}

/// The state shared by the whole application.
#[derive(Clone, Copy, Debug, PartialEq, Eq, Structural)]
pub struct AppState {
    pub theme: Theme,
}

impl AppState {
    /// The state at start: the light theme.
    pub fn new() -> (r: AppState)
        ensures
            r.theme == Theme::Light,
    {
        AppState { theme: Theme::Light }
    }

    /// The effect run on mount, for the initial theme.
    pub fn mount(&self, surface: Surface) -> (e: ThemeEffect)
        ensures
            e == sync_effect(self.theme, surface),
    {
        Self::effect_for(self.theme, surface)
    }

    fn effect_for(t: Theme, surface: Surface) -> (e: ThemeEffect)
        ensures
            e == sync_effect(t, surface),
    {
        match surface {
            Surface::Present => ThemeEffect::SetAttribute(t),
            _ => ThemeEffect::Skip(surface),
        }
    }

    /// Writes the theme and returns the synchronisation effect that the write
    /// triggers; every write triggers one, also a write of the same value.
    pub fn set_theme(&mut self, t: Theme, surface: Surface) -> (e: ThemeEffect)
        ensures
            final(self).theme == t,
            e == sync_effect(t, surface),
    {
        self.theme = t;
        Self::effect_for(t, surface)
    }

    /// Applies a run of writes in order and returns their effects in order.
    pub fn apply_writes(&mut self, writes: &Vec<Theme>, surface: Surface) -> (r: Vec<ThemeEffect>)
        ensures
            r@ == sync_effects(writes@, surface),
            writes@.len() > 0 ==> final(self).theme == writes@.last(),
            writes@.len() == 0 ==> final(self).theme == old(self).theme,
    {
        let mut effects: Vec<ThemeEffect> = Vec::new();
        let mut i: usize = 0;
        while i < writes.len()
            invariant
                i <= writes@.len(),
                effects@ == sync_effects(writes@.subrange(0, i as int), surface),
                i > 0 ==> self.theme == writes@[i - 1],
                i == 0 ==> self.theme == old(self).theme,
            decreases writes@.len() - i,
        {
            let e = self.set_theme(writes[i], surface);
            effects.push(e);
            proof {
                assert(writes@.subrange(0, i + 1) == writes@.subrange(0, i as int).push(writes@[i as int]));
                assert(sync_effects(writes@.subrange(0, i + 1), surface) =~= sync_effects(
                    writes@.subrange(0, i as int), surface).push(e));
            }
            i = i + 1;
        }
        assert(writes@.subrange(0, writes@.len() as int) == writes@);
        effects
    }
}

/// With the surface present, writing dark then light makes exactly two
/// attribute writes, "dark" then "light".
pub proof fn law_dark_then_light(surface: Surface)
    requires
        surface == Surface::Present,
    ensures
        sync_effects(seq![Theme::Dark, Theme::Light], surface) == seq![
            ThemeEffect::SetAttribute(Theme::Dark),
            ThemeEffect::SetAttribute(Theme::Light),
        ],
        theme_attr_spec(Theme::Dark) == "dark"@,
        theme_attr_spec(Theme::Light) == "light"@,
{
    assert(sync_effects(seq![Theme::Dark, Theme::Light], surface) =~= seq![
        ThemeEffect::SetAttribute(Theme::Dark),
        ThemeEffect::SetAttribute(Theme::Light),
    ]);
}

/// Without the surface, no write touches an attribute: each one is skipped
/// with a diagnostic instead of a failure.
pub proof fn law_absent_surface_skips(writes: Seq<Theme>, surface: Surface)
    requires
        surface != Surface::Present,
    ensures
        sync_effects(writes, surface).len() == writes.len(),
        forall|k: int|
            0 <= k < writes.len() ==> #[trigger] sync_effects(writes, surface)[k]
                == ThemeEffect::Skip(surface),
{
}

} // verus!
