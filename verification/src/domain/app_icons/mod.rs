//! The icons the app can wear on the home screen.
//!
//! The catalogue is compiled in rather than read from disk: every icon has to
//! exist as an Android component declared in a manifest, so a variant the build
//! does not ship could never be selected anyway.

use vstd::prelude::*;

use crate::error::{AppError, AppResult, ValidationError};
use crate::text::{chars_of, eq_str, owned};

verus! {

pub const SELECTED_ICON_SETTING_KEY: &'static str = "appearance.app_icon";

/// The one enabled in the manifest, so a fresh install already has an icon.
pub const DEFAULT_ICON_ID: &'static str = "original";

#[derive(Clone, Copy, PartialEq, Eq, Debug)]
pub struct AppIcon {
    pub id: &'static str,
    /// Name of the `activity-alias`, which is what Android switches on and off.
    pub alias: &'static str,
    pub label: &'static str,
    /// Colour to show behind the name in settings, from the artwork.
    pub accent: &'static str,
}

/// The ids of the catalogue, in order.
pub open spec fn icon_ids() -> Seq<Seq<char>> {
    seq!["original"@, "ink"@, "amber"@, "midnight"@, "paper"@, "neon"@]
}

pub open spec fn icon_aliases() -> Seq<Seq<char>> {
    seq!["Original"@, "Ink"@, "Amber"@, "Midnight"@, "Paper"@, "Neon"@]
}

pub open spec fn icon_labels() -> Seq<Seq<char>> {
    seq!["xima.keeps"@, "Ink"@, "Amber"@, "Midnight"@, "Paper"@, "Neon"@]
}

pub open spec fn icon_accents() -> Seq<Seq<char>> {
    seq!["#0B0B0D"@, "#222020"@, "#E8862B"@, "#4BE3B0"@, "#8A6A4B"@, "#7C5CFF"@]
}

/// The icon is the catalogue's `k`-th.
pub open spec fn is_icon_at(icon: AppIcon, k: int) -> bool {
    &&& icon.id@ == icon_ids()[k]
    &&& icon.alias@ == icon_aliases()[k]
    &&& icon.label@ == icon_labels()[k]
    &&& icon.accent@ == icon_accents()[k]
}

/// Where in the catalogue an id stands.
pub open spec fn id_index(id: Seq<char>) -> Option<int> {
    if id == "original"@ {
        Some(0int)
    } else if id == "ink"@ {
        Some(1int)
    } else if id == "amber"@ {
        Some(2int)
    } else if id == "midnight"@ {
        Some(3int)
    } else if id == "paper"@ {
        Some(4int)
    } else if id == "neon"@ {
        Some(5int)
    } else {
        None
    }
}

/// Where in the catalogue an alias stands.
pub open spec fn alias_index(alias: Seq<char>) -> Option<int> {
    if alias == "Original"@ {
        Some(0int)
    } else if alias == "Ink"@ {
        Some(1int)
    } else if alias == "Amber"@ {
        Some(2int)
    } else if alias == "Midnight"@ {
        Some(3int)
    } else if alias == "Paper"@ {
        Some(4int)
    } else if alias == "Neon"@ {
        Some(5int)
    } else {
        None
    }
}

/// The catalogue, in the order settings shows it.
pub fn app_icons() -> (icons: Vec<AppIcon>)
    ensures
        icons@.len() == 6,
        forall|k: int| 0 <= k < 6 ==> is_icon_at(#[trigger] icons@[k], k),
{
    let mut icons: Vec<AppIcon> = Vec::new();
    icons.push(AppIcon { id: "original", alias: "Original", label: "xima.keeps", accent: "#0B0B0D" });
    icons.push(AppIcon { id: "ink", alias: "Ink", label: "Ink", accent: "#222020" });
    icons.push(AppIcon { id: "amber", alias: "Amber", label: "Amber", accent: "#E8862B" });
    icons.push(AppIcon { id: "midnight", alias: "Midnight", label: "Midnight", accent: "#4BE3B0" });
    icons.push(AppIcon { id: "paper", alias: "Paper", label: "Paper", accent: "#8A6A4B" });
    icons.push(AppIcon { id: "neon", alias: "Neon", label: "Neon", accent: "#7C5CFF" });
    icons
}

/// Every alias the build ships, for switching the others off.
pub fn aliases() -> (out: Vec<String>)
    ensures
        out@.len() == 6,
        forall|k: int| 0 <= k < 6 ==> (#[trigger] out@[k])@ == icon_aliases()[k],
{
    let mut out: Vec<String> = Vec::new();
    out.push(owned("Original"));
    out.push(owned("Ink"));
    out.push(owned("Amber"));
    out.push(owned("Midnight"));
    out.push(owned("Paper"));
    out.push(owned("Neon"));
    out
}

/// The alias the manifest enables on a fresh install.
pub fn default_alias() -> (alias: String)
    ensures
        alias@ == icon_aliases()[id_index(DEFAULT_ICON_ID@)->0],
{
    proof {
        reveal_strlit("original");
    }
    owned("Original")
}

/// # Errors
/// An invalid `app_icon` for an id this build does not ship — the alias behind
/// it would not exist, and Android would refuse anyway.
pub fn resolve(id: &str) -> (r: AppResult<AppIcon>)
    ensures
        match id_index(id@) {
            Some(k) => r matches Ok(icon) && is_icon_at(icon, k),
            None => r == Err::<AppIcon, AppError>(
                AppError::Validation(ValidationError::Invalid { field: "app_icon" }),
            ),
        },
{
    let chars = chars_of(id);
    if eq_str(&chars, "original") {
        return Ok(AppIcon { id: "original", alias: "Original", label: "xima.keeps", accent: "#0B0B0D" });
    }
    if eq_str(&chars, "ink") {
        return Ok(AppIcon { id: "ink", alias: "Ink", label: "Ink", accent: "#222020" });
    }
    if eq_str(&chars, "amber") {
        return Ok(AppIcon { id: "amber", alias: "Amber", label: "Amber", accent: "#E8862B" });
    }
    if eq_str(&chars, "midnight") {
        return Ok(AppIcon { id: "midnight", alias: "Midnight", label: "Midnight", accent: "#4BE3B0" });
    }
    if eq_str(&chars, "paper") {
        return Ok(AppIcon { id: "paper", alias: "Paper", label: "Paper", accent: "#8A6A4B" });
    }
    if eq_str(&chars, "neon") {
        return Ok(AppIcon { id: "neon", alias: "Neon", label: "Neon", accent: "#7C5CFF" });
    }
    Err(AppError::Validation(ValidationError::Invalid { field: "app_icon" }))
}

/// The id behind an alias Android reports, falling back to the default.
pub fn id_for_alias(alias: &str) -> (id: &'static str)
    ensures
        id@ == match alias_index(alias@) {
            Some(k) => icon_ids()[k],
            None => DEFAULT_ICON_ID@,
        },
{
    let chars = chars_of(alias);
    if eq_str(&chars, "Original") {
        return "original";
    }
    if eq_str(&chars, "Ink") {
        return "ink";
    }
    if eq_str(&chars, "Amber") {
        return "amber";
    }
    if eq_str(&chars, "Midnight") {
        return "midnight";
    }
    if eq_str(&chars, "Paper") {
        return "paper";
    }
    if eq_str(&chars, "Neon") {
        return "neon";
    }
    "original"
}

/// Every icon is found again by its own id and by its own alias.
pub proof fn lemma_catalogue_is_keyed(k: int)
    requires
        0 <= k < 6,
    ensures
        id_index(icon_ids()[k]) == Some(k),
        alias_index(icon_aliases()[k]) == Some(k),
{
    reveal_strlit("original");
    reveal_strlit("Original");
    reveal_strlit("ink");
    reveal_strlit("Ink");
    reveal_strlit("amber");
    reveal_strlit("Amber");
    reveal_strlit("midnight");
    reveal_strlit("Midnight");
    reveal_strlit("paper");
    reveal_strlit("Paper");
    reveal_strlit("neon");
    reveal_strlit("Neon");
    assert("original"@.len() == 8 && "original"@[0] == 'o');
    assert("Original"@.len() == 8 && "Original"@[0] == 'O');
    assert("ink"@.len() == 3 && "ink"@[0] == 'i');
    assert("Ink"@.len() == 3 && "Ink"@[0] == 'I');
    assert("amber"@.len() == 5 && "amber"@[0] == 'a');
    assert("Amber"@.len() == 5 && "Amber"@[0] == 'A');
    assert("midnight"@.len() == 8 && "midnight"@[0] == 'm');
    assert("Midnight"@.len() == 8 && "Midnight"@[0] == 'M');
    assert("paper"@.len() == 5 && "paper"@[0] == 'p');
    assert("Paper"@.len() == 5 && "Paper"@[0] == 'P');
    assert("neon"@.len() == 4 && "neon"@[0] == 'n');
    assert("Neon"@.len() == 4 && "Neon"@[0] == 'N');
}

} // verus!
