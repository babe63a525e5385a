//! Choosing the icon the app wears.
//!
//! Android is the source of truth for which alias is enabled. The stored
//! setting is a note of the last choice, used only when the platform has
//! nothing to say.

use std::sync::Arc;

use vstd::prelude::*;

use crate::domain::app_icons::{
    alias_index, aliases, app_icons, default_alias, icon_ids, id_for_alias, id_index, is_icon_at,
    lemma_catalogue_is_keyed, resolve, AppIcon, DEFAULT_ICON_ID, SELECTED_ICON_SETTING_KEY,
};
use crate::domain::settings::SettingsRepository;
use crate::error::{AppError, AppResult, ValidationError};
use crate::platform::AppIconSwitch;
use crate::text::owned;

verus! {

/// The catalogue plus whichever entry is showing now.
#[derive(Clone, Debug)]
pub struct AppIconCatalog {
    pub selected_id: String,
    pub items: Vec<AppIcon>,
}

/// Which icon is showing: the one behind the alias the platform reports, or,
/// when it reports none, the one last written down if this build ships it,
/// and the manifest default before that.
pub open spec fn shown_icon(platform_alias: Option<Seq<char>>, stored: Option<Seq<char>>) -> Seq<char> {
    match platform_alias {
        Some(alias) => match alias_index(alias) {
            Some(k) => icon_ids()[k],
            None => DEFAULT_ICON_ID@,
        },
        None => match stored {
            Some(id) => if id_index(id) is Some {
                id
            } else {
                DEFAULT_ICON_ID@
            },
            None => DEFAULT_ICON_ID@,
        },
    }
}

pub fn selected_icon_id(platform_alias: Option<&str>, stored: Option<&str>) -> (id: String)
    ensures
        id@ == shown_icon(
            match platform_alias {
                Some(a) => Some(a@),
                None => None,
            },
            match stored {
                Some(s) => Some(s@),
                None => None,
            },
        ),
{
    match platform_alias {
        Some(alias) => owned(id_for_alias(alias)),
        None => match stored {
            Some(id) => {
                if resolve(id).is_ok() {
                    owned(id)
                } else {
                    owned(DEFAULT_ICON_ID)
                }
            },
            None => owned(DEFAULT_ICON_ID),
        },
    }
}

/// The catalogue is the whole of it, in order.
pub open spec fn is_catalogue(items: Seq<AppIcon>) -> bool {
    items.len() == 6 && forall|k: int| 0 <= k < 6 ==> is_icon_at(#[trigger] items[k], k)
}

/// Choosing the launcher icon, and reading back which one is showing.
pub struct AppIconUseCases<I: AppIconSwitch + ?Sized, S: SettingsRepository + ?Sized> {
    icons: Arc<I>,
    settings: Arc<S>,
}

impl<I: AppIconSwitch + ?Sized, S: SettingsRepository + ?Sized> AppIconUseCases<I, S> {
    /// The platform switch and the settings store it was given.
    pub closed spec fn parts(&self) -> (Arc<I>, Arc<S>) {
        (self.icons, self.settings)
    }

    pub fn new(icons: Arc<I>, settings: Arc<S>) -> (u: AppIconUseCases<I, S>)
        ensures
            u.parts() == (icons, settings),
    {
        AppIconUseCases { icons, settings }
    }

    /// The catalogue, and which of its icons is showing: the platform's word
    /// first, then the choice last written down, then the manifest default.
    ///
    /// # Errors
    /// What the platform or storage answered.
    pub fn catalog(&self) -> (r: AppResult<AppIconCatalog>)
        ensures
            r matches Ok(c) ==> id_index(c.selected_id@) is Some && is_catalogue(c.items@),
    {
        let known = aliases();
        let fallback = default_alias();
        let current = self.icons.current(known.as_slice(), fallback.as_str())?;
        let selected_id = match current {
            Some(alias) => selected_icon_id(Some(alias.as_str()), None),
            None => {
                let stored = self.settings.read(SELECTED_ICON_SETTING_KEY)?;
                match stored {
                    Some(id) => selected_icon_id(None, Some(id.as_str())),
                    None => selected_icon_id(None, None),
                }
            },
        };
        proof {
            assert forall|k: int| 0 <= k < 6 implies id_index(#[trigger] icon_ids()[k]) is Some by {
                lemma_catalogue_is_keyed(k);
            }
            reveal_strlit("original");
        }
        Ok(AppIconCatalog { selected_id, items: app_icons() })
    }

    /// Switches the launcher icon and remembers the choice. The choice is
    /// written down first, because switching closes the app so the home
    /// screen redraws; the catalogue is read back from the platform anyway.
    ///
    /// # Errors
    /// An invalid `app_icon` for an icon this build does not ship, which never
    /// reaches the platform; else what storage or the platform answered.
    pub fn select(&self, id: &str) -> (r: AppResult<AppIconCatalog>)
        ensures
            id_index(id@) is None ==> r == Err::<AppIconCatalog, AppError>(
                AppError::Validation(ValidationError::Invalid { field: "app_icon" }),
            ),
            r matches Ok(c) ==> c.selected_id@ == id@ && is_catalogue(c.items@),
    {
        let icon = resolve(id)?;
        self.settings.write(SELECTED_ICON_SETTING_KEY, icon.id)?;
        let known = aliases();
        let fallback = default_alias();
        self.icons.select(icon.alias, known.as_slice(), fallback.as_str())?;
        proof {
            let k = id_index(id@)->0;
            lemma_catalogue_is_keyed(k);
        }
        Ok(AppIconCatalog { selected_id: owned(icon.id), items: app_icons() })
    }
}

} // verus!
