//! Persisted settings of the tool, and the defaults applied when a field is
//! absent from the store. The store itself is an outside collaborator; the
//! caller hands over whatever values it found.

use vstd::prelude::*;

verus! {

/// The settings a pipeline run works under.
pub struct Settings {
    pub api_key: String,
    pub preprompt: String,
    pub model: String,
    pub turbo_mode: bool,
    pub show_duck: bool,
    pub show_notification: bool,
}

/// Fills each absent field with its default: an empty API key, the
/// `Fix typos:` preprompt, the stock model id, turbo mode off, and the duck
/// overlay and the completion notification on.
pub fn resolve_settings(
    api_key: Option<String>,
    preprompt: Option<String>,
    model: Option<String>,
    turbo_mode: Option<bool>,
    show_duck: Option<bool>,
    show_notification: Option<bool>,
) -> (r: Settings)
    ensures
        r.api_key@ == (match api_key {
            Some(k) => k@,
            None => Seq::<char>::empty(),
        }),
        r.preprompt@ == (match preprompt {
            Some(p) => p@,
            None => "Fix typos:"@,
        }),
        r.model@ == (match model {
            Some(m) => m@,
            None => "gemini-2.5-flash"@,
        }),
        r.turbo_mode == (match turbo_mode {
            Some(t) => t,
            None => false,
        }),
        r.show_duck == (match show_duck {
            Some(d) => d,
            None => true,
        }),
        r.show_notification == (match show_notification {
            Some(n) => n,
            None => true,
        }),
{
    Settings {
        api_key: match api_key {
            Some(k) => k,
            None => String::new(),
        },
        preprompt: match preprompt {
            Some(p) => p,
            None => String::from_str("Fix typos:"),
        },
        model: match model {
            Some(m) => m,
            None => String::from_str("gemini-2.5-flash"),
        },
        turbo_mode: match turbo_mode {
            Some(t) => t,
            None => false,
        },
        show_duck: match show_duck {
            Some(d) => d,
            None => true,
        },
        show_notification: match show_notification {
            Some(n) => n,
            None => true,
        },
    }
}

/// The main window is shown at startup exactly when no non-empty API key is
/// stored yet.
pub fn should_show_main_window(api_key: &Option<String>) -> (r: bool)
    ensures
        r == !(match api_key {
            Some(k) => k@.len() > 0,
            None => false,
        }),
{
    match api_key {
        Some(k) => k.as_str().is_empty(),
        None => true,
    }
}

} // verus!
