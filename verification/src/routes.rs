//! Where the server's resources live: the paths it answers on and the
//! directories it reads from.

use vstd::prelude::*;

verus! {

/// The path of the home page.
pub const HOME_ROUTE: &'static str = "/";

/// The path of the greeting.
pub const GREET_ROUTE: &'static str = "/api/greet";

/// The prefix under which files of the static directory are served.
pub const STATIC_ROUTE: &'static str = "/static";

/// The directory that holds the static files.
pub const STATIC_DIR: &'static str = "static";

/// The directory that templates are loaded from.
pub const TEMPLATE_DIR: &'static str = "templates";

} // verus!
