use vstd::prelude::*;
use crate::editor::components::base::controller::ScreenComponentController;
use crate::editor::key::KeyEvent;
use crate::utils::screen::Screen;
use crate::utils::text::{chars_of, string_of};

verus! {

/// The help screen.
pub struct Helper {
    pub comp: ScreenComponentController,
}

impl Helper {
    pub fn new() -> (helper: Self)
        ensures
            helper.comp.content@ == "Ctrl + s | Open / Close file saving component"@,
    {
        Helper {
            comp: ScreenComponentController {
                content: string_of(&chars_of("Ctrl + s | Open / Close file saving component")),
            },
        }
    }

    /// The rows of the help text on `screen`.
    pub fn open(&self, screen: &Screen) -> (rows: Vec<String>)
        requires
            screen.width >= 1,
        ensures
            rows@.map_values(|row: String| row@) == ScreenComponentController::rows_of(
                self.comp.content@,
                screen.width as int,
            ),
    {
        self.comp.render(screen)
    }

    /// The help screen takes no key.
    pub fn key_resolve(&self, key: KeyEvent) {
    }
}

} // verus!
