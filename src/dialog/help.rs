//! Keybinding and usage help dialog.
use vstd::prelude::*;

use crate::text::string_of;

verus! {

/// Keybinding/usage help dialog.
#[derive(Copy, Clone, Debug, PartialEq, Eq, Structural)]
pub struct HelpDialog;

impl HelpDialog {
    /// Create a new help dialog.
    pub fn new() -> (d: HelpDialog)
        ensures
            d == HelpDialog,
    {
        HelpDialog
    }

    /// The dialog's text: one line per binding, its action highlighted in green.
    pub fn lines(&self) -> (r: Vec<String>)
        ensures
            r@.len() == 15,
            r@[0]@ == "MOUSE WHEEL        \x1b[32mbrush size\x1b[39m change"@,
            r@[1]@ == "CTRL + LMB         \x1b[32mbox drawing\x1b[39m mode"@,
            r@[2]@ == "CTRL + DRAG LMB    \x1b[32mline drawing\x1b[39m mode"@,
            r@[3]@ == "CTRL + G           \x1b[32mgrapheme\x1b[39m picker"@,
            r@[4]@ == "CTRL + F           \x1b[32mforeground color\x1b[39m picker"@,
            r@[5]@ == "CTRL + B           \x1b[32mbackground color\x1b[39m picker"@,
            r@[6]@ == "CTRL + E           \x1b[32mfill\x1b[39m at brush position"@,
            r@[7]@ == "CTRL + T           \x1b[32mtext styles\x1b[39m toggle"@,
            r@[8]@ == "CTRL + S           \x1b[32msave\x1b[39m sketch"@,
            r@[9]@ == "CTRL + O           \x1b[32mopen\x1b[39m existing sketch"@,
            r@[10]@ == "CTRL + U           \x1b[32mundo\x1b[39m last action"@,
            r@[11]@ == "CTRL + R           \x1b[32mredo\x1b[39m last undone action"@,
            r@[12]@ == "CTRL + L           \x1b[32mreset\x1b[39m the canvas"@,
            r@[13]@ == "CTRL + C           \x1b[32mexit\x1b[39m"@,
            r@[14]@ == "ESC                \x1b[32mclose\x1b[39m dialog"@,
    {
        let mut r = Vec::new();
        r.push(string_of("MOUSE WHEEL        \x1b[32mbrush size\x1b[39m change"));
        r.push(string_of("CTRL + LMB         \x1b[32mbox drawing\x1b[39m mode"));
        r.push(string_of("CTRL + DRAG LMB    \x1b[32mline drawing\x1b[39m mode"));
        r.push(string_of("CTRL + G           \x1b[32mgrapheme\x1b[39m picker"));
        r.push(string_of("CTRL + F           \x1b[32mforeground color\x1b[39m picker"));
        r.push(string_of("CTRL + B           \x1b[32mbackground color\x1b[39m picker"));
        r.push(string_of("CTRL + E           \x1b[32mfill\x1b[39m at brush position"));
        r.push(string_of("CTRL + T           \x1b[32mtext styles\x1b[39m toggle"));
        r.push(string_of("CTRL + S           \x1b[32msave\x1b[39m sketch"));
        r.push(string_of("CTRL + O           \x1b[32mopen\x1b[39m existing sketch"));
        r.push(string_of("CTRL + U           \x1b[32mundo\x1b[39m last action"));
        r.push(string_of("CTRL + R           \x1b[32mredo\x1b[39m last undone action"));
        r.push(string_of("CTRL + L           \x1b[32mreset\x1b[39m the canvas"));
        r.push(string_of("CTRL + C           \x1b[32mexit\x1b[39m"));
        r.push(string_of("ESC                \x1b[32mclose\x1b[39m dialog"));
        r
    }
}

} // verus!
