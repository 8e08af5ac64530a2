//! The bundled texts, by name.

use vstd::prelude::*;

verus! {

/// Name of the banner that is shown above a warning.
pub const WARNING_ASCII: &'static str = "warning_ascii.txt";

/// Name of the text that warns of a loud sine.
pub const WARNING_VOLUME: &'static str = "warning_volume.txt";

/// The banner.
pub const WARNING_ASCII_TEXT: &'static str = "\
 __        ___    ____  _   _ ___ _   _  ____\n\
 \\ \\      / / \\  |  _ \\| \\ | |_ _| \\ | |/ ___|\n\
  \\ \\ /\\ / / _ \\ | |_) |  \\| || ||  \\| | |  _\n\
   \\ V  V / ___ \\|  _ <| |\\  || || |\\  | |_| |\n\
    \\_/\\_/_/   \\_\\_| \\_\\_| \\_|___|_| \\_|\\____|\n";

/// The warning, with the three answers that it offers.
pub const WARNING_VOLUME_TEXT: &'static str = "\
A sine wave in this song is louder than 0.20 of full volume.\n\
Sine waves at high volume can be unpleasant and may harm your hearing.\n\
  [c] continue at the volume given\n\
  [a] abort\n\
  [d] play the note at the default volume, 0.20 (default)\n\
Your choice: ";

/// Whether `name` is the name of a bundled text.
pub open spec fn is_asset_name(name: Seq<char>) -> bool {
    name == WARNING_ASCII@ || name == WARNING_VOLUME@
}

/// The bundled text of that name.
pub open spec fn asset_text(name: Seq<char>) -> Seq<char> {
    if name == WARNING_ASCII@ {
        WARNING_ASCII_TEXT@
    } else {
        WARNING_VOLUME_TEXT@
    }
}

/// The two names differ, so that each names its own text.
pub proof fn asset_names_differ()
    ensures
        WARNING_ASCII@ != WARNING_VOLUME@,
        asset_text(WARNING_ASCII@) == WARNING_ASCII_TEXT@,
        asset_text(WARNING_VOLUME@) == WARNING_VOLUME_TEXT@,
{
    reveal_strlit("warning_ascii.txt");
    reveal_strlit("warning_volume.txt");
    assert(WARNING_ASCII@.len() == 17);
    assert(WARNING_VOLUME@.len() == 18);
}

/// Whether two strings hold the same characters.
pub fn same_text(a: &str, b: &str) -> (same: bool)
    ensures
        same == (a@ == b@),
{
    let n: usize = a.unicode_len();
    if b.unicode_len() != n {
        return false;
    }
    let mut i: usize = 0;
    while i < n
        invariant
            i <= n,
            n == a@.len(),
            n == b@.len(),
            forall|k: int| 0 <= k < i ==> a@[k] == b@[k],
        decreases n - i,
    {
        if a.get_char(i) != b.get_char(i) {
            return false;
        }
        i = i + 1;
    }
    assert(a@ =~= b@);
    true
}

/// Whether a text of that name is bundled.
pub fn has_asset(filename: &str) -> (known: bool)
    ensures
        known == is_asset_name(filename@),
{
    same_text(filename, WARNING_ASCII) || same_text(filename, WARNING_VOLUME)
}

/// The bundled text of the given name. Only the names of bundled texts are
/// taken: `has_asset` tells them apart.
pub fn load_asset(filename: &str) -> (text: &'static str)
    requires
        is_asset_name(filename@),
    ensures
        text@ == asset_text(filename@),
{
    if same_text(filename, WARNING_ASCII) {
        WARNING_ASCII_TEXT
    } else {
        WARNING_VOLUME_TEXT
    }
}

} // verus!
