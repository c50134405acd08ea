//! The music track each mode plays. The audio layer maps the path to
//! an actual stream; this module only picks it.

use vstd::prelude::*;

use crate::game::Mode;

verus! {

/// The path of the track a mode plays.
pub open spec fn spec_music_path(mode: Mode) -> Seq<char> {
    match mode {
        Mode::Bane { .. } => "assets/music/Kevin_MacLeod_-_Ghost_Dance.ogg"@,
        Mode::Chill { .. } => "assets/music/a-very-brady-special-by-kevin-macleod.ogg"@,
        Mode::Classic { .. } => "assets/music/midnight-tale-by-kevin-macleod.ogg"@,
    }
}

/// The path of the music asset the given mode plays.
pub fn music_path(mode: &Mode) -> (s: String)
    ensures
        s@ == spec_music_path(*mode),
{
    match mode {
        Mode::Bane { .. } => String::from_str("assets/music/Kevin_MacLeod_-_Ghost_Dance.ogg"),
        Mode::Chill { .. } => String::from_str(
            "assets/music/a-very-brady-special-by-kevin-macleod.ogg",
        ),
        Mode::Classic { .. } => String::from_str(
            "assets/music/midnight-tale-by-kevin-macleod.ogg",
        ),
    }
}

} // verus!
