use vstd::prelude::*;
use vstd::string::StrSliceExecFns;

use crate::assets::{BGMMetadata, HitBoxSFX};
use crate::text::{push_char, string_of};

verus! {

/// `s` with its spaces taken out.
pub open spec fn spec_without_spaces(s: Seq<char>) -> Seq<char>
    decreases s.len(),
{
    if s.len() == 0 {
        Seq::empty()
    } else {
        let rest = spec_without_spaces(s.drop_last());
        if s.last() == ' ' {
            rest
        } else {
            rest.push(s.last())
        }
    }
}

/// `s` with its spaces taken out, as the names of music and sound folders are.
pub fn without_spaces(s: &str) -> (r: String)
    ensures
        r@ == spec_without_spaces(s@),
{
    let n = s.unicode_len();
    let mut r = String::new();
    let mut i: usize = 0;
    while i < n
        invariant
            i <= n,
            n == s@.len(),
            r@ == spec_without_spaces(s@.take(i as int)),
        decreases n - i,
    {
        let c = s.get_char(i);
        assert(s@.take(i + 1).drop_last() =~= s@.take(i as int));
        if c != ' ' {
            push_char(&mut r, c);
        }
        i = i + 1;
    }
    assert(s@.take(n as int) =~= s@);
    r
}

/// The folder, under the music folder, that holds the music for a stage, menu or fighter
/// named `name`.
pub fn music_folder(name: &str) -> (r: String)
    ensures
        r@ == spec_without_spaces(name@),
{
    without_spaces(name)
}

/// What is shown when no song of `folder` could be played: the failure, and why.
pub fn failed_bgm(folder: &str, error: String) -> (r: BGMMetadata)
    ensures
        r.title@ == "Failed to play song from: "@ + folder@,
        r.artist == Some(error),
        r.album is None,
{
    let mut title = string_of("Failed to play song from: ");
    title.append(folder);
    BGMMetadata { title, artist: Some(error), album: None }
}

/// A sound effect an entity makes. How loud and how high it sounds is the caller's.
#[derive(Clone, Debug)]
pub enum SfxKind {
    Walk,
    Run,
    Dash,
    Jump,
    Land,
    Die,
    Hit(HitBoxSFX),
    /// A sound of the entity's own, by file name within its folder.
    Custom { filename: String },
}

/// The key a sound effect is loaded under: a common sound, or a file in the folder named
/// after the entity (without spaces).
pub open spec fn spec_sfx_key(entity_name: Seq<char>, sfx: SfxKind) -> Seq<char> {
    match sfx {
        SfxKind::Walk | SfxKind::Run => "Common/walk.ogg"@,
        SfxKind::Dash => "Common/dash.ogg"@,
        SfxKind::Jump => "Common/jump.ogg"@,
        SfxKind::Land => "Common/land.ogg"@,
        SfxKind::Die => "Common/die.wav"@,
        SfxKind::Hit(_) => "Common/hit.wav"@,
        SfxKind::Custom { filename } => spec_without_spaces(entity_name) + "/"@ + filename@,
    }
}

/// The key of the sound effect `sfx` made by the entity named `entity_name`.
pub fn sfx_key(entity_name: &str, sfx: &SfxKind) -> (r: String)
    ensures
        r@ == spec_sfx_key(entity_name@, *sfx),
{
    match sfx {
        SfxKind::Walk | SfxKind::Run => string_of("Common/walk.ogg"),
        SfxKind::Dash => string_of("Common/dash.ogg"),
        SfxKind::Jump => string_of("Common/jump.ogg"),
        SfxKind::Land => string_of("Common/land.ogg"),
        SfxKind::Die => string_of("Common/die.wav"),
        SfxKind::Hit(_) => string_of("Common/hit.wav"),
        SfxKind::Custom { filename } => {
            let mut key = without_spaces(entity_name);
            key.append("/");
            key.append(filename.as_str());
            key
        },
    }
}

} // verus!
