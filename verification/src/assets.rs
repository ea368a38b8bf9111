use vstd::prelude::*;

verus! {

/// A changed asset file, with its new contents.
#[derive(Clone, Debug)]
pub struct Reload {
    pub name: String,
    pub data: Vec<u8>,
}

/// What is shown of the music playing: its title, and its artist and album where known.
#[derive(Clone, Debug)]
pub struct BGMMetadata {
    pub title: String,
    pub artist: Option<String>,
    pub album: Option<String>,
}

impl Default for BGMMetadata {
    fn default() -> (r: BGMMetadata)
        ensures
            r.title@.len() == 0,
            r.artist is None,
            r.album is None,
    {
        BGMMetadata { title: String::new(), artist: None, album: None }
    }
}

/// The sound a hitbox makes when it connects.
#[derive(Clone, Copy, Debug, PartialEq, Eq, Structural)]
pub enum HitBoxSFX {
    Sword,
    Punch,
}

} // verus!
