use canon_collision::assets::HitBoxSFX;
use canon_collision::audio::{failed_bgm, music_folder, sfx_key, without_spaces, SfxKind};

#[test]
fn spaces_are_taken_out_of_folder_names() {
    assert_eq!(without_spaces(" Final  Destination "), "FinalDestination");
    assert_eq!(without_spaces(""), "");
    assert_eq!(music_folder("Character Select"), "CharacterSelect");
    assert_eq!(without_spaces("Toriel"), "Toriel");
}

#[test]
fn failed_song_reports_folder_and_reason() {
    let m = failed_bgm("Stage A", "No files in folder".to_string());
    assert_eq!(m.title, "Failed to play song from: Stage A");
    assert_eq!(m.artist, Some("No files in folder".to_string()));
    assert_eq!(m.album, None);
}

#[test]
fn sound_effect_keys() {
    assert_eq!(sfx_key("Toriel", &SfxKind::Run), "Common/walk.ogg");
    assert_eq!(sfx_key("Toriel", &SfxKind::Walk), "Common/walk.ogg");
    assert_eq!(sfx_key("Toriel", &SfxKind::Die), "Common/die.wav");
    assert_eq!(sfx_key("Toriel", &SfxKind::Hit(HitBoxSFX::Sword)), "Common/hit.wav");
    assert_eq!(
        sfx_key("Perfectly Generic Object", &SfxKind::Custom { filename: "ding.ogg".to_string() }),
        "PerfectlyGenericObject/ding.ogg"
    );
}
