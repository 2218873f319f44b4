use foruster::foruster_profiles::profile::{default_profiles, FileCategory};
use foruster::profiling::profile::default_profiles as styled_default_profiles;
use foruster::profiling::profile::FileCategory as StyledCategory;
use foruster::profiling::profile_style::IconSource;
use foruster::api::profile_api::ProfileAPI;

#[test]
fn test_profile() {
    let profiles = default_profiles();
    assert_eq!(profiles.len(), 9);
    assert_eq!(profiles[0].name(), "Aplicaciones");
    assert_eq!(*profiles[0].categories(), Some(vec![FileCategory::Application]));
    assert_eq!(profiles[1].name(), "Audios");
    assert_eq!(*profiles[1].categories(), Some(vec![FileCategory::Audio]));
    assert_eq!(profiles[2].name(), "Imágenes");
    assert_eq!(*profiles[2].categories(), Some(vec![FileCategory::Image]));
    assert_eq!(profiles[3].name(), "Modelos");
    assert_eq!(*profiles[3].categories(), Some(vec![FileCategory::Model]));
    assert_eq!(profiles[4].name(), "Texto");
    assert_eq!(*profiles[4].categories(), Some(vec![FileCategory::Text]));
    assert_eq!(profiles[5].name(), "Vídeos");
    assert_eq!(*profiles[5].categories(), Some(vec![FileCategory::Video]));
    assert_eq!(profiles[6].name(), "Otros");
    assert_eq!(*profiles[6].categories(), Some(vec![FileCategory::Other]));

    assert_eq!(profiles[7].name(), "Archivos comprimidos");
    assert_eq!(*profiles[7].categories(), None);
    assert_eq!(
        *profiles[7].mime_types(),
        Some(vec![
            "application/zip".to_string(),
            "application/x-zip-compressed".to_string(),
            "application/x-zip".to_string(),
            "application/x-compress".to_string(),
            "application/x-compressed".to_string(),
            "application/gzip".to_string(),
            "application/x-gzip".to_string(),
            "application/x-tar".to_string(),
            "application/x-bzip2".to_string(),
            "application/x-bzip".to_string()
        ])
    );
    assert_eq!(
        *profiles[7].extensions(),
        Some(vec![".zip".to_string(), ".tar.gz".to_string(), ".tar.bz2".to_string()])
    );

    assert_eq!(profiles[8].name(), "Documentos");
    assert_eq!(*profiles[8].categories(), None);
    assert_eq!(
        *profiles[8].mime_types(),
        Some(vec![
            "application/pdf".to_string(),
            "application/msword".to_string(),
            "application/vnd.openxmlformats-officedocument.wordprocessingml.document".to_string(),
            "application/vnd.ms-excel".to_string(),
            "application/vnd.openxmlformats-officedocument.spreadsheetml.sheet".to_string(),
            "application/vnd.ms-powerpoint".to_string(),
            "application/vnd.openxmlformats-officedocument.presentationml.presentation".to_string()
        ])
    );
    assert_eq!(
        *profiles[8].extensions(),
        Some(vec![
            ".pdf".to_string(),
            ".doc".to_string(),
            ".docx".to_string(),
            ".xls".to_string(),
            ".xlsx".to_string(),
            ".ppt".to_string(),
            ".pptx".to_string()
        ])
    );
}

#[test]
fn category_of_media_type_top_level() {
    assert_eq!(FileCategory::from_name("audio"), FileCategory::Audio);
    assert_eq!(FileCategory::from_name("font"), FileCategory::Other);
    assert_eq!(StyledCategory::from(String::from("video")), StyledCategory::Video);
}

#[test]
fn compressed_profile_matches_by_extension_and_media_type() {
    let profiles = default_profiles();
    let compressed = &profiles[7];
    assert!(compressed.matches("/data/backup.ZIP", None));
    assert!(compressed.matches("/data/blob", Some("application/gzip")));
    assert!(!compressed.matches("/data/notes.txt", Some("text/plain")));
    // The extension is the text after the last dot only.
    assert!(!compressed.matches("/data/archive.tar.gz", None));
}

#[test]
fn category_profile_matches_by_top_level_media_type() {
    let profiles = default_profiles();
    assert!(profiles[1].matches("/music/track", Some("audio/x-unknown")));
    assert!(!profiles[1].matches("/music/track", None));
}

#[test]
fn styled_profiles_carry_colour_and_icon() {
    let profiles = styled_default_profiles();
    assert_eq!(profiles[0].name(), "Aplicaciones");
    assert_eq!(profiles[0].bg_color(), 0xFF4CAF50);
    assert_eq!(profiles[0].icon_source().to_string(), "assets/profile_icons/app.svg");
    assert_eq!(IconSource::Video.to_string(), "assets/profile_icons/video.svg");
    assert!(profiles[2].matches("/pics/a.png", Some("image/png")));
}

#[test]
fn profile_api_finds_profiles_by_label() {
    let api = ProfileAPI::new();
    assert_eq!(api.get_profiles().len(), styled_default_profiles().len());
    let found = api.get_by_label("Audios".to_string()).unwrap();
    assert_eq!(found.name(), "Audios");
    assert!(api.get_by_label("Nada".to_string()).is_none());
}

#[test]
fn profile_api_reloads_defaults() {
    let mut api = ProfileAPI::default();
    api.load_default_profiles();
    assert_eq!(api.get_profiles()[8].name(), styled_default_profiles()[8].name());
}
