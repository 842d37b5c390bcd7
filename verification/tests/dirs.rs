use pls::dirs::{
    audio_dir, cache_dir, config_dir, data_dir, data_local_dir, desktop_dir, document_dir,
    download_dir, executable_dir, font_dir, home_dir, picture_dir, public_dir, runtime_dir,
    template_dir, video_dir, IsEqualGUID, KnownFolder,
};

#[test]
fn directories_map_to_known_folders() {
    assert_eq!(home_dir(), Some(KnownFolder::Profile));
    assert_eq!(data_dir(), Some(KnownFolder::RoamingAppData));
    assert_eq!(data_local_dir(), Some(KnownFolder::LocalAppData));
    assert_eq!(audio_dir(), Some(KnownFolder::Music));
    assert_eq!(desktop_dir(), Some(KnownFolder::Desktop));
    assert_eq!(document_dir(), Some(KnownFolder::Documents));
    assert_eq!(download_dir(), Some(KnownFolder::Downloads));
    assert_eq!(picture_dir(), Some(KnownFolder::Pictures));
    assert_eq!(public_dir(), Some(KnownFolder::Public));
    assert_eq!(template_dir(), Some(KnownFolder::Templates));
    assert_eq!(video_dir(), Some(KnownFolder::Videos));
}

#[test]
fn cache_and_config_follow_data_dirs() {
    assert_eq!(cache_dir(), data_local_dir());
    assert_eq!(config_dir(), data_dir());
}

#[test]
fn directories_windows_lacks() {
    assert_eq!(executable_dir(), None);
    assert_eq!(runtime_dir(), None);
    assert_eq!(font_dir(), None);
}

#[test]
fn profile_guid() {
    let g = KnownFolder::Profile.id();
    assert_eq!(g.Data1, 0x5E6C858F);
    assert_eq!(g.Data2, 0x0E22);
    assert_eq!(g.Data3, 0x4760);
    assert_eq!(g.Data4, [0x9A, 0xFE, 0xEA, 0x33, 0x17, 0xB6, 0x71, 0x73]);
}

#[test]
fn folder_ids_are_distinct() {
    let all = [
        KnownFolder::Profile,
        KnownFolder::RoamingAppData,
        KnownFolder::LocalAppData,
        KnownFolder::Music,
        KnownFolder::Desktop,
        KnownFolder::Documents,
        KnownFolder::Downloads,
        KnownFolder::Pictures,
        KnownFolder::Public,
        KnownFolder::Templates,
        KnownFolder::Videos,
    ];
    for a in all.iter() {
        for b in all.iter() {
            assert_eq!(IsEqualGUID(&a.id(), &b.id()), a == b);
        }
    }
}

#[test]
fn guid_comparison_sees_every_byte() {
    let a = KnownFolder::Desktop.id();
    let mut b = a;
    assert!(IsEqualGUID(&a, &b));
    b.Data4[7] ^= 1;
    assert!(!IsEqualGUID(&a, &b));
    let mut c = a;
    c.Data3 += 1;
    assert!(!IsEqualGUID(&a, &c));
}
