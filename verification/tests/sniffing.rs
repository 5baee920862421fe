use lanshare::sniff::{
    choose_outgoing_name, choose_storage_mime, choose_stored_name, find_bytes,
    get_mime_type_for_file, has_apk_suffix, looks_like_apk, mime_type_for, name_for_kind,
    name_has_extension, outgoing_name_for, storage_mime_for, stored_name_for, FileKind,
};

const APK_MIME: &str = "application/vnd.android.package-archive";
const OCTET: &str = "application/octet-stream";

fn apk_bytes(total: usize, marker_at: usize) -> Vec<u8> {
    let mut data = vec![0u8; total];
    data[0] = 0x50;
    data[1] = 0x4B;
    data[2] = 0x03;
    data[3] = 0x04;
    let marker = b"AndroidManifest";
    data[marker_at..marker_at + marker.len()].copy_from_slice(marker);
    data
}

fn plain_zip(total: usize) -> Vec<u8> {
    let mut data = vec![0u8; total];
    data[0] = 0x50;
    data[1] = 0x4B;
    data[2] = 0x03;
    data[3] = 0x04;
    data
}

fn png_bytes() -> Vec<u8> {
    let mut data = vec![0x89, 0x50, 0x4E, 0x47, 0x0D, 0x0A, 0x1A, 0x0A];
    data.extend_from_slice(&[0u8; 32]);
    data
}

#[test]
fn find_bytes_locates_needle() {
    assert!(find_bytes(b"hello world", 11, b"o w"));
    assert!(find_bytes(b"hello world", 11, b"hello world"));
    assert!(find_bytes(b"hello world", 11, b""));
    assert!(!find_bytes(b"hello world", 11, b"worlds"));
    assert!(!find_bytes(b"hello world", 11, b"xyz"));
}

#[test]
fn find_bytes_respects_limit() {
    assert!(find_bytes(b"hello world", 5, b"hello"));
    assert!(!find_bytes(b"hello world", 5, b"o w"));
    assert!(!find_bytes(b"hello world", 10, b"world"));
    assert!(find_bytes(b"hello world", 0, b""));
    assert!(!find_bytes(b"hello world", 0, b"h"));
    assert!(find_bytes(b"hello world", 11, b"world"));
    assert!(find_bytes(b"hello world", 500, b"world"));
    assert!(find_bytes(b"", 3, b""));
    assert!(!find_bytes(b"", 3, b"a"));
}

#[test]
fn apk_suffix_ignores_case() {
    assert!(has_apk_suffix("game.apk"));
    assert!(has_apk_suffix("GAME.APK"));
    assert!(has_apk_suffix("x.ApK"));
    assert!(has_apk_suffix(".apk"));
    assert!(has_apk_suffix("x.ap\u{212A}"));
    assert!(!has_apk_suffix("apk"));
    assert!(!has_apk_suffix("game.apk.zip"));
    assert!(!has_apk_suffix("gameapk"));
    assert!(!has_apk_suffix(""));
    for name in ["game.apk", "GAME.APK", "x.ap\u{212A}", "apk", "a.apks", "é.APK"] {
        assert_eq!(has_apk_suffix(name), name.to_lowercase().ends_with(".apk"));
    }
}

#[test]
fn apk_content_needs_signature_and_marker() {
    assert!(looks_like_apk(&apk_bytes(64, 30)));
    assert!(looks_like_apk(&apk_bytes(19, 4)));
    assert!(!looks_like_apk(&plain_zip(64)));
    let mut no_signature = apk_bytes(64, 30);
    no_signature[0] = 0;
    assert!(!looks_like_apk(&no_signature));
    assert!(!looks_like_apk(&[]));
    assert!(!looks_like_apk(&[0x50, 0x4B, 0x03]));
}

#[test]
fn apk_marker_must_lie_within_window() {
    assert!(looks_like_apk(&apk_bytes(9000, 8192 - 15)));
    assert!(!looks_like_apk(&apk_bytes(9000, 8192 - 14)));
    assert!(!looks_like_apk(&apk_bytes(9000, 8500)));
}

#[test]
fn mime_type_by_name_and_content() {
    assert_eq!(get_mime_type_for_file("a.apk", None), APK_MIME);
    assert_eq!(get_mime_type_for_file("A.APK", Some(&[1, 2, 3])), APK_MIME);
    assert_eq!(get_mime_type_for_file("blob", Some(&apk_bytes(100, 40))), APK_MIME);
    assert_eq!(get_mime_type_for_file("blob", Some(&plain_zip(100))), "application/zip");
    assert_eq!(get_mime_type_for_file("blob", None), OCTET);
    assert_eq!(get_mime_type_for_file("photo.png", None), OCTET);
    assert_eq!(get_mime_type_for_file("photo.png", Some(&png_bytes())), "image/png");
    assert_eq!(get_mime_type_for_file("blob", Some(&[0u8; 40])), OCTET);
    assert_eq!(get_mime_type_for_file("blob", Some(&[])), OCTET);
    assert_eq!(get_mime_type_for_file("a.apk", Some(&png_bytes())), APK_MIME);
}

#[test]
fn generic_names_by_category() {
    let kind = |mime: &str, ext: &str| FileKind { mime: mime.to_string(), extension: ext.to_string() };
    assert_eq!(name_for_kind(&kind("image/png", "png")), "image.png");
    assert_eq!(name_for_kind(&kind("video/mp4", "mp4")), "video.mp4");
    assert_eq!(name_for_kind(&kind("audio/mpeg", "mp3")), "audio.mp3");
    assert_eq!(name_for_kind(&kind("application/pdf", "pdf")), "document.pdf");
    assert_eq!(name_for_kind(&kind(APK_MIME, "apk")), "app.apk");
    assert_eq!(name_for_kind(&kind("application/zip", "zip")), "archive.zip");
    assert_eq!(name_for_kind(&kind("application/gzip", "gz")), "file.gz");
}

#[test]
fn outgoing_name_replaces_placeholders_only() {
    let png = || Some(FileKind { mime: "image/png".to_string(), extension: "png".to_string() });
    assert_eq!(outgoing_name_for("msf_1000".to_string(), &[1, 2], png()), "image.png");
    assert_eq!(outgoing_name_for("document_12".to_string(), &[1, 2], png()), "image.png");
    assert_eq!(outgoing_name_for("msf_1000.jpg".to_string(), &[1, 2], png()), "msf_1000.jpg");
    assert_eq!(outgoing_name_for("holiday".to_string(), &[1, 2], png()), "holiday");
    assert_eq!(outgoing_name_for("msf_1000".to_string(), &[1, 2], None), "msf_1000");
    assert_eq!(
        outgoing_name_for("msf_1000".to_string(), &apk_bytes(64, 30), png()),
        "msf_1000.apk"
    );
    assert_eq!(
        outgoing_name_for("document_12".to_string(), &apk_bytes(64, 30), None),
        "document_12.apk"
    );
    assert_eq!(
        outgoing_name_for("holiday".to_string(), &apk_bytes(64, 30), None),
        "holiday"
    );
}

#[test]
fn outgoing_name_classifies_content() {
    assert_eq!(choose_outgoing_name("msf_7".to_string(), &png_bytes()), "image.png");
    assert_eq!(choose_outgoing_name("msf_7".to_string(), &apk_bytes(64, 30)), "msf_7.apk");
    assert_eq!(choose_outgoing_name("msf_7".to_string(), &plain_zip(64)), "archive.zip");
    assert_eq!(choose_outgoing_name("msf_7".to_string(), &[0u8; 40]), "msf_7");
    assert_eq!(choose_outgoing_name("notes".to_string(), &png_bytes()), "notes");
}

#[test]
fn extension_of_single_names() {
    assert!(name_has_extension("a.b"));
    assert!(name_has_extension("a."));
    assert!(name_has_extension(".a.b"));
    assert!(name_has_extension("..."));
    assert!(!name_has_extension(""));
    assert!(!name_has_extension("."));
    assert!(!name_has_extension(".."));
    assert!(!name_has_extension(".hidden"));
    assert!(!name_has_extension("plain"));
    for name in ["a.b", "a.", ".a.b", "...", "", ".", "..", ".hidden", "plain", "x..y"] {
        assert_eq!(
            name_has_extension(name),
            std::path::Path::new(name).extension().is_some()
        );
    }
}

#[test]
fn stored_name_gets_extension_from_content() {
    let kind = |mime: &str, ext: &str| Some(FileKind { mime: mime.to_string(), extension: ext.to_string() });
    assert_eq!(stored_name_for("pic".to_string(), &[1], kind("image/png", "png")), "pic.png");
    assert_eq!(stored_name_for("pic.jpg".to_string(), &[1], kind("image/png", "png")), "pic.jpg");
    assert_eq!(stored_name_for("bundle".to_string(), &[1], kind("application/zip", "zip")), "bundle");
    assert_eq!(stored_name_for("bundle".to_string(), &[1], None), "bundle");
    assert_eq!(
        stored_name_for("msf_1000".to_string(), &apk_bytes(64, 30), kind("application/zip", "zip")),
        "msf_1000.apk"
    );
    assert_eq!(
        stored_name_for("app.bin".to_string(), &apk_bytes(64, 30), None),
        "app.bin"
    );
}

#[test]
fn stored_name_classifies_first_chunk() {
    assert_eq!(choose_stored_name("pic".to_string(), &png_bytes()), "pic.png");
    assert_eq!(choose_stored_name("msf_1000".to_string(), &apk_bytes(64, 30)), "msf_1000.apk");
    assert_eq!(choose_stored_name("bundle".to_string(), &plain_zip(64)), "bundle");
    assert_eq!(choose_stored_name("blob".to_string(), &[0u8; 40]), "blob");
}

#[test]
fn classifier_handles_empty_content() {
    assert_eq!(choose_outgoing_name("msf_7".to_string(), &[]), "msf_7");
    assert_eq!(choose_stored_name("blob".to_string(), &[]), "blob");
    assert_eq!(choose_storage_mime("blob", &[]), None);
}

#[test]
fn storage_mime_prefers_apk() {
    let kind = |mime: &str, ext: &str| Some(FileKind { mime: mime.to_string(), extension: ext.to_string() });
    assert_eq!(storage_mime_for("a.apk", &[1], None), Some(APK_MIME.to_string()));
    assert_eq!(storage_mime_for("a", &apk_bytes(64, 30), None), Some(APK_MIME.to_string()));
    assert_eq!(storage_mime_for("a", &[1], kind("image/png", "png")), Some("image/png".to_string()));
    assert_eq!(storage_mime_for("a", &[1], None), None);
    let mut empty_archive = vec![0x50, 0x4B, 0x05, 0x06];
    empty_archive.extend_from_slice(b"....AndroidManifest....");
    assert_eq!(
        storage_mime_for("a", &empty_archive, kind("application/zip", "zip")),
        Some(APK_MIME.to_string())
    );
    assert_eq!(
        storage_mime_for("a", &plain_zip(64), kind("application/zip", "zip")),
        Some("application/zip".to_string())
    );
}

#[test]
fn storage_mime_classifies_content() {
    assert_eq!(choose_storage_mime("pic", &png_bytes()), Some("image/png".to_string()));
    assert_eq!(choose_storage_mime("pic", &plain_zip(64)), Some("application/zip".to_string()));
    assert_eq!(choose_storage_mime("pic", &apk_bytes(64, 30)), Some(APK_MIME.to_string()));
}

#[test]
fn mime_type_follows_the_classifier() {
    let kind = |mime: &str, ext: &str| Some(FileKind { mime: mime.to_string(), extension: ext.to_string() });
    assert_eq!(mime_type_for("bundle", Some(&[1, 2]), kind("application/zip", "zip")), "application/zip");
    assert_eq!(mime_type_for("bundle", Some(&[1, 2]), None), OCTET);
    assert_eq!(mime_type_for("bundle", None, kind("application/zip", "zip")), OCTET);
    assert_eq!(mime_type_for("bundle.APK", Some(&[1, 2]), kind("application/zip", "zip")), APK_MIME);
    assert_eq!(
        mime_type_for("bundle", Some(&apk_bytes(64, 30)), kind("application/zip", "zip")),
        APK_MIME
    );
}

#[test]
fn package_under_placeholder_name_keeps_its_name() {
    let mut data = vec![0x50, 0x4B, 0x03, 0x04];
    data.extend_from_slice(&[0u8; 27]);
    data.extend_from_slice(b"AndroidManifest");
    assert_eq!(choose_outgoing_name("msf_1000".to_string(), &data), "msf_1000.apk");
    assert_eq!(get_mime_type_for_file("msf_1000.apk", Some(&data)), APK_MIME);
    assert_eq!(get_mime_type_for_file("msf_1000", Some(&data)), APK_MIME);
}

#[test]
fn plain_zip_is_tagged_as_zip() {
    let mut data = vec![0x50, 0x4B, 0x03, 0x04];
    data.extend_from_slice(&[0u8; 60]);
    assert_eq!(get_mime_type_for_file("bundle", Some(&data)), "application/zip");
}
