use rdr2_config::settings::{get_settings, Setting, XMLSection};
use rdr2_config::system_xml::{build_system_xml, video_card_name};

#[test]
fn document_of_the_catalog() {
    let s = get_settings();
    let doc = build_system_xml(&s, Some("NVIDIA GeForce RTX 3070"));
    assert!(doc.starts_with("<?xml version=\"1.0\" encoding=\"UTF-8\" standalone=\"no\"?>\n<rage__fwuiSystemSettingsCollection>\n"));
    assert!(doc.contains("\n    <version value=\"37\"/>\n"));
    assert!(doc.contains("<configSource>kSettingsConfig_Auto</configSource>"));
    assert!(doc.contains("<screenWidthWindowed value=\"1024\"/>"));
    assert!(doc.contains("<screenHeightWindowed value=\"768\"/>"));
    assert!(doc.contains("<tripleBuffered value=\"true\"/>"));
    assert!(doc.contains("<vSync value=\"0\"/>"));
    assert!(doc.contains("<fxaaEnabled value=\"false\"/>"));
    assert!(doc.contains("<anisotropicFiltering value=\"0\"/>"));
    assert!(doc.contains("<textureQuality>kSettingLevel_Low</textureQuality>"));
    assert!(doc.contains("<API>kSettingAPI_Vulcan</API>"));
    assert!(doc.contains("<waterLightingQuality>kSettingLevel_Ultra</waterLightingQuality>"));
    assert!(doc.contains("<gamma value=\"15\"/>"));
    assert!(doc.contains("<videoCardDescription>NVIDIA GeForce RTX 3070</videoCardDescription>"));
    assert!(doc.ends_with("</rage__fwuiSystemSettingsCollection>\n"));
}

#[test]
fn document_section_order() {
    let s = get_settings();
    let doc = build_system_xml(&s, None);
    let g = doc.find("<graphics>").unwrap();
    let dlss = doc.find("<dlssIndex").unwrap();
    let tex = doc.find("<textureQuality>").unwrap();
    let v = doc.find("<video>").unwrap();
    let adapter = doc.find("<adapterIndex").unwrap();
    let width = doc.find("<screenWidthWindowed").unwrap();
    let a = doc.find("<advancedGraphics>").unwrap();
    let locked = doc.find("<locked").unwrap();
    let api = doc.find("<API>").unwrap();
    let card = doc.find("<videoCardDescription>").unwrap();
    assert!(g < dlss && dlss < tex && tex < v);
    assert!(v < adapter && adapter < width && width < a);
    assert!(a < locked && locked < api && api < card);
}

#[test]
fn document_without_card_name_has_placeholder() {
    let doc = build_system_xml(&[], None);
    assert!(doc.contains("<videoCardDescription>VIDEO_CARD_NAME</videoCardDescription>"));
    assert!(doc.contains("<graphics>"));
}

#[test]
fn document_writes_only_section_settings() {
    let s = vec![
        Setting::multiplier(XMLSection::Graphics, "msaa", "MSAA", 8),
        Setting::on_off(XMLSection::Video, "hdr", "HDR", true),
    ];
    let doc = build_system_xml(&s, Some("X"));
    let v = doc.find("<video>").unwrap();
    let msaa = doc.find("<msaa value=\"0\"/>").unwrap();
    let hdr = doc.find("<hdr value=\"true\"/>").unwrap();
    assert!(msaa < v && v < hdr);
    assert_eq!(doc.matches("<msaa").count(), 1);
}

#[test]
fn card_name_from_existing_document() {
    let text = "<a>\n  <videoCardDescription>Old Card</videoCardDescription>\n  <videoCardDescription>AMD Radeon</videoCardDescription>\n</a>";
    assert_eq!(video_card_name(text), Some("AMD Radeon".to_string()));
}

#[test]
fn card_name_missing() {
    assert_eq!(video_card_name(""), None);
    assert_eq!(video_card_name("<a></a>"), None);
    assert_eq!(video_card_name("<videoCardDescription>no end"), None);
}

#[test]
fn card_name_empty_and_unicode() {
    assert_eq!(video_card_name("<videoCardDescription></videoCardDescription>"), Some(String::new()));
    assert_eq!(video_card_name("é<videoCardDescription>Ünï</x>"), Some("Ünï".to_string()));
}
