use command_bridge::recovery_export::{
    export_recovery_image, generate_recovery_phrase, SensitiveRecoveryData,
};

#[test]
fn generated_phrase_has_twelve_words() {
    let phrase = generate_recovery_phrase().unwrap();
    assert_eq!(phrase.split(' ').count(), 12);
    assert!(phrase.split(' ').all(|w| !w.is_empty()));
    assert!(!phrase.starts_with(' '));
    assert!(!phrase.ends_with(' '));
    assert!(!phrase.contains("  "));
    assert_eq!(phrase.matches(' ').count(), 11);
}

#[test]
fn exported_image_is_a_png_in_base64() {
    let phrase = "crop cash unable insane eight faith inflict route frame loud box vibrant";
    let encoded = export_recovery_image(phrase.to_string()).unwrap();
    let png =
        base64::Engine::decode(&base64::engine::general_purpose::STANDARD, &encoded).unwrap();
    assert_eq!(&png[..8], &[0x89, b'P', b'N', b'G', 0x0d, 0x0a, 0x1a, 0x0a]);
    let width = u32::from_be_bytes([png[16], png[17], png[18], png[19]]);
    let height = u32::from_be_bytes([png[20], png[21], png[22], png[23]]);
    assert!(width >= 200);
    assert_eq!(width, height);
}

#[test]
fn exported_image_depends_on_the_phrase_alone() {
    let a = export_recovery_image("alpha".to_string()).unwrap();
    let b = export_recovery_image("alpha".to_string()).unwrap();
    let c = export_recovery_image("beta".to_string()).unwrap();
    assert_eq!(a, b);
    assert_ne!(a, c);
}

#[test]
fn too_long_a_phrase_is_refused() {
    let long = "x".repeat(8000);
    assert!(export_recovery_image(long).is_err());
}

#[test]
fn sensitive_data_holds_phrase_and_image() {
    let data = SensitiveRecoveryData { phrase: "a b".to_string(), svg_base64: "QQ==".to_string() };
    assert_eq!(data.phrase, "a b");
    assert_eq!(data.svg_base64, "QQ==");
}
