use command_bridge::recovery::cmd_export_recovery_svg;

const SVG: &str = "<svg xmlns=\"http://www.w3.org/2000/svg\" width=\"300\" height=\"150\"><rect width=\"100%\" height=\"100%\" fill=\"#1a1a2e\"/><text x=\"50%\" y=\"50%\" text-anchor=\"middle\" fill=\"#4ade80\" font-size=\"14\">Recovery Key Placeholder</text></svg>";

#[test]
fn export_requires_authentication() {
    match cmd_export_recovery_svg(String::new()) {
        Err(reason) => assert_eq!(reason, "Authentication required"),
        Ok(_) => panic!("an empty auth must be refused"),
    }
}

#[test]
fn export_returns_the_placeholder_as_data_uri() {
    let resp = match cmd_export_recovery_svg("token".to_string()) {
        Ok(resp) => resp,
        Err(reason) => panic!("unexpected refusal: {}", reason),
    };
    assert_eq!(resp.ttl_seconds, 60);
    assert_eq!(
        resp.data_uri,
        "data:image/svg+xml;base64,PHN2ZyB4bWxucz0iaHR0cDovL3d3dy53My5vcmcvMjAwMC9zdmciIHdpZHRoPSIzMDAiIGhlaWdodD0iMTUwIj48cmVjdCB3aWR0aD0iMTAwJSIgaGVpZ2h0PSIxMDAlIiBmaWxsPSIjMWExYTJlIi8+PHRleHQgeD0iNTAlIiB5PSI1MCUiIHRleHQtYW5jaG9yPSJtaWRkbGUiIGZpbGw9IiM0YWRlODAiIGZvbnQtc2l6ZT0iMTQiPlJlY292ZXJ5IEtleSBQbGFjZWhvbGRlcjwvdGV4dD48L3N2Zz4="
    );
}

#[test]
fn exported_image_decodes_to_the_placeholder() {
    let resp = cmd_export_recovery_svg("a".to_string()).ok().unwrap();
    let encoded = resp.data_uri.strip_prefix("data:image/svg+xml;base64,").unwrap();
    let bytes = base64::Engine::decode(&base64::engine::general_purpose::STANDARD, encoded).unwrap();
    assert_eq!(bytes, SVG.as_bytes());
}
