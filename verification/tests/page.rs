use jukebox::{qr_code_for, qr_image_for, title_from_page, QrCodeError, QR_MODULE_PIXELS, QR_QUIET_ZONE};

#[test]
fn title_from_open_graph_meta() {
    let page = r#"<html><head><title>Other</title>
        <meta property="og:title" content="Never Gonna Give You Up">
        <meta property="og:title" content="Second">
        </head><body></body></html>"#;
    assert_eq!(title_from_page(page), Some("Never Gonna Give You Up".to_string()));
}

#[test]
fn no_open_graph_title() {
    let page = "<html><head><title>Only a title</title></head></html>";
    assert_eq!(title_from_page(page), None);
}

#[test]
fn open_graph_title_without_content() {
    let page = r#"<html><head><meta property="og:title"></head></html>"#;
    assert_eq!(title_from_page(page), None);
}

#[test]
fn empty_page_has_no_title() {
    assert_eq!(title_from_page(""), None);
}

#[test]
fn qr_code_for_short_address() {
    let symbol = qr_code_for("http://192.168.1.20:8080").unwrap();
    assert!(symbol.width >= 21 && symbol.width <= 177);
    assert_eq!(symbol.dark.len(), symbol.width * symbol.width);
    // the finder pattern's corner module is dark in every QR symbol
    assert!(symbol.dark[0]);
    let other = qr_code_for("http://10.0.0.1:1").unwrap();
    assert_ne!(symbol.dark, other.dark);
}

#[test]
fn qr_code_refuses_too_much_data() {
    let long = "x".repeat(8000);
    assert_eq!(qr_code_for(&long).err(), Some(QrCodeError::DataTooLong));
    assert_eq!(qr_image_for(&long).err(), Some(QrCodeError::DataTooLong));
}

#[test]
fn qr_image_draws_symbol_with_quiet_zone() {
    let destination = "http://192.168.1.20:8080";
    let symbol = qr_code_for(destination).unwrap();
    let image = qr_image_for(destination).unwrap();
    let side = (symbol.width as u32 + 2 * QR_QUIET_ZONE) * QR_MODULE_PIXELS;
    assert_eq!(image.width, side);
    assert_eq!(image.height, side);
    assert_eq!(image.pixels.len(), (side * side) as usize);
    for y in 0..side {
        for x in 0..side {
            let mx = x / QR_MODULE_PIXELS;
            let my = y / QR_MODULE_PIXELS;
            let w = symbol.width as u32;
            let inside = mx >= QR_QUIET_ZONE && mx < w + QR_QUIET_ZONE && my >= QR_QUIET_ZONE && my < w + QR_QUIET_ZONE;
            let dark = inside
                && symbol.dark[((my - QR_QUIET_ZONE) * w + (mx - QR_QUIET_ZONE)) as usize];
            let expected = if dark { 0 } else { 255 };
            assert_eq!(image.pixels[(y * side + x) as usize], expected);
        }
    }
}
