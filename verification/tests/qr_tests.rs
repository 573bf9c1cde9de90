use qrlink::api::HealthApi;
use qrlink::api::ImageApi;
use qrlink::api::ImageResponse;
use qrlink::api::VersionApi;
use qrlink::qr::payload_text;
use qrlink::qr::GenerateOutcome;
use qrlink::qr::QrCodeGenerator;
use qrlink::qr::QrImageType;
use qrlink::qr::SavePlan;
use qrlink::registry::QrCodeDatabase;
use qrlink::text::dec_text;
use qrlink::text::uuid_text;

const SERVER: &str = "https://sho.rt";
const LINK: &str = "https://example.com/a";
const ID: u128 = 0x123e_4567_e89b_12d3_a456_4266_1417_4000;

fn generator() -> QrCodeGenerator {
    QrCodeGenerator {
        server_url: SERVER.to_string(),
        image_base_path: "/var/images".to_string(),
    }
}

fn seeded() -> QrCodeDatabase {
    let mut db = QrCodeDatabase::new();
    db.create_with(LINK, ID, "secret".to_string(), 1000)
        .expect("creation failed");
    db
}

fn payload() -> String {
    format!("{}/redirect?id={}", SERVER, uuid::Uuid::from_u128(ID))
}

#[test]
fn uuid_text_matches_the_uuid_crate() {
    assert_eq!(uuid_text(0), "00000000-0000-0000-0000-000000000000");
    assert_eq!(uuid_text(ID), "123e4567-e89b-12d3-a456-426614174000");
    for _ in 0..16 {
        let u = uuid::Uuid::new_v4();
        assert_eq!(uuid_text(u.as_u128()), u.to_string());
    }
    assert_eq!(uuid_text(u128::MAX), "ffffffff-ffff-ffff-ffff-ffffffffffff");
}

#[test]
fn dec_text_renders_exact_decimals() {
    assert_eq!(dec_text(0), "0");
    assert_eq!(dec_text(7), "7");
    assert_eq!(dec_text(10), "10");
    assert_eq!(dec_text(203), "203");
    assert_eq!(dec_text(u32::MAX), "4294967295");
}

#[test]
fn payload_is_the_canonical_redirect_url() {
    assert_eq!(payload_text(SERVER, ID), payload());
}

#[test]
fn svg_output_matches_the_reference_renderer() {
    let db = seeded();
    let bytes = match generator().generate(&db, ID, QrImageType::Svg) {
        GenerateOutcome::Image(bytes) => bytes,
        _ => panic!("svg generation failed"),
    };
    let code = qrcode::QrCode::new(payload().as_bytes()).expect("encoding failed");
    let expected = code
        .render::<qrcode::render::svg::Color>()
        .min_dimensions(200, 200)
        .dark_color(qrcode::render::svg::Color("#000000"))
        .light_color(qrcode::render::svg::Color("#ffffff"))
        .build();
    assert_eq!(bytes, expected.into_bytes());
}

#[test]
fn svg_viewport_is_at_least_200_units() {
    let db = seeded();
    let bytes = match generator().generate(&db, ID, QrImageType::Svg) {
        GenerateOutcome::Image(bytes) => bytes,
        _ => panic!("svg generation failed"),
    };
    let text = String::from_utf8(bytes).expect("svg is not utf-8");
    let start = text.find("width=\"").expect("no width attribute") + "width=\"".len();
    let end = start + text[start..].find('"').expect("unterminated width attribute");
    let width: u32 = text[start..end].parse().expect("width is not a number");
    assert!(width >= 200, "viewport width {width} is below 200");
    assert!(text.contains("fill=\"#000000\""));
    assert!(text.contains("fill=\"#ffffff\""));
}

#[test]
fn png_output_decodes_back_to_the_reference_bitmap() {
    let db = seeded();
    let bytes = match generator().generate(&db, ID, QrImageType::Png) {
        GenerateOutcome::Image(bytes) => bytes,
        _ => panic!("png generation failed"),
    };
    let decoded = image::load_from_memory(&bytes).expect("png does not decode").to_luma8();
    let code = qrcode::QrCode::new(payload().as_bytes()).expect("encoding failed");
    let expected = code.render::<image::Luma<u8>>().build();
    assert_eq!(decoded.dimensions(), expected.dimensions());
    assert_eq!(decoded.into_raw(), expected.into_raw());
}

#[test]
fn jpeg_output_decodes_to_the_right_dimensions() {
    let db = seeded();
    let bytes = match generator().generate(&db, ID, QrImageType::Jpg) {
        GenerateOutcome::Image(bytes) => bytes,
        _ => panic!("jpeg generation failed"),
    };
    let decoded = image::load_from_memory(&bytes).expect("jpeg does not decode").to_luma8();
    let code = qrcode::QrCode::new(payload().as_bytes()).expect("encoding failed");
    let side = (code.width() as u32 + 8) * 8;
    assert_eq!(decoded.dimensions(), (side, side));
    // The corner lies in the quiet zone: white, up to lossy wobble.
    assert!(decoded.get_pixel(0, 0).0[0] > 200);
}

#[test]
fn generate_on_a_never_created_id_yields_not_found() {
    let db = seeded();
    let other: u128 = 99;
    assert!(matches!(
        generator().generate(&db, other, QrImageType::Png),
        GenerateOutcome::NotFound
    ));
    assert!(matches!(
        ImageApi.get_image(&generator(), &db, other, QrImageType::Svg),
        ImageResponse::NotFound(_)
    ));
}

#[test]
fn image_api_labels_each_format() {
    let db = seeded();
    let generator = generator();
    assert!(matches!(
        ImageApi.get_image(&generator, &db, ID, QrImageType::Png),
        ImageResponse::Png(_)
    ));
    assert!(matches!(
        ImageApi.get_image(&generator, &db, ID, QrImageType::Jpg),
        ImageResponse::Jpg(_)
    ));
    match ImageApi.get_image(&generator, &db, ID, QrImageType::Svg) {
        ImageResponse::Svg(_bytes, disposition) => assert_eq!(disposition, "inline"),
        _ => panic!("svg response has the wrong variant"),
    }
}

#[test]
fn generate_and_save_plans_the_png_of_the_stored_target() {
    let db = seeded();
    let (bytes, path) = match generator().generate_and_save(&db, ID) {
        SavePlan::Write(bytes, path) => (bytes, path),
        _ => panic!("save planning failed"),
    };
    assert_eq!(path, format!("/var/images/{}.png", uuid::Uuid::from_u128(ID)));
    let decoded = image::load_from_memory(&bytes).expect("png does not decode").to_luma8();
    let code = qrcode::QrCode::new(LINK.as_bytes()).expect("encoding failed");
    let expected = code.render::<image::Luma<u8>>().build();
    assert_eq!(decoded.into_raw(), expected.into_raw());
    assert!(matches!(generator().generate_and_save(&db, 5), SavePlan::NotFound));
}

#[test]
fn health_and_version_report_fixed_texts() {
    assert_eq!(HealthApi.health_check(), "I am still alive!");
    let v = VersionApi.version("api", "1.0.0", "service", "0.2.0");
    assert_eq!(v, "api: 1.0.0\nservice: 0.2.0");
}

#[test]
fn an_overlong_payload_yields_an_encoding_error() {
    let mut db = QrCodeDatabase::new();
    // A valid URL whose path is far beyond the largest symbol's capacity.
    let long_link = format!("https://example.com/{}", "a".repeat(3000));
    db.create_with(&long_link, ID, "secret".to_string(), 1000)
        .expect("creation failed");
    assert!(matches!(
        generator().generate_and_save(&db, ID),
        SavePlan::EncodingError
    ));
    let giant_server = format!("https://{}.example.com", "s".repeat(3000));
    let wide = QrCodeGenerator {
        server_url: giant_server,
        image_base_path: "/var/images".to_string(),
    };
    assert!(matches!(
        wide.generate(&db, ID, QrImageType::Png),
        GenerateOutcome::EncodingError
    ));
}
