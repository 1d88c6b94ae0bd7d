use actix_web::http::Method;
use actix_web::test::TestRequest;
use actix_web::HttpRequest;
use image::DynamicImage;
use image::GenericImageView;
use image::ImageFormat;
use image::Rgb;
use std::io::Cursor;
use webp_convert_api::web::bytes_equal;
use webp_convert_api::web::check_apikey;
use webp_convert_api::web::check_presented_key;
use webp_convert_api::web::health_check::check_action;
use webp_convert_api::web::response::Response;
use webp_convert_api::web::webp_convert::refusal;
use webp_convert_api::web::webp_convert::webp_convert;
use webp_convert_api::web::webp_convert::webp_resize;
use webp_convert_api::web::webp_convert::TranscodeError;
use webp_convert_api::web::WebserverData;
use webp_convert_api::web::API_KEY_HEADER;
use webp_convert_api::web::MAX_SIZE_BYTES_20MB;

fn data() -> WebserverData {
    WebserverData { apikey: "abcdef".to_string() }
}

fn test_image() -> Vec<u8> {
    let image = DynamicImage::ImageRgb8(image::RgbImage::from_fn(48, 40, |x, y| {
        Rgb([(x * 5 % 256) as u8, (y * 6 % 256) as u8, 128])
    }));
    let mut bytes = Vec::new();
    image.write_to(&mut Cursor::new(&mut bytes), ImageFormat::Png).expect("a PNG");
    bytes
}

fn bad_image() -> Vec<u8> {
    vec![0xff, 0xd8, 0xff, 0xe0, 0x00, 0x10, b'J', b'F', b'I', b'F', 0x00, 0x01]
}

fn request(uri: &str, key: Option<&'static str>) -> HttpRequest {
    let request = TestRequest::with_uri(uri)
        .method(Method::POST)
        .insert_header(("content-type", "image/png"));
    match key {
        Some(key) => request.insert_header(("x-api-key", key)).to_http_request(),
        None => request.to_http_request(),
    }
}

#[test]
fn test_should_convert_image_to_webp() {
    let data = data();
    let image_data = test_image();
    assert!(image_data.len() > 0);

    let request = request("/convert", Some("abcdef"));
    let res = webp_convert(&data, &request, &image_data);
    println!("{:?}", res.status);
    assert!((200..300).contains(&res.status));
    assert_eq!(res.status, 200);
    assert_eq!(res.content_type.as_deref(), Some("image/webp"));

    let webp_data = res.body.clone();
    assert!(webp_data.len() > 0);
    assert!(image::load_from_memory(&webp_data).is_ok());
}

#[test]
fn test_should_resize_image() {
    let data = data();
    let image_data = test_image();
    assert!(image_data.len() > 0);

    let request = request("/resize/100/100", Some("abcdef"));
    let res = webp_resize(&data, (100, 100), &request, &image_data);
    println!("{:?}", res.status);
    assert!((200..300).contains(&res.status));
    assert_eq!(res.content_type.as_deref(), Some("image/webp"));

    let webp_data = res.body.clone();
    assert!(webp_data.len() > 0);
    let image = image::load_from_memory(&webp_data).expect("failed to load image");

    assert_eq!(image.width(), 100);
    assert_eq!(image.height(), 100);
}

#[test]
fn test_should_reject_non_image() {
    let data = data();
    let image_data = bad_image();
    assert!(image_data.len() > 0);

    let request = request("/convert", Some("abcdef"));
    let res = webp_convert(&data, &request, &image_data);
    println!("{:?}", res.status);
    assert_eq!(res.status, 400);
    assert_eq!(res.content_type, None);
    assert_eq!(res.body, b"provided data is not an image".to_vec());
}

#[test]
fn test_should_reject_missing_apikey() {
    let data = data();
    let image_data = bad_image();
    assert!(image_data.len() > 0);

    let request = request("/convert", None);
    let res = webp_convert(&data, &request, &image_data);
    println!("{:?}", res.status);
    assert_eq!(res.status, 401);
    assert_eq!(res.body, b"Unauthorized".to_vec());
}

#[test]
fn wrong_key_is_rejected_whatever_the_body() {
    let data = data();
    for key in ["abcde", "abcdefg", "ABCDEF", "", " abcdef"] {
        let request = request("/convert", Some(key));
        for body in [bad_image(), test_image(), Vec::new()] {
            let res = webp_convert(&data, &request, &body);
            assert_eq!(res.status, 401);
            assert_eq!(res.content_type, None);
            assert_eq!(res.body, b"Unauthorized".to_vec());
            let res = webp_resize(&data, (10, 10), &request, &body);
            assert_eq!(res.status, 401);
            assert_eq!(res.body, b"Unauthorized".to_vec());
        }
    }
}

#[test]
fn resize_without_key_is_rejected() {
    let res = webp_resize(&data(), (100, 100), &request("/resize/100/100", None), &test_image());
    assert_eq!(res.status, 401);
}

#[test]
fn oversized_payload_is_rejected() {
    let data = data();
    let payload = vec![0u8; MAX_SIZE_BYTES_20MB + 1];
    let res = webp_convert(&data, &request("/convert", Some("abcdef")), &payload);
    assert_ne!(res.status, 200);
    assert_eq!(res.status, 413);
    let res = webp_resize(&data, (1, 1), &request("/resize/1/1", Some("abcdef")), &payload);
    assert_eq!(res.status, 413);
    let res = webp_convert(&data, &request("/convert", None), &payload);
    assert_eq!(res.status, 401);
}

#[test]
fn payload_at_the_limit_reaches_the_transcoder() {
    assert_eq!(MAX_SIZE_BYTES_20MB, 20 * 1024 * 1024);
    let payload = vec![0u8; MAX_SIZE_BYTES_20MB];
    let res = webp_convert(&data(), &request("/convert", Some("abcdef")), &payload);
    assert_eq!(res.status, 400);
}

#[test]
fn resize_answers_by_the_outcome() {
    let data = data();
    let request = request("/resize/0/0", Some("abcdef"));
    let res = webp_resize(&data, (0, 0), &request, &test_image());
    assert_eq!(res.status, 500);
    assert_eq!(res.body, b"Failed to convert image to WebP".to_vec());
    let res = webp_resize(&data, (u32::MAX, u32::MAX), &request, &test_image());
    assert_eq!(res.status, 400);
    assert_eq!(res.body, b"requested size is too large".to_vec());
    let res = webp_resize(&data, (7, 90), &request, &test_image());
    assert_eq!(res.status, 200);
    let image = image::load_from_memory(&res.body).expect("decodes");
    assert_eq!(image.dimensions(), (7, 90));
}

#[test]
fn api_key_header_is_found_whatever_its_case() {
    assert_eq!(API_KEY_HEADER, "x-api-key");
    let upper = TestRequest::default().insert_header(("X-API-KEY", "abcdef")).to_http_request();
    assert!(check_apikey("abcdef", &upper));
    let mixed = TestRequest::default().insert_header(("X-Api-Key", "abcdef")).to_http_request();
    assert!(check_apikey("abcdef", &mixed));
    assert!(!check_apikey("abcdeg", &mixed));
}

#[test]
fn api_key_is_compared_byte_for_byte() {
    let request = TestRequest::default().insert_header(("x-api-key", "abcdef")).to_http_request();
    assert!(check_apikey("abcdef", &request));
    assert!(!check_apikey("abcde", &request));
    assert!(!check_apikey("abcdefg", &request));
    assert!(!check_apikey("Abcdef", &request));
    assert!(!check_apikey("", &request));
    let other = TestRequest::default().insert_header(("x-api-keys", "abcdef")).to_http_request();
    assert!(!check_apikey("abcdef", &other));
    let none = TestRequest::default().to_http_request();
    assert!(!check_apikey("abcdef", &none));
    assert!(!check_apikey("", &none));
    let empty = TestRequest::default().insert_header(("x-api-key", "")).to_http_request();
    assert!(check_apikey("", &empty));
    assert!(!check_apikey("a", &empty));
}

#[test]
fn first_of_several_keys_counts() {
    let request = TestRequest::default()
        .append_header(("x-api-key", "first"))
        .append_header(("x-api-key", "second"))
        .to_http_request();
    assert!(check_apikey("first", &request));
    assert!(!check_apikey("second", &request));
}

#[test]
fn presented_key_is_checked() {
    assert!(check_presented_key("abcdef", Some(b"abcdef")));
    assert!(!check_presented_key("abcdef", Some(b"abcdeF")));
    assert!(!check_presented_key("abcdef", Some(b"abc")));
    assert!(!check_presented_key("abcdef", None));
    assert!(!check_presented_key("", None));
    assert!(check_presented_key("", Some(b"")));
    assert!(check_presented_key("cl\u{e9}", Some(&[b'c', b'l', 0xc3, 0xa9])));
    assert!(!check_presented_key("cl\u{e9}", Some(&[b'c', b'l', 0xe9])));
}

#[test]
fn bytes_are_compared() {
    assert!(bytes_equal(b"", b""));
    assert!(bytes_equal(b"abc", b"abc"));
    assert!(!bytes_equal(b"abc", b"abd"));
    assert!(!bytes_equal(b"abc", b"ab"));
    assert!(!bytes_equal(b"", b"a"));
}

#[test]
fn refusal_comes_before_the_body() {
    assert!(refusal(true, 0).is_none());
    assert!(refusal(true, MAX_SIZE_BYTES_20MB).is_none());
    assert_eq!(refusal(true, MAX_SIZE_BYTES_20MB + 1).expect("refused").status, 413);
    assert_eq!(refusal(false, 0).expect("refused").status, 401);
    assert_eq!(refusal(false, MAX_SIZE_BYTES_20MB + 1).expect("refused").status, 401);
}

#[test]
fn health_check_is_alive() {
    let res = check_action();
    assert_eq!(res.status, 200);
    assert_eq!(res.content_type, None);
    assert!(res.body.is_empty());
}

#[test]
fn responses_by_outcome() {
    let res = Response::from_transcoding(Ok(vec![1, 2, 3]));
    assert_eq!(res.status, 200);
    assert_eq!(res.content_type.as_deref(), Some("image/webp"));
    assert_eq!(res.body, vec![1, 2, 3]);
    let res = Response::from_transcoding(Err(TranscodeError::InvalidImage));
    assert_eq!((res.status, res.content_type), (400, None));
    assert_eq!(res.body, b"provided data is not an image".to_vec());
    let res = Response::from_transcoding(Err(TranscodeError::ResizeTooLarge));
    assert_eq!((res.status, res.content_type), (400, None));
    assert_eq!(res.body, b"requested size is too large".to_vec());
    let res = Response::from_transcoding(Err(TranscodeError::EncodeFailure));
    assert_eq!((res.status, res.content_type), (500, None));
    assert_eq!(res.body, b"Failed to convert image to WebP".to_vec());
    let res = Response::text(418, "caf\u{e9}");
    assert_eq!(res.status, 418);
    assert_eq!(res.body, vec![b'c', b'a', b'f', 0xc3, 0xa9]);
    assert_eq!(Response::payload_too_large().body, b"payload is too large".to_vec());
    assert_eq!(Response::unauthorized().status, 401);
    assert_eq!(Response::error(TranscodeError::EncodeFailure).status, 500);
    assert_eq!(Response::webp(Vec::new()).status, 200);
    assert_eq!(Response::alive().status, 200);
}
