//! Region hashing, image encoding, monitor resolution, and the audio
//! notifier.

use loopautoma::audio::{create_audio_notifier, MockAudioNotifier};
use loopautoma::domain::{Rect, Region};
use loopautoma::hashing::hash_region_bytes;
use loopautoma::imaging::{build_request_content, capture_region_images, image_data_url, MessageContent};
use loopautoma::mocks::MockCapture;
use loopautoma::monitor::{find_monitor_index, MonitorGeometry};
use loopautoma::ports::{AudioNotifier, ScreenCapture};
use loopautoma::textutil::decimal_string;

fn region(id: &str, w: u32, h: u32) -> Region {
    Region { id: id.to_string(), rect: Rect { x: 0, y: 0, width: w, height: h } }
}

fn pixels(n: usize, seed: u8) -> Vec<u8> {
    (0..n).map(|i| (i as u8).wrapping_mul(31).wrapping_add(seed)).collect()
}

#[test]
fn zero_area_region_cannot_be_captured_and_hashes_to_zero() {
    let mut capture = MockCapture::new();
    capture.set_buffer("r1".to_string(), pixels(16, 1));
    let flat = region("r1", 2, 0);
    assert!(capture.capture_region(&flat).is_err());
    assert_eq!(capture.hash_region(&flat, 1), 0);
    let thin = region("r1", 0, 2);
    assert!(capture.capture_region(&thin).is_err());
    assert_eq!(capture.hash_region(&thin, 1), 0);
    assert_eq!(hash_region_bytes(0, 4, 1, &pixels(16, 1)), 0);
    assert_eq!(hash_region_bytes(4, 0, 1, &pixels(16, 1)), 0);
}

#[test]
fn hash_is_deterministic_and_seeded_by_geometry() {
    let buf = pixels(64, 7);
    let h1 = hash_region_bytes(4, 4, 1, &buf);
    let h2 = hash_region_bytes(4, 4, 1, &buf);
    assert_eq!(h1, h2);
    // The same bytes under another geometry or downscale hash differently.
    assert_ne!(h1, hash_region_bytes(8, 2, 1, &buf));
    assert_ne!(h1, hash_region_bytes(4, 4, 2, &buf));
    // A change in the sampled pixels changes the hash.
    let mut other = buf.clone();
    other[0] = other[0].wrapping_add(1);
    assert_ne!(h1, hash_region_bytes(4, 4, 1, &other));
    assert_ne!(h1, 0);
}

#[test]
fn downscale_skips_pixels() {
    // With a stride past the end, only the first chunk is sampled: two
    // buffers differing beyond it hash alike.
    let a = pixels(64, 1);
    let mut b = a.clone();
    b[40] = b[40].wrapping_add(5);
    assert_eq!(hash_region_bytes(4, 4, 100, &a), hash_region_bytes(4, 4, 100, &b));
    // With stride 1 the difference is seen.
    assert_ne!(hash_region_bytes(4, 4, 1, &a), hash_region_bytes(4, 4, 1, &b));
}

#[test]
fn captured_regions_encode_as_png() {
    let mut capture = MockCapture::new();
    capture.set_buffer("r1".to_string(), pixels(16, 3));
    let regions = vec![region("r1", 2, 2)];
    let images = capture_region_images(&regions, &capture).unwrap();
    assert_eq!(images.len(), 1);
    let decoded = image::load_from_memory(&images[0]).unwrap().to_rgba8();
    assert_eq!(decoded.width(), 2);
    assert_eq!(decoded.height(), 2);
    assert_eq!(decoded.into_raw(), pixels(16, 3));
}

#[test]
fn capture_failure_names_the_region() {
    let capture = MockCapture::new();
    let regions = vec![region("missing", 2, 2)];
    let err = capture_region_images(&regions, &capture).unwrap_err();
    assert!(err.starts_with("Failed to capture region 'missing': "));
}

#[test]
fn data_url_carries_standard_base64() {
    let url = image_data_url(&vec![0u8, 1, 2]).unwrap();
    assert_eq!(url, "data:image/png;base64,AAEC");
    // Padded case, cross-checked against the encoder itself.
    let bytes = vec![255u8, 0, 100, 7];
    let url2 = image_data_url(&bytes).unwrap();
    let expected = base64::Engine::encode(&base64::engine::general_purpose::STANDARD, &bytes);
    assert_eq!(url2, format!("data:image/png;base64,{}", expected));
}

#[test]
fn request_content_lists_message_then_images() {
    let images = vec![vec![1u8, 2, 3], vec![4u8, 5]];
    let content = build_request_content("sys".to_string(), &images).unwrap();
    assert_eq!(content.len(), 3);
    match &content[0] {
        MessageContent::Text { text } => assert_eq!(text, "sys"),
        _ => panic!("expected the system text first"),
    }
    match &content[1] {
        MessageContent::ImageUrl { url } => assert!(url.starts_with("data:image/png;base64,")),
        _ => panic!("expected an image url"),
    }
}

#[test]
fn monitor_containing_the_region_wins() {
    let monitors = vec![
        MonitorGeometry { x: 0, y: 0, width: 1920, height: 1080 },
        MonitorGeometry { x: 1920, y: 0, width: 1280, height: 1024 },
    ];
    let on_second = Rect { x: 2000, y: 100, width: 300, height: 200 };
    assert_eq!(find_monitor_index(&monitors, &on_second), Some(1));
    let on_first = Rect { x: 10, y: 10, width: 100, height: 100 };
    assert_eq!(find_monitor_index(&monitors, &on_first), Some(0));
    // Nowhere contained: fall back to the first monitor.
    let outside = Rect { x: 5000, y: 5000, width: 10, height: 10 };
    assert_eq!(find_monitor_index(&monitors, &outside), Some(0));
    let none: Vec<MonitorGeometry> = Vec::new();
    assert_eq!(find_monitor_index(&none, &on_first), None);
}

#[test]
fn decimal_rendering_is_exact() {
    assert_eq!(decimal_string(0), "0");
    assert_eq!(decimal_string(7), "7");
    assert_eq!(decimal_string(12345), "12345");
    assert_eq!(decimal_string(u64::MAX), "18446744073709551615");
}

#[test]
fn mock_audio_notifier_works() {
    let mut notifier = MockAudioNotifier::new();
    assert!(notifier.is_enabled());

    assert!(notifier.play_intervention_needed().is_ok());
    assert!(notifier.play_profile_ended().is_ok());

    notifier.set_enabled(false);
    assert!(!notifier.is_enabled());
    assert!(notifier.play_intervention_needed().is_err());
}

#[test]
fn volume_bounds_enforced() {
    // Volume is carried in hundredths of the full scale: 0, 50 and 100 are
    // the bottom, the middle and the top; anything above 100 is out of bounds.
    let mut notifier = MockAudioNotifier::new();
    assert!(notifier.set_volume(0).is_ok());
    assert!(notifier.set_volume(100).is_ok());
    assert!(notifier.set_volume(50).is_ok());
    assert!(notifier.set_volume(101).is_err());
    assert!(notifier.set_volume(110).is_err());
}

#[test]
fn default_notifier_is_available() {
    let notifier = create_audio_notifier().unwrap();
    assert!(notifier.is_enabled());
}

#[test]
fn test_key_lifecycle() {
    // Credential storage lives outside the library, against the host's
    // keyring; only its integration environment can exercise it.
}
