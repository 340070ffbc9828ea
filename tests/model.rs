use doremi::graph::filter_by_crtc;
use doremi::graph::first_of;
use doremi::graph::mask_contains;
use doremi::graph::select_by_mask;
use doremi::layout::fit_to_mode;
use doremi::text::name_from_bytes;
use doremi::ConnectorStatus;
use doremi::ConnectorType;
use doremi::EncoderType;
use doremi::Error;
use doremi::Mode;
use doremi::ModeInfo;
use doremi::ModeType;
use doremi::ObjectType;
use doremi::ClientCapability;

fn name32(s: &str) -> [u8; 32] {
    let mut n = [0u8; 32];
    n[..s.len()].copy_from_slice(s.as_bytes());
    n
}

fn info(w: u16, h: u16, refresh: u32, type_: u32, name: &str) -> ModeInfo {
    ModeInfo {
        clock: 148500,
        hdisplay: w,
        hsync_start: w + 88,
        hsync_end: w + 132,
        htotal: w + 280,
        hskew: 0,
        vdisplay: h,
        vsync_start: h + 4,
        vsync_end: h + 9,
        vtotal: h + 45,
        vscan: 0,
        vrefresh: refresh,
        flags: 5,
        type_,
        name: name32(name),
    }
}

#[test]
fn fit_doubles_a_half_size_image() {
    let p = fit_to_mode(1920, 1080, 960, 540);
    assert_eq!((p.display_w, p.display_h), (1920, 1080));
    assert_eq!((p.margin_w, p.margin_h), (0, 0));
}

#[test]
fn fit_centers_a_narrow_image() {
    let p = fit_to_mode(1920, 1080, 1280, 1080);
    assert_eq!((p.display_w, p.display_h), (1280, 1080));
    assert_eq!((p.margin_w, p.margin_h), (320, 0));
}

#[test]
fn fit_shrinks_a_large_image() {
    let p = fit_to_mode(1920, 1080, 3840, 1080);
    // scale = min(1080/1080, 1920/3840) = 0.5
    assert_eq!((p.display_w, p.display_h), (1920, 540));
    assert_eq!((p.margin_w, p.margin_h), (0, 270));
}

#[test]
fn mask_selects_by_enumeration_index() {
    let ids = vec![50, 51, 52];
    assert_eq!(select_by_mask(0b101, &ids), vec![50, 52]);
    assert_eq!(select_by_mask(0, &ids), Vec::<u32>::new());
    assert_eq!(select_by_mask(u32::MAX, &ids), ids);
    assert!(mask_contains(0b010, &ids, 51));
    assert!(!mask_contains(0b010, &ids, 50));
    assert!(!mask_contains(0b1000, &ids, 52));
}

#[test]
fn mask_ignores_positions_past_32() {
    let ids: Vec<u32> = (0..40).collect();
    let all = select_by_mask(u32::MAX, &ids);
    assert_eq!(all.len(), 32);
    assert!(!mask_contains(u32::MAX, &ids, 35));
}

#[test]
fn planes_are_kept_when_their_mask_selects_the_crtc() {
    let planes = vec![60, 61, 62, 63];
    let masks = vec![0b01, 0b10, 0b11, 0];
    let crtcs = vec![50, 51];
    assert_eq!(filter_by_crtc(&planes, &masks, &crtcs, 51), vec![61, 62]);
    assert_eq!(filter_by_crtc(&planes, &masks, &crtcs, 50), vec![60, 62]);
    assert_eq!(filter_by_crtc(&planes, &masks, &crtcs, 77), Vec::<u32>::new());
}

#[test]
fn first_of_empty_is_none_error() {
    assert_eq!(first_of(&vec![]), Err(Error::NoneError));
    assert_eq!(first_of(&vec![8, 9]), Ok(8));
}

#[test]
fn names_are_trimmed_at_trailing_zeros() {
    assert_eq!(name_from_bytes(&name32("FB_ID")).unwrap(), "FB_ID");
    assert_eq!(name_from_bytes(&[0u8; 32]).unwrap(), "");
    assert_eq!(name_from_bytes(&[b'a', 0, b'b', 0]).unwrap(), "a\u{0}b");
}

#[test]
fn invalid_utf8_name_is_refused() {
    let mut raw = name32("X");
    raw[1] = 0xff;
    assert_eq!(name_from_bytes(&raw).unwrap_err(), Error::StringConversionError);
}

#[test]
fn mode_reports_its_timing() {
    let m = Mode::new(info(1920, 1080, 60, 0x48, "1920x1080")).unwrap();
    assert_eq!(m.width(), 1920);
    assert_eq!(m.height(), 1080);
    assert_eq!(m.refresh(), 60);
    assert_eq!(m.get_name(), "1920x1080");
    assert!(m.has_type(ModeType::Preferred));
    assert!(m.has_type(ModeType::Driver));
    assert!(!m.has_type(ModeType::Default));
    assert_eq!(m.into_inner().hdisplay, 1920);
}

#[test]
fn multi_bit_mode_types_need_every_bit() {
    let m = Mode::new(info(640, 480, 60, 0b10, "a")).unwrap();
    assert!(!m.has_type(ModeType::ClockC));
    assert!(!m.has_type(ModeType::Builtin));
    let m = Mode::new(info(640, 480, 60, 0b11, "a")).unwrap();
    assert!(m.has_type(ModeType::ClockC));
    assert!(m.has_type(ModeType::Builtin));
    assert!(!m.has_type(ModeType::CrtcC));
}

#[test]
fn mode_with_bad_name_is_refused() {
    let mut i = info(640, 480, 60, 0, "");
    i.name[0] = 0xc3;
    assert_eq!(Mode::new(i).unwrap_err(), Error::StringConversionError);
}

#[test]
fn mode_blob_layout() {
    let i = info(1920, 1080, 60, 0x48, "1920x1080");
    let b = i.to_bytes();
    assert_eq!(b.len(), 68);
    assert_eq!(&b[0..4], &148500u32.to_le_bytes());
    assert_eq!(&b[4..6], &1920u16.to_le_bytes());
    assert_eq!(&b[14..16], &1080u16.to_le_bytes());
    assert_eq!(&b[24..28], &60u32.to_le_bytes());
    assert_eq!(&b[28..32], &5u32.to_le_bytes());
    assert_eq!(&b[32..36], &0x48u32.to_le_bytes());
    assert_eq!(&b[36..45], b"1920x1080");
    assert!(b[45..].iter().all(|&x| x == 0));
}

#[test]
fn kernel_codes() {
    assert_eq!(ConnectorStatus::from_code(1), Some(ConnectorStatus::Connected));
    assert_eq!(ConnectorStatus::from_code(3), Some(ConnectorStatus::Unknown));
    assert_eq!(ConnectorStatus::from_code(0), None);
    assert_eq!(ConnectorType::from_code(11), Some(ConnectorType::HDMIA));
    assert_eq!(ConnectorType::from_code(20), None);
    assert_eq!(ConnectorType::HDMIA.name(), "HDMI-A");
    assert_eq!(ConnectorType::EDP.name(), "eDP");
    assert_eq!(EncoderType::from_code(2), Some(EncoderType::TMDS));
    assert_eq!(EncoderType::from_code(8), None);
    assert_eq!(ObjectType::Plane.code(), 0xeeeeeeee);
    assert_eq!(ObjectType::Connector.code(), 0xc0c0c0c0);
    assert_eq!(ClientCapability::Stereo3d.code(), 1);
    assert_eq!(ClientCapability::Atomic.code(), 3);
    assert_eq!(ClientCapability::UniversalPlanes.code(), 2);
}
