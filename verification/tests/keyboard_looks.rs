use warmup_companion::controller_art::{
    art_bitmap, art_pixels, decode_error, load_art, premultiply, swap_red_blue, DecodedPng,
    PngFailure, CONTROLLER_ART_MAX_EDGE,
};
use warmup_companion::downscale::downscale_bgra_premul;
use warmup_companion::icon_raster::{
    icon_bitmap, icon_pixels, icon_request, raster_px, IconFailure,
};
use warmup_companion::keys::{
    KeyAction, KeyCell, KeyPos, KeyRow, VkStyle, VK_BACK, VK_LEFT, VK_RETURN, VK_SPACE,
};
use warmup_companion::monitor::ScreenRect;
use warmup_companion::vk_device::{
    create_d3d_device, families, fonts_are_current, locale_units, resize, resolve_family,
    DeviceAttempt, Driver,
};
use warmup_companion::vk_frame::{
    card_plan, face_colors, nimbus_mood, plan_frame, strip_buttons, strip_chips, strip_clock,
    strip_columns, strip_is_empty, styled_glyph, Badge, Chip, Column, FaceContent, FaceFill,
    FaceFont, FrameState, NimbusMood, NimbusSlot, NimbusStep, StripState,
};
use warmup_companion::vk_icons::{IconSource, VkIcon};
use warmup_companion::vk_renderer::{
    caps_icon, colorref_hex, is_action_key, recolored_svg, rgb, shift_icon, strip_slots,
    style_palette, ControllerArt, ControllerIconFamily, VkModifiers, VoicePhase,
};

#[test]
fn modifier_glyphs_map_verbatim() {
    // The Shift key reflects `shift`; the CapsLock key reflects `caps`.
    assert_eq!(shift_icon(true), VkIcon::CapsFilled);
    assert_eq!(shift_icon(false), VkIcon::Caps);
    assert_eq!(caps_icon(true), VkIcon::ShiftFilled);
    assert_eq!(caps_icon(false), VkIcon::Shift);
}

#[test]
fn controller_art_matches_device_families() {
    assert_eq!(
        ControllerArt::from_label("DualSense Wireless Controller"),
        Some(ControllerArt::DualSense)
    );
    assert_eq!(
        ControllerArt::from_label("Xbox Wireless Controller"),
        Some(ControllerArt::XboxOne)
    );
    // Slot labels on the secure desktop: HID = PlayStation, XInput = Xbox.
    assert_eq!(
        ControllerArt::from_label("HID slot 0"),
        Some(ControllerArt::DualSense)
    );
    assert_eq!(
        ControllerArt::from_label("XInput slot 0"),
        Some(ControllerArt::XboxOne)
    );
    assert_eq!(ControllerArt::from_label("none"), None);
}

#[test]
fn controller_icons_use_ps5_for_playstation_and_xbox_as_generic() {
    assert_eq!(
        ControllerIconFamily::from_label("DualSense Wireless Controller"),
        ControllerIconFamily::Ps5
    );
    assert_eq!(
        ControllerIconFamily::from_label("HID slot 0"),
        ControllerIconFamily::Ps5
    );
    assert_eq!(
        ControllerIconFamily::from_label("Xbox Wireless Controller"),
        ControllerIconFamily::Xbox
    );
    assert_eq!(
        ControllerIconFamily::from_label("Nintendo Pro Controller"),
        ControllerIconFamily::Xbox
    );
    assert_eq!(
        ControllerIconFamily::from_label("none"),
        ControllerIconFamily::Xbox
    );
    assert_eq!(
        ControllerIconFamily::Ps5.hint_icon("X"),
        Some(VkIcon::Ps5Square)
    );
    assert_eq!(
        ControllerIconFamily::Xbox.hint_icon("X"),
        Some(VkIcon::XboxX)
    );
    assert_eq!(ControllerIconFamily::Xbox.hint_icon("unknown"), None);
}

#[test]
fn apple_style_relabels_keys_like_ios() {
    let apple = VkStyle::Apple;
    let refined = VkStyle::Refined;
    assert_eq!(styled_glyph(apple, &KeyAction::Char('q'), "q".into()), "Q");
    assert_eq!(styled_glyph(refined, &KeyAction::Char('q'), "q".into()), "q");
    assert_eq!(styled_glyph(apple, &KeyAction::Symbols, "?123".into()), "123");
    assert_eq!(styled_glyph(refined, &KeyAction::Symbols, "?123".into()), "?123");
    assert_eq!(styled_glyph(apple, &KeyAction::Char(';'), ";".into()), ";");
    assert!(is_action_key(&KeyAction::Shift));
    assert!(!is_action_key(&KeyAction::Char('a')));
    assert!(!is_action_key(&KeyAction::Vk(VK_SPACE)));
    assert_eq!(strip_slots(VkStyle::Refined), 7);
    assert_eq!(strip_slots(VkStyle::Apple), 3);
}

fn target(sw: u32, sh: u32, max_edge: u32) -> (u32, u32) {
    let scale = max_edge as f32 / sw.max(sh) as f32;
    (
        ((sw as f32 * scale).round() as u32).max(1),
        ((sh as f32 * scale).round() as u32).max(1),
    )
}

#[test]
fn downscale_box_filter_shrinks_and_averages() {
    // 2x2 premultiplied-BGRA source averaged to a single pixel.
    // Pixels: (b,g,r,a) = (0,0,0,0), (40,40,40,40), (80,80,80,80), (120,120,120,120)
    let src = vec![
        0, 0, 0, 0, 40, 40, 40, 40, 80, 80, 80, 80, 120, 120, 120, 120,
    ];
    let (tw, th) = target(2, 2, 1);
    let (out, w, h) = downscale_bgra_premul(&src, 2, 2, 1, tw, th);
    assert_eq!((w, h), (1, 1));
    // Mean of {0,40,80,120} = 60 in every channel.
    assert_eq!(out, vec![60, 60, 60, 60]);
}

#[test]
fn downscale_passes_through_when_already_small() {
    let src = vec![1, 2, 3, 4, 5, 6, 7, 8];
    let (tw, th) = target(2, 1, 64);
    let (out, w, h) = downscale_bgra_premul(&src, 2, 1, 64, tw, th);
    assert_eq!((w, h), (2, 1));
    assert_eq!(out, src);
}

#[test]
fn downscale_averages_uneven_spans() {
    // Three pixels to two: the first alone, the last two together.
    let src = vec![10, 10, 10, 10, 20, 20, 20, 20, 40, 40, 40, 40];
    let (out, w, h) = downscale_bgra_premul(&src, 3, 1, 2, 2, 1);
    assert_eq!((w, h), (2, 1));
    assert_eq!(out, vec![10, 10, 10, 10, 30, 30, 30, 30]);
    assert_eq!(downscale_bgra_premul(&[], 0, 900, 384, 1, 1), (Vec::new(), 0, 900));
}

fn png_of(width: u32, height: u32, color: png::ColorType, data: &[u8]) -> Vec<u8> {
    let mut file = Vec::new();
    let mut encoder = png::Encoder::new(&mut file, width, height);
    encoder.set_color(color);
    encoder.set_depth(png::BitDepth::Eight);
    let mut writer = encoder.write_header().unwrap();
    writer.write_image_data(data).unwrap();
    writer.finish().unwrap();
    file
}

#[test]
fn artwork_is_decoded_to_premultiplied_bgra() {
    let file = png_of(2, 1, png::ColorType::Rgba, &[200, 100, 50, 255, 200, 100, 50, 128]);
    let art = load_art(ControllerArt::DualSense, &file).unwrap();
    assert_eq!((art.width, art.height), (2, 1));
    assert_eq!(art.bgra, vec![50, 100, 200, 255, 25, 50, 100, 128]);
    let file = png_of(1, 2, png::ColorType::Rgb, &[1, 2, 3, 4, 5, 6]);
    let art = load_art(ControllerArt::XboxOne, &file).unwrap();
    assert_eq!((art.width, art.height), (1, 2));
    assert_eq!(art.bgra, vec![3, 2, 1, 255, 6, 5, 4, 255]);
}

#[test]
fn artwork_without_colours_is_refused() {
    let file = png_of(1, 1, png::ColorType::Grayscale, &[9]);
    assert_eq!(
        load_art(ControllerArt::DualSense, &file).unwrap_err(),
        "controller art DualSense: unsupported PNG color Grayscale"
    );
    let e = load_art(ControllerArt::XboxOne, b"not a picture").unwrap_err();
    assert!(e.starts_with("decode controller art XboxOne: "), "{e}");
    let whole = png_of(4, 4, png::ColorType::Rgb, &[7; 48]);
    let e = load_art(ControllerArt::XboxOne, &whole[..whole.len() - 24]).unwrap_err();
    assert!(e.starts_with("read controller art XboxOne: "), "{e}");
    assert_eq!(
        decode_error(ControllerArt::DualSense, &PngFailure::UnknownSize),
        "controller art DualSense: unknown decoded size"
    );
}

#[test]
fn pixels_are_converted_exactly() {
    assert_eq!(premultiply(255, 128), 128);
    assert_eq!(premultiply(100, 255), 100);
    assert_eq!(premultiply(100, 0), 0);
    let frame = DecodedPng {
        width: 1,
        height: 1,
        color: 3,
        depth: 8,
        bytes: vec![1],
    };
    assert_eq!(
        art_pixels(ControllerArt::XboxOne, &frame).unwrap_err(),
        "controller art XboxOne: unsupported PNG color Indexed"
    );
    let mut px = vec![1, 2, 3, 4, 5, 6, 7, 8, 9];
    swap_red_blue(&mut px);
    assert_eq!(px, vec![3, 2, 1, 4, 7, 6, 5, 8, 9]);
    swap_red_blue(&mut px);
    assert_eq!(px, vec![1, 2, 3, 4, 5, 6, 7, 8, 9]);
    assert_eq!(CONTROLLER_ART_MAX_EDGE, 384);
}

#[test]
fn colours_are_converted_and_written() {
    assert_eq!(rgb(0x112233), 0x332211);
    assert_eq!(colorref_hex(rgb(0xA6D1FF)), "#A6D1FF");
    assert_eq!(
        recolored_svg("<a fill=\"currentColor\" stroke=\"currentColor\"/>", rgb(0x00ff0a)),
        "<a fill=\"#00FF0A\" stroke=\"#00FF0A\"/>"
    );
    let p = style_palette(VkStyle::Refined, true);
    assert_eq!(p.bg, 0x1C1615);
    assert_eq!(style_palette(VkStyle::Apple, false).panel_stroke_alpha, 0x14);
}

fn key(action: KeyAction, label: &str, sublabel: Option<&str>) -> KeyCell {
    KeyCell {
        action,
        label: label.to_string(),
        sublabel: sublabel.map(|s| s.to_string()),
    }
}

fn state(style: VkStyle) -> FrameState {
    FrameState {
        style,
        sel: KeyPos { row: 0, col: 0 },
        pressed: Some(KeyPos { row: 0, col: 1 }),
        modifiers: VkModifiers {
            shift: true,
            caps: false,
        },
        icons: ControllerIconFamily::Ps5,
        voice_available: true,
        voice_active: false,
        voice_phase: VoicePhase::Listening,
    }
}

fn rows() -> Vec<KeyRow> {
    vec![
        KeyRow {
            keys: vec![
                key(KeyAction::Char('q'), "q", Some("1")),
                key(KeyAction::Vk(VK_BACK), "Back", None),
                key(KeyAction::Shift, "Shift", None),
            ],
        },
        KeyRow {
            keys: vec![
                key(KeyAction::Symbols, "?123", None),
                key(KeyAction::Vk(VK_SPACE), "Space", Some("EN")),
                key(KeyAction::VoiceInput, "", None),
                key(KeyAction::CloseVk, "", None),
                key(KeyAction::Vk(VK_LEFT), "", None),
                key(KeyAction::Vk(VK_RETURN), "", None),
            ],
        },
    ]
}

#[test]
fn frame_shows_each_key_as_it_is() {
    let faces = plan_frame(&state(VkStyle::Refined), &rows());
    assert_eq!(faces.len(), 2);
    let q = &faces[0][0];
    assert!(q.selected && !q.pressed && q.sublabel);
    assert_eq!(q.fill, FaceFill::Accent);
    assert_eq!(
        q.content,
        FaceContent::Text {
            font: FaceFont::Label,
            lowered: true
        }
    );
    assert_eq!(q.glyph, "q");
    assert_eq!(q.badge, Badge::Absent);
    let back = &faces[0][1];
    assert!(back.pressed);
    assert_eq!(back.fill, FaceFill::Action);
    assert_eq!(
        back.content,
        FaceContent::Icon {
            icon: VkIcon::Backspace,
            large: true
        }
    );
    assert_eq!(back.badge, Badge::Icon(VkIcon::Ps5Circle));
    assert_eq!(
        faces[0][2].content,
        FaceContent::Icon {
            icon: VkIcon::CapsFilled,
            large: false
        }
    );
    assert_eq!(
        faces[1][0].content,
        FaceContent::Text {
            font: FaceFont::Word,
            lowered: false
        }
    );
    assert_eq!(faces[1][1].content, FaceContent::SpaceCaption);
    assert!(!faces[1][1].sublabel);
    assert_eq!(faces[1][1].fill, FaceFill::Key);
    assert_eq!(faces[1][2].content, FaceContent::Mic);
    assert_eq!(
        faces[1][3].content,
        FaceContent::Text {
            font: FaceFont::Symbol,
            lowered: false
        }
    );
    assert_eq!(faces[1][3].glyph, "\u{2325}");
    let p = style_palette(VkStyle::Refined, true);
    let c = face_colors(&p, q);
    assert_eq!((c.fill, c.label, c.badge_text), (p.accent, p.sel_text, p.sel_text));
}

#[test]
fn other_look_and_dictation_change_faces() {
    let mut s = state(VkStyle::Apple);
    s.voice_active = true;
    s.voice_phase = VoicePhase::Transcribing;
    let faces = plan_frame(&s, &rows());
    assert_eq!(faces[0][0].glyph, "Q");
    assert_eq!(faces[1][0].glyph, "123");
    assert_eq!(faces[1][1].content, FaceContent::SpaceWord);
    assert_eq!(
        faces[1][2].content,
        FaceContent::Orb { transcribing: true }
    );
    s.voice_available = false;
    assert_eq!(plan_frame(&s, &rows())[1][2].content, FaceContent::MicOff);
}

fn strip(engaged: bool) -> StripState {
    StripState {
        visible: vec!["one".into(), "".into(), "three".into()],
        engaged,
        highlight_slot: 2,
    }
}

#[test]
fn suggestions_are_shown_in_their_slots() {
    assert_eq!(
        strip_chips(&strip(true)),
        vec![
            Chip {
                slot: 0,
                selected: false
            },
            Chip {
                slot: 2,
                selected: true
            }
        ]
    );
    assert!(strip_chips(&strip(false)).iter().all(|c| !c.selected));
    assert_eq!(
        strip_columns(&strip(true))[1],
        Column {
            separator: true,
            word: false,
            selected: false
        }
    );
    assert_eq!(strip_buttons(true), vec!["LB", "RB"]);
    assert_eq!(strip_buttons(false), vec!["SELECT"]);
    assert!(!strip_is_empty(&strip(true).visible));
    assert!(strip_is_empty(&vec!["".to_string()]));
    assert_eq!(strip_clock(None, true, 5), Some(5));
    assert_eq!(strip_clock(Some(5), true, 9), Some(5));
    assert_eq!(strip_clock(Some(5), false, 9), None);
}

#[test]
fn card_and_cloud_follow_the_pad_and_the_phase() {
    let p = card_plan(true, " for keyboard", "HID slot 0");
    assert_eq!(p.chip, Some(VkIcon::L3Ps5));
    assert!(p.suffix);
    assert_eq!(p.art, Some(ControllerArt::DualSense));
    let p = card_plan(false, "", "Some pad");
    assert_eq!((p.chip, p.suffix, p.art), (None, false, None));
    let mut n = NimbusSlot::new();
    assert_eq!(n.prepare_nimbus(), NimbusStep::Create);
    n.settle(true);
    assert_eq!(n.prepare_nimbus(), NimbusStep::Render);
    n.settle(false);
    assert_eq!(n.prepare_nimbus(), NimbusStep::Nothing);
    n.settle(true);
    assert_eq!(n.prepare_nimbus(), NimbusStep::Nothing);
    assert_eq!(nimbus_mood(VoicePhase::Transcribing), NimbusMood::Thinking);
}

#[test]
fn device_falls_back_to_the_other_driver() {
    let failed = || DeviceAttempt::Failed("no".into());
    assert_eq!(
        create_d3d_device(true, &vec![DeviceAttempt::Created]),
        Ok(Driver::Warp)
    );
    assert_eq!(
        create_d3d_device(false, &vec![failed(), DeviceAttempt::Created]),
        Ok(Driver::Warp)
    );
    assert_eq!(
        create_d3d_device(false, &vec![DeviceAttempt::Null, failed()]),
        Err("D3D11CreateDevice (all driver types): no".to_string())
    );
    assert_eq!(
        create_d3d_device(false, &vec![failed(), DeviceAttempt::Null]),
        Err("D3D11CreateDevice (all driver types): D3D11CreateDevice returned null".to_string())
    );
    assert_eq!(
        create_d3d_device(false, &Vec::new()),
        Err("D3D11CreateDevice (all driver types): no driver attempted".to_string())
    );
}

#[test]
fn renderer_keeps_what_still_fits() {
    let client = ScreenRect {
        left: 0,
        top: 0,
        right: 100,
        bottom: 0,
    };
    assert_eq!(resize((100, 1), &client), None);
    assert_eq!(resize((99, 1), &client), Some((100, 1)));
    assert_eq!(locale_units(6), Some(5));
    assert_eq!(locale_units(1), None);
    let names = families(VkStyle::Apple);
    assert_eq!(resolve_family(&names, &vec![false, true, true, true]), "SF Pro Text");
    assert_eq!(resolve_family(&names, &vec![false, false, false, false]), "Segoe UI");
    assert!(fonts_are_current(Some((VkStyle::Apple, 4)), VkStyle::Apple, 4));
    assert!(!fonts_are_current(None, VkStyle::Apple, 4));
}

#[test]
fn icons_are_rendered_in_their_colour() {
    // 0x0000FF is red for GDI, so only the third and fourth bytes of a pixel are used.
    let red = icon_pixels(VkIcon::Mic, 0x0000FF, 48).unwrap();
    assert_eq!(red.len(), 4 * 48 * 48);
    assert!(red.chunks_exact(4).all(|p| p[0] == 0 && p[1] == 0 && p[2] == p[3]));
    assert!(red.chunks_exact(4).any(|p| p[3] == 255));
    let blue = icon_pixels(VkIcon::Mic, 0xFF0000, 48).unwrap();
    assert!(blue.chunks_exact(4).all(|p| p[0] == p[3] && p[2] == 0));
    // The drawing is as large as asked for.
    let row = |pixels: &[u8], y: usize| pixels[y * 192..(y + 1) * 192].iter().any(|b| *b != 0);
    assert!(row(&red, 5) && row(&red, 42) && !row(&red, 0) && !row(&red, 47));
}

fn draw_at_every_size(icons: &[VkIcon]) {
    for icon in icons {
        assert!(matches!(icon.svg(), IconSource::Inline(_)));
        for px in 12..=192u16 {
            let color = u32::from(px) * 0x01_0307;
            let bitmap = icon_pixels(*icon, color, px).unwrap();
            assert_eq!(bitmap.len(), 4 * px as usize * px as usize);
            assert!(bitmap.chunks_exact(4).any(|p| p[3] > 64), "{icon:?} {px}");
        }
    }
}

#[test]
fn editing_drawings_are_drawn_at_every_size() {
    draw_at_every_size(&[
        VkIcon::Backspace,
        VkIcon::Enter,
        VkIcon::Mic,
        VkIcon::MicOff,
        VkIcon::Space,
    ]);
}

#[test]
fn shifting_drawings_are_drawn_at_every_size() {
    draw_at_every_size(&[
        VkIcon::Shift,
        VkIcon::ShiftFilled,
        VkIcon::Caps,
        VkIcon::CapsFilled,
    ]);
}

#[test]
fn arrow_drawings_are_drawn_at_every_size() {
    draw_at_every_size(&[
        VkIcon::ChevronLeft,
        VkIcon::ChevronRight,
        VkIcon::ChevronUp,
        VkIcon::ChevronDown,
    ]);
}

#[test]
fn gamepad_drawings_are_drawn_at_every_size() {
    draw_at_every_size(&[
        VkIcon::Gamepad,
    ]);
}

#[test]
fn icon_requests_name_text_and_edges() {
    assert_eq!(
        icon_request(VkIcon::Mic, "<svg fill=\"currentColor\"/>", 0x0000FF, 17),
        ("<svg fill=\"#FF0000\"/>".to_string(), 17, 24)
    );
    assert_eq!(
        icon_request(VkIcon::XboxA, "<svg/>", 0, 19),
        ("<svg/>".to_string(), 57, 32)
    );
}

#[test]
fn only_own_drawings_are_rendered() {
    assert!(matches!(
        icon_pixels(VkIcon::XboxA, 0, 12),
        Err(IconFailure::InFile)
    ));
    assert!(matches!(
        icon_bitmap(Err(IconFailure::Alloc)),
        Err(IconFailure::Alloc)
    ));
    assert!(matches!(
        icon_bitmap(Err(IconFailure::Parse("x".to_string()))),
        Err(IconFailure::Parse(e)) if e == "x"
    ));
    assert_eq!(icon_bitmap(Ok(vec![1, 2, 3, 4])).unwrap(), vec![3, 2, 1, 4]);
}

#[test]
fn chips_are_oversampled() {
    assert_eq!(raster_px(VkIcon::Mic, 17), 17);
    assert_eq!(raster_px(VkIcon::XboxA, 17), 54);
    assert_eq!(raster_px(VkIcon::XboxA, 18), 54);
    assert_eq!(raster_px(VkIcon::XboxA, 19), 57);
    assert_eq!(raster_px(VkIcon::XboxA, 192), 576);
}

#[test]
fn shrinking_brings_in_no_new_shades() {
    let (sw, sh) = (7usize, 5usize);
    let src: Vec<u8> = (0..sw * sh * 4).map(|i| (40 + i * 37 % 150) as u8).collect();
    let range = |pixels: &[u8], c: usize| {
        let channel: Vec<u8> = pixels.iter().skip(c).step_by(4).copied().collect();
        (*channel.iter().min().unwrap(), *channel.iter().max().unwrap())
    };
    for (tw, th) in [(1, 1), (3, 2), (4, 4), (7, 1)] {
        let (out, w, h) = downscale_bgra_premul(&src, sw as u32, sh as u32, 1, tw, th);
        assert_eq!((w, h, out.len()), (tw, th, (tw * th * 4) as usize));
        for c in 0..4 {
            let (from, to) = (range(&src, c), range(&out, c));
            assert!(from.0 <= to.0 && to.1 <= from.1);
        }
    }
}

#[test]
fn artwork_is_made_of_what_was_decoded() {
    let frame = |color: u8, bytes: &[u8]| DecodedPng {
        width: 1,
        height: 1,
        color,
        depth: 8,
        bytes: bytes.to_vec(),
    };
    let art = art_bitmap(ControllerArt::DualSense, Ok(frame(2, &[1, 2, 3]))).unwrap();
    assert_eq!((art.width, art.height, art.bgra), (1, 1, vec![3, 2, 1, 255]));
    let art = art_bitmap(ControllerArt::DualSense, Ok(frame(6, &[255, 0, 51, 51]))).unwrap();
    assert_eq!(art.bgra, vec![10, 0, 51, 51]);
    let e = art_bitmap(ControllerArt::DualSense, Ok(frame(0, &[9]))).unwrap_err();
    assert!(e.ends_with(": unsupported PNG color Grayscale"));
    let e = art_bitmap(ControllerArt::XboxOne, Err(PngFailure::UnknownSize)).unwrap_err();
    assert_eq!(e, decode_error(ControllerArt::XboxOne, &PngFailure::UnknownSize));
}
