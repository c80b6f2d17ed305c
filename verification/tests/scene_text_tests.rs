use kiss3d::scene_object::{
    depth_pass_plan, flatten_axes, instance_column, instance_override_column, Bsdf, DepthPassPlan,
    ObjectFlags, ParallaxMethod, SegmentationIds,
};
use kiss3d::text::{
    glyph_quad, lines, next_power_of_two, vertex_capacity, TextBatch, TextEvent, TextEventQueue, TrueTypeFont,
};

#[test]
fn bsdf_tags() {
    assert_eq!(Bsdf::Opaque.tag(), 0);
    assert_eq!(Bsdf::Glass.tag(), 1);
    assert_eq!(Bsdf::Metal.tag(), 2);
    assert_eq!(Bsdf::Emissive.tag(), 3);
}

#[test]
fn parallax_codes() {
    assert_eq!(ParallaxMethod::default_method(), ParallaxMethod::Occlusion);
    assert_eq!(ParallaxMethod::Occlusion.code(), 0);
    assert_eq!(ParallaxMethod::Relief { max_steps: 0 }.code(), 1);
    assert_eq!(ParallaxMethod::Relief { max_steps: 8 }.code(), 8);
    assert_eq!(ParallaxMethod::Relief { max_steps: 1000 }.code(), 64);
}

#[test]
fn segmentation_ids_start_at_one() {
    let mut ids = SegmentationIds::new();
    assert_eq!(ids.next_segmentation_id(), 1);
    assert_eq!(ids.next_segmentation_id(), 2);
    assert_eq!(ids.next_segmentation_id(), 3);
    let mut last = SegmentationIds { next: u32::MAX };
    assert_eq!(last.next_segmentation_id(), u32::MAX);
    assert_eq!(last.next_segmentation_id(), 0);
}

#[test]
fn object_flags() {
    let f = ObjectFlags::new(9);
    assert_eq!(f.render_layers, 1);
    assert_eq!(f.light_layers, u32::MAX);
    assert!(f.casts_shadows());
    assert!(f.visible_to(0b11));
    assert!(!f.visible_to(0b10));
    assert!(f.lit_by(0b1000));
    let g = ObjectFlags { draw_surface: false, ..f };
    assert!(!g.casts_shadows());
    let h = ObjectFlags { casts_shadows: false, ..f };
    assert!(!h.casts_shadows());
}

#[test]
fn instance_columns() {
    assert_eq!(instance_column(&[1u8, 2, 3]), vec![1, 2, 3]);
    assert_eq!(instance_override_column(&[Some(5u32), None, Some(7)], 0), vec![5, 0, 7]);
    assert_eq!(flatten_axes(&[(1u8, 2, 3), (4, 5, 6)]), vec![1, 2, 3, 4, 5, 6]);
    let empty: [(u8, u8, u8); 0] = [];
    assert!(flatten_axes(&empty).is_empty());
}

#[test]
fn depth_pass() {
    assert_eq!(depth_pass_plan(false, true, true, true), None);
    assert_eq!(depth_pass_plan(true, true, false, false), Some(DepthPassPlan { deform: false, with_uvs: false }));
    assert_eq!(depth_pass_plan(true, true, true, true), Some(DepthPassPlan { deform: true, with_uvs: true }));
}

#[test]
fn invalid_font_data_is_refused() {
    assert!(TrueTypeFont::try_from_bytes(&[1, 2, 3, 4]).is_none());
    assert!(TrueTypeFont::try_from_bytes(&[]).is_none());
}

#[test]
fn text_events_queue() {
    let mut q = TextEventQueue::new();
    q.insert_text(&vec!['h', 'é']);
    q.delete_backward();
    assert_eq!(q.take_text_events(), vec![TextEvent::Char('h'), TextEvent::Char('é'), TextEvent::Backspace]);
    assert!(q.take_text_events().is_empty());
}

#[test]
fn vertex_buffer_growth() {
    assert_eq!(next_power_of_two(0), 1);
    assert_eq!(next_power_of_two(1), 1);
    assert_eq!(next_power_of_two(5), 8);
    assert_eq!(next_power_of_two(1024), 1024);
    assert_eq!(next_power_of_two(1025), 2048);
    assert_eq!(vertex_capacity(600, 1024), 1024);
    assert_eq!(vertex_capacity(1500, 1024), 2048);
}

#[test]
fn glyph_quads() {
    assert_eq!(
        glyph_quad((0, 1), (2, 3)),
        [(0, 1), (0, 3), (2, 1), (2, 1), (0, 3), (2, 3)]
    );
}

fn be16(v: &mut Vec<u8>, x: u16) {
    v.extend_from_slice(&x.to_be_bytes());
}

fn be32(v: &mut Vec<u8>, x: u32) {
    v.extend_from_slice(&x.to_be_bytes());
}

/// The smallest TrueType file with the three tables a font needs: `head`,
/// `hhea` and `maxp`.
fn minimal_font() -> Vec<u8> {
    let mut v = Vec::new();
    be32(&mut v, 0x0001_0000);
    be16(&mut v, 3);
    be16(&mut v, 0);
    be16(&mut v, 0);
    be16(&mut v, 0);
    let tables: [(&[u8; 4], u32, u32); 3] = [(b"head", 60, 54), (b"hhea", 114, 36), (b"maxp", 150, 6)];
    for (tag, offset, len) in tables.iter() {
        v.extend_from_slice(&tag[..]);
        be32(&mut v, 0);
        be32(&mut v, *offset);
        be32(&mut v, *len);
    }
    // head: units per em 1000 at byte 18, short index format at byte 50
    let mut head = vec![0u8; 54];
    head[18] = 0x03;
    head[19] = 0xE8;
    v.extend_from_slice(&head);
    v.extend_from_slice(&[0u8; 36]);
    be32(&mut v, 0x0000_5000);
    be16(&mut v, 1);
    v
}

#[test]
fn valid_font_data_is_read() {
    let data = minimal_font();
    assert_eq!(data.len(), 156);
    assert!(TrueTypeFont::try_from_bytes(&data).is_some());
    assert!(TrueTypeFont::from_bytes(&data).is_some());
    // cutting a table short makes it unreadable
    assert!(TrueTypeFont::try_from_bytes(&data[..150]).is_none());
}

#[test]
fn text_batch_gives_back_each_text() {
    let mut b: TextBatch<u8> = TextBatch::new();
    b.draw_text("héllo", 1);
    b.draw_text("", 2);
    b.draw_text("wörld\n!", 3);
    assert_eq!(b.len(), 3);
    assert_eq!(b.segment(0), ("héllo", &1));
    assert_eq!(b.segment(1), ("", &2));
    assert_eq!(b.segment(2), ("wörld\n!", &3));
    b.clear();
    assert_eq!(b.len(), 0);
}

#[test]
fn line_splitting() {
    assert!(lines("").is_empty());
    assert_eq!(lines("abc"), vec![(0, 3)]);
    assert_eq!(lines("ab\ncd"), vec![(0, 2), (3, 5)]);
    assert_eq!(lines("ab\r\ncd\n"), vec![(0, 2), (4, 6)]);
    assert_eq!(lines("\n"), vec![(0, 0)]);
    assert_eq!(lines("a\rb"), vec![(0, 3)]);
    assert_eq!(lines("é\nü"), vec![(0, 1), (2, 3)]);
    // the same lines as std
    let t = "one\r\ntwo\n\nthree\r";
    let chars: Vec<char> = t.chars().collect();
    let mine: Vec<String> = lines(t).iter().map(|&(a, b)| chars[a..b].iter().collect()).collect();
    let std_lines: Vec<String> = t.lines().map(|l| l.to_string()).collect();
    assert_eq!(mine, std_lines);
}

#[test]
fn segmentation_ids_over_calls_are_distinct_and_nonzero() {
    let mut ids = SegmentationIds::new();
    let mut seen: Vec<u32> = Vec::new();
    for i in 0..100u32 {
        let id = ids.next_segmentation_id();
        assert_eq!(id, i + 1);
        assert_ne!(id, 0);
        assert!(!seen.contains(&id));
        seen.push(id);
    }
}

#[test]
fn empty_font_data_gives_none() {
    assert!(TrueTypeFont::from_bytes(&[]).is_none());
    assert!(TrueTypeFont::from_bytes(&[0, 1, 0, 0]).is_none());
}
