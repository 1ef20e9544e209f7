use vst_gui::buffer::{Upload, VertexBuffer};
use vst_gui::frame::{Frame, Outcome, Step, MAX_RESIZES};

#[test]
fn frame_begins_without_resizes() {
    assert_eq!(Frame::begin(), Frame { resizes: 0 });
    assert_eq!(MAX_RESIZES, 8);
}

#[test]
fn new_quads_are_uploaded() {
    let quads: Vec<u8> = vec![7, 8, 9];
    let step = Frame::begin().advance(Outcome::Draw(quads), (256, 256), 4096);
    assert_eq!(step, Step::Upload(vec![7, 8, 9]));
}

#[test]
fn no_quads_are_uploaded_as_none() {
    let step = Frame::begin().advance(Outcome::<u8>::Draw(Vec::new()), (256, 256), 4096);
    assert_eq!(step, Step::Upload(Vec::new()));
}

#[test]
fn unchanged_text_reuses_the_buffer() {
    let step = Frame::begin().advance(Outcome::<u8>::Redraw, (256, 256), 4096);
    assert_eq!(step, Step::Reuse);
}

#[test]
fn small_atlas_is_resized_to_the_suggestion() {
    let step = Frame::begin().advance(Outcome::<u8>::TooSmall { suggested: (512, 512) }, (256, 256), 4096);
    assert_eq!(step, Step::Retry { frame: Frame { resizes: 1 }, width: 512, height: 512 });
}

#[test]
fn small_atlas_is_resized_to_the_bound_at_most() {
    let step = Frame::begin().advance(Outcome::<u8>::TooSmall { suggested: (8192, 8192) }, (4096, 2048), 4096);
    assert_eq!(step, Step::Retry { frame: Frame { resizes: 1 }, width: 4096, height: 4096 });
}

#[test]
fn atlas_at_bound_is_resized_beyond_it() {
    let step = Frame::begin().advance(Outcome::<u8>::TooSmall { suggested: (8192, 8192) }, (4096, 4096), 4096);
    assert_eq!(step, Step::Retry { frame: Frame { resizes: 1 }, width: 8192, height: 8192 });
}

#[test]
fn last_resize_is_still_granted() {
    let frame = Frame { resizes: 7 };
    let step = frame.advance(Outcome::<u8>::TooSmall { suggested: (512, 512) }, (256, 256), 4096);
    assert_eq!(step, Step::Retry { frame: Frame { resizes: 8 }, width: 512, height: 512 });
}

#[test]
fn frame_is_abandoned_after_the_cap() {
    let frame = Frame { resizes: 8 };
    let step = frame.advance(Outcome::<u8>::TooSmall { suggested: (512, 512) }, (256, 256), 4096);
    assert_eq!(step, Step::Abandon);
}

#[test]
fn frame_beyond_the_cap_is_abandoned_too() {
    let frame = Frame { resizes: u32::MAX };
    let step = frame.advance(Outcome::<u8>::TooSmall { suggested: (512, 512) }, (256, 256), 4096);
    assert_eq!(step, Step::Abandon);
}

#[test]
fn frame_at_the_cap_still_draws() {
    let frame = Frame { resizes: 8 };
    assert_eq!(frame.advance(Outcome::Draw(vec![1u8]), (256, 256), 4096), Step::Upload(vec![1u8]));
    assert_eq!(frame.advance(Outcome::<u8>::Redraw, (256, 256), 4096), Step::Reuse);
}

#[test]
fn oscillating_suggestions_end_after_eight_resizes() {
    let max: u32 = 4096;
    let mut frame = Frame::begin();
    let mut current: (u32, u32) = (64, 64);
    let mut resizes: u32 = 0;
    let mut passes: u32 = 0;
    loop {
        passes += 1;
        let suggested: (u32, u32) = if passes % 2 == 1 { (128, 128) } else { (64, 64) };
        match frame.advance(Outcome::<u8>::TooSmall { suggested }, current, max) {
            Step::Retry { frame: next, width, height } => {
                assert_eq!((width, height), suggested);
                frame = next;
                current = (width, height);
                resizes += 1;
            }
            Step::Abandon => break,
            other => panic!("unexpected step {:?}", other),
        }
    }
    assert_eq!(resizes, 8);
    assert_eq!(passes, 9);
}

#[test]
fn two_glyphs_into_a_small_atlas_take_one_resize() {
    // "Hi" at size 50 does not fit an atlas of 64x64: the cache asks for
    // twice the size, then lays out one quad per glyph.
    let max: u32 = 16384;
    let mut atlas: (u32, u32) = (64, 64);
    let mut reports: Vec<Outcome<[u32; 13]>> = vec![
        Outcome::Draw(vec![[1; 13], [2; 13]]),
        Outcome::TooSmall { suggested: (128, 128) },
    ];
    let mut buffer = VertexBuffer::new();
    let mut frame = Frame::begin();
    let mut resizes: u32 = 0;
    let uploaded: Vec<[u32; 13]>;
    loop {
        let report = reports.pop().unwrap();
        match frame.advance(report, atlas, max) {
            Step::Retry { frame: next, width, height } => {
                atlas = (width, height);
                frame = next;
                resizes += 1;
            }
            Step::Upload(vertices) => {
                uploaded = vertices;
                break;
            }
            other => panic!("unexpected step {:?}", other),
        }
    }
    assert_eq!(resizes, 1);
    assert_eq!(atlas, (128, 128));
    assert_eq!(uploaded.len(), 2);
    assert_eq!(buffer.upload(uploaded.len()), Upload::Reallocate { bytes: 104 });
    assert_eq!(buffer.vertex_count(), 2);
    assert!(reports.is_empty());
}
