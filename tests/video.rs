use crossbeam_channel::TrySendError;
use megacli_video::compositor::{
    compose, frame_queue, place, Glyph, Opacity, Placement, VideoBackground, FRAME_QUEUE_CAPACITY,
};
use megacli_video::frame::{cell_count, to_ascii_frame, AsciiFrame, Raster};
use megacli_video::mapper::{glyph_index, luminance, AsciiMapper};
use megacli_video::pipeline::{Action, Event, Phase, Worker, MAX_CONSECUTIVE_FAULTS};
use ratatui::buffer::Buffer;
use ratatui::layout::Rect;
use ratatui::style::Color;

fn palette_of(n: usize) -> Vec<char> {
    (0..n).map(|i| char::from_u32(0x21 + i as u32).unwrap()).collect()
}

fn solid_frame(w: u16, h: u16) -> AsciiFrame {
    let cells = (0..(w as usize * h as usize))
        .map(|i| (char::from_u32(0x41 + (i % 26) as u32).unwrap(), i as u8, 2 * i as u8, 200))
        .collect();
    AsciiFrame::new(w, h, cells).unwrap()
}

#[test]
fn luminance_rounds_weighted_sum() {
    assert_eq!(luminance(0, 0, 0), 0);
    assert_eq!(luminance(255, 255, 255), 255);
    assert_eq!(luminance(255, 0, 0), 76);
    assert_eq!(luminance(0, 255, 0), 150);
    assert_eq!(luminance(0, 0, 255), 29);
    assert_eq!(luminance(100, 100, 100), 100);
}

#[test]
fn glyph_index_endpoints_and_order() {
    assert_eq!(glyph_index(0, 69), 0);
    assert_eq!(glyph_index(255, 69), 68);
    assert_eq!(glyph_index(128, 69), 128 * 68 / 255);
    assert_eq!(glyph_index(200, 1), 0);
    let mut last = 0;
    for y in 0..=255u8 {
        let i = glyph_index(y, 71);
        assert!(i >= last);
        assert!(i < 71);
        last = i;
    }
}

#[test]
fn standard_mapper_extremes() {
    let m = AsciiMapper::standard();
    assert_eq!(m.palette_len(), 69);
    assert_eq!(m.ascii_for(0, 0, 0), ' ');
    assert_eq!(m.ascii_for(255, 255, 255), '$');
}

#[test]
fn empty_palette_is_rejected() {
    assert!(AsciiMapper::new(Vec::new()).is_none());
    assert!(AsciiMapper::new(vec!['x']).is_some());
}

#[test]
fn white_pixel_end_to_end() {
    let palette = palette_of(71);
    let m = AsciiMapper::new(palette.clone()).unwrap();
    let raster = Raster::new(1, 1, 3, vec![255, 255, 255]).unwrap();
    let f = to_ascii_frame(&m, &raster);
    assert_eq!(f.cells().len(), 1);
    assert_eq!(f.cells()[0], (palette[70], 255, 255, 255));
    let o = Opacity::from_per_mille(500);
    let area = Rect::new(0, 0, 1, 1);
    let gs = compose(&f, o, area);
    assert_eq!(gs, vec![Glyph { x: 0, y: 0, ch: palette[70], r: 127, g: 127, b: 127 }]);
}

#[test]
fn frame_has_width_times_height_cells() {
    let m = AsciiMapper::standard();
    let data: Vec<u8> = (0..(5 * 16)).map(|i| i as u8).collect();
    let raster = Raster::new(4, 5, 16, data.clone()).unwrap();
    let f = to_ascii_frame(&m, &raster);
    assert_eq!(f.width(), 4);
    assert_eq!(f.height(), 5);
    assert_eq!(f.cells().len(), 20);
    let (ch, r, g, b) = f.cells()[2 * 4 + 1];
    assert_eq!((r, g, b), (data[2 * 16 + 3], data[2 * 16 + 4], data[2 * 16 + 5]));
    assert_eq!(ch, m.ascii_for(r, g, b));
    assert_eq!(cell_count(300, 200), 60000);
}

#[test]
fn raster_must_fit_its_data() {
    assert!(Raster::new(2, 2, 6, vec![0; 12]).is_some());
    assert!(Raster::new(2, 2, 8, vec![0; 14]).is_some());
    assert!(Raster::new(2, 2, 8, vec![0; 13]).is_none());
    assert!(Raster::new(2, 2, 5, vec![0; 100]).is_none());
    assert!(Raster::new(3, 0, 9, Vec::new()).is_some());
    assert!(Raster::new(3, 0, 2, Vec::new()).is_none());
}

#[test]
fn frame_cell_count_is_checked() {
    assert!(AsciiFrame::new(2, 3, vec![(' ', 0, 0, 0); 6]).is_some());
    assert!(AsciiFrame::new(2, 3, vec![(' ', 0, 0, 0); 5]).is_none());
    assert!(AsciiFrame::new(0, 0, Vec::new()).is_some());
}

#[test]
fn opacity_is_clamped() {
    assert_eq!(Opacity::from_per_mille(1500), Opacity::from_per_mille(1000));
    assert_eq!(Opacity::from_per_mille(-200), Opacity::from_per_mille(0));
    assert_eq!(Opacity::from_per_mille(1500).per_mille(), 1000);
    assert_eq!(Opacity::from_per_mille(-200).per_mille(), 0);
    assert_eq!(Opacity::from_per_mille(300).per_mille(), 300);
}

#[test]
fn opacity_dims_toward_black() {
    assert_eq!(Opacity::from_per_mille(1000).dim(200), 200);
    assert_eq!(Opacity::from_per_mille(0).dim(200), 0);
    assert_eq!(Opacity::from_per_mille(500).dim(255), 127);
    assert_eq!(Opacity::from_per_mille(300).dim(100), 30);
}

#[test]
fn small_frame_is_centred() {
    let p = place(4, 4, Rect::new(0, 0, 10, 10));
    assert_eq!(p, Placement { x0: 3, y0: 3, width: 4, height: 4 });
    let p = place(4, 4, Rect::new(2, 1, 9, 10));
    assert_eq!(p, Placement { x0: 4, y0: 4, width: 4, height: 4 });
    let f = solid_frame(4, 4);
    let gs = compose(&f, Opacity::from_per_mille(1000), Rect::new(0, 0, 10, 10));
    assert_eq!(gs.len(), 16);
    assert_eq!((gs[0].x, gs[0].y), (3, 3));
    assert_eq!((gs[15].x, gs[15].y), (6, 6));
}

#[test]
fn large_frame_is_clipped() {
    let f = solid_frame(10, 10);
    let gs = compose(&f, Opacity::from_per_mille(1000), Rect::new(0, 0, 3, 3));
    assert_eq!(gs.len(), 9);
    for (k, gl) in gs.iter().enumerate() {
        let (col, row) = (k % 3, k / 3);
        assert_eq!((gl.x as usize, gl.y as usize), (col, row));
        let cell = f.cells()[row * 10 + col];
        assert_eq!((gl.ch, gl.r, gl.g, gl.b), cell);
    }
}

#[test]
fn empty_area_draws_nothing() {
    let f = solid_frame(4, 4);
    assert!(compose(&f, Opacity::from_per_mille(1000), Rect::new(5, 5, 0, 0)).is_empty());
}

#[test]
fn render_writes_only_the_drawn_region() {
    let (tx, rx) = frame_queue();
    let mut bg = VideoBackground::new(rx, Opacity::from_per_mille(500));
    let area = Rect::new(0, 0, 6, 4);
    let mut buf = Buffer::empty(area);
    bg.render_background(&mut buf, area);
    assert_eq!(buf, Buffer::empty(area));

    let f = AsciiFrame::new(2, 2, vec![('a', 255, 100, 10), ('b', 0, 0, 0), ('c', 9, 9, 9), ('d', 1, 2, 3)]).unwrap();
    tx.try_send(f).unwrap();
    bg.update();
    bg.render_background(&mut buf, area);
    assert_eq!(buf[(2, 1)].symbol(), "a");
    assert_eq!(buf[(2, 1)].fg, Color::Rgb(127, 50, 5));
    assert_eq!(buf[(3, 1)].symbol(), "b");
    assert_eq!(buf[(2, 2)].symbol(), "c");
    assert_eq!(buf[(3, 2)].symbol(), "d");
    assert_eq!(buf[(0, 0)], Buffer::empty(area)[(0, 0)]);
    assert_eq!(buf[(4, 1)], Buffer::empty(area)[(4, 1)]);
}

#[test]
fn update_on_empty_queue_keeps_frame() {
    let (tx, rx) = frame_queue();
    let mut bg = VideoBackground::new(rx, Opacity::from_per_mille(1000));
    bg.update();
    assert!(bg.latest().is_none());
    tx.try_send(solid_frame(2, 1)).unwrap();
    bg.update();
    let before = bg.latest().as_ref().unwrap().cells().clone();
    bg.update();
    bg.update();
    assert_eq!(bg.latest().as_ref().unwrap().cells(), &before);
    bg.accept(None);
    assert_eq!(bg.latest().as_ref().unwrap().cells(), &before);
}

#[test]
fn update_takes_one_frame_per_tick() {
    let (tx, rx) = frame_queue();
    let mut bg = VideoBackground::new(rx, Opacity::from_per_mille(1000));
    tx.try_send(solid_frame(1, 1)).unwrap();
    tx.try_send(solid_frame(2, 1)).unwrap();
    bg.update();
    assert_eq!(bg.latest().as_ref().unwrap().width(), 1);
    bg.update();
    assert_eq!(bg.latest().as_ref().unwrap().width(), 2);
}

#[test]
fn queue_holds_at_most_capacity_frames() {
    let (tx, _rx) = frame_queue();
    for _ in 0..FRAME_QUEUE_CAPACITY {
        assert!(tx.try_send(solid_frame(1, 1)).is_ok());
    }
    assert!(matches!(tx.try_send(solid_frame(1, 1)), Err(TrySendError::Full(_))));
}

#[test]
fn publish_to_dropped_display_stops_worker() {
    let (tx, rx) = frame_queue();
    drop(rx);
    let (w, _) = Worker::start(0);
    let (w, a) = w.step(Event::FrameReady);
    assert_eq!(a, Action::Publish);
    let event = if tx.try_send(solid_frame(1, 1)).is_ok() { Event::Published } else { Event::PublishFailed };
    let (w, a) = w.step(event);
    assert_eq!(a, Action::Exit);
    assert!(w.is_stopped());
    assert_eq!(w.step(Event::Rewound), (w, Action::Exit));
}

#[test]
fn other_streams_are_skipped() {
    let (w, a) = Worker::start(1);
    assert_eq!(a, Action::ReadPacket);
    assert_eq!(w.step(Event::Packet { stream: 0 }), (w, Action::ReadPacket));
    assert_eq!(w.step(Event::Packet { stream: 1 }), (w, Action::SubmitPacket));
}

#[test]
fn repeated_faults_stop_the_worker() {
    let (mut w, _) = Worker::start(0);
    for i in 1..MAX_CONSECUTIVE_FAULTS {
        let (next, a) = w.step(Event::Fault);
        assert_eq!(a, Action::Rewind);
        assert_eq!(next.faults, i);
        assert_eq!(next.phase, Phase::Restarting);
        let (next, a) = next.step(Event::Rewound);
        assert_eq!(a, Action::ReadPacket);
        w = next;
    }
    let (w, a) = w.step(Event::Fault);
    assert_eq!(a, Action::Exit);
    assert!(w.is_stopped());
}

#[test]
fn publishing_clears_faults() {
    let (w, _) = Worker::start(0);
    let (w, _) = w.step(Event::Fault);
    let (w, _) = w.step(Event::Rewound);
    assert_eq!(w.faults, 1);
    let (w, _) = w.step(Event::FrameReady);
    let (w, a) = w.step(Event::Published);
    assert_eq!(a, Action::ReceiveFrame);
    assert_eq!(w.faults, 0);
}

#[test]
fn unexpected_event_stops_worker() {
    let (w, _) = Worker::start(0);
    let (w, a) = w.step(Event::Rewound);
    assert_eq!(a, Action::Exit);
    assert_eq!(w.phase, Phase::Stopped);
}

/// Runs the worker over a synthetic source whose packets each decode to one
/// frame, with the decoder holding back the last one until end of stream;
/// returns the first `want` frames published.
fn run_synthetic(source: &[Vec<u8>], want: usize) -> Vec<AsciiFrame> {
    let m = AsciiMapper::standard();
    let (tx, rx) = frame_queue();
    let (mut w, mut action) = Worker::start(0);
    let mut next_packet = 0usize;
    let mut held: Vec<usize> = Vec::new();
    let mut flushing = false;
    let mut ready: Option<AsciiFrame> = None;
    let mut out = Vec::new();
    while out.len() < want {
        let event = match action {
            Action::ReadPacket => {
                if next_packet < source.len() {
                    next_packet += 1;
                    Event::Packet { stream: 0 }
                } else {
                    Event::PacketsExhausted
                }
            }
            Action::SubmitPacket => {
                held.push(next_packet - 1);
                Event::Submitted
            }
            Action::SubmitEndOfStream => {
                flushing = true;
                Event::Submitted
            }
            Action::ReceiveFrame => {
                if held.len() > 1 || (flushing && !held.is_empty()) {
                    let i = held.remove(0);
                    let raster = Raster::new(2, 1, 6, source[i].clone()).unwrap();
                    ready = Some(to_ascii_frame(&m, &raster));
                    Event::FrameReady
                } else {
                    Event::DecoderEmpty
                }
            }
            Action::Publish => {
                tx.send(ready.take().unwrap()).unwrap();
                out.push(rx.try_recv().unwrap());
                Event::Published
            }
            Action::Rewind => {
                next_packet = 0;
                held.clear();
                flushing = false;
                Event::Rewound
            }
            Action::Exit => break,
        };
        let (next, a) = w.step(event);
        w = next;
        action = a;
    }
    out
}

#[test]
fn fourth_frame_of_three_frame_source_repeats_first() {
    let source = vec![vec![0, 0, 0, 255, 255, 255], vec![10, 20, 30, 40, 50, 60], vec![90, 0, 9, 0, 200, 3]];
    let out = run_synthetic(&source, 7);
    assert_eq!(out.len(), 7);
    assert_eq!(out[3].cells(), out[0].cells());
    assert_eq!(out[4].cells(), out[1].cells());
    assert_eq!(out[5].cells(), out[2].cells());
    assert_eq!(out[6].cells(), out[0].cells());
    assert_ne!(out[0].cells(), out[1].cells());
}

#[test]
fn frame_queue_reports_its_bound() {
    let (tx, rx) = frame_queue();
    assert_eq!(tx.capacity(), Some(FRAME_QUEUE_CAPACITY));
    assert_eq!(rx.capacity(), Some(8));
}
