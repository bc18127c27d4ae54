use rascam::frames::{take_one_bytes, take_video_frames};
use rascam::{FrameAssembler, Message};

fn data(bytes: &[u8], frame_end: bool) -> Message {
    Message::Data { bytes: bytes.to_vec(), frame_end }
}

#[test]
fn still_is_the_sum_of_its_chunks() {
    let msgs = vec![data(&[1, 2], false), data(&[3], false), data(&[4, 5, 6], true)];
    let image = take_one_bytes(&msgs);
    assert_eq!(image, vec![1, 2, 3, 4, 5, 6]);
    assert_eq!(image.len(), 2 + 1 + 3);
}

#[test]
fn still_reads_nothing_after_the_closing_chunk() {
    let msgs = vec![data(&[1], false), data(&[2], true), data(&[9, 9], false), Message::End];
    assert_eq!(take_one_bytes(&msgs), vec![1, 2]);
}

#[test]
fn still_cut_short_by_end_of_stream() {
    let msgs = vec![data(&[1], false), Message::End, data(&[2], true)];
    assert_eq!(take_one_bytes(&msgs), vec![1]);
    assert_eq!(take_one_bytes(&vec![]), Vec::<u8>::new());
}

#[test]
fn video_frames_end_at_boundaries() {
    let msgs = vec![
        data(&[1, 2], false),
        data(&[3], true),
        data(&[4], true),
        data(&[5], false),
        data(&[6], false),
        data(&[7], true),
        data(&[8], false),
    ];
    assert_eq!(take_video_frames(&msgs), vec![vec![1, 2, 3], vec![4], vec![5, 6, 7]]);
}

#[test]
fn video_sequence_is_finite_after_halt() {
    let mut msgs = Vec::new();
    for i in 0..30u8 {
        msgs.push(data(&[i, i], false));
        msgs.push(data(&[i], true));
    }
    msgs.push(data(&[99], false));
    msgs.push(Message::End);
    msgs.push(data(&[100], true));
    let frames = take_video_frames(&msgs);
    assert_eq!(frames.len(), 30);
    assert_eq!(frames[29], vec![29, 29, 29]);
}

#[test]
fn assembler_hands_out_whole_frames() {
    let mut a = FrameAssembler::new();
    assert_eq!(a.push(&[1, 2], false), None);
    assert_eq!(a.push(&[3], true), Some(vec![1, 2, 3]));
    assert_eq!(a.push(&[4], false), None);
    assert_eq!(a.finish(), vec![4]);
}
