use zinnia::chunkbuffer::ChunkBuffer;

fn feed(buffer: &mut ChunkBuffer<i16>, runs: &[Vec<i16>]) -> Vec<Vec<i16>> {
    let mut frames = Vec::new();
    for run in runs {
        buffer.push_slice(run);
        if buffer.full() {
            frames.push(buffer.pop().unwrap());
        }
    }
    frames
}

#[test]
fn new_buffer_is_not_full() {
    let buffer: ChunkBuffer<i16> = ChunkBuffer::new(4);
    assert!(!buffer.full());
}

#[test]
fn pop_on_empty_buffer_gives_nothing() {
    let mut buffer: ChunkBuffer<i16> = ChunkBuffer::new(4);
    assert_eq!(buffer.pop(), None);
    buffer.push_slice(&[1, 2, 3]);
    assert!(!buffer.full());
    assert_eq!(buffer.pop(), None);
}

#[test]
fn pop_drains_the_only_full_slot() {
    let mut buffer: ChunkBuffer<i16> = ChunkBuffer::new(4);
    buffer.push_slice(&[1, 2, 3, 4]);
    assert!(buffer.full());
    assert_eq!(buffer.pop(), Some(vec![1, 2, 3, 4]));
    assert!(!buffer.full());
    assert_eq!(buffer.pop(), None);
}

#[test]
fn runs_split_across_slots() {
    let mut buffer: ChunkBuffer<i16> = ChunkBuffer::new(4);
    buffer.push_slice(&[1, 2, 3]);
    buffer.push_slice(&[4, 5]);
    assert!(buffer.full());
    assert_eq!(buffer.pop(), Some(vec![1, 2, 3, 4]));
    buffer.push_slice(&[6, 7, 8]);
    assert_eq!(buffer.pop(), Some(vec![5, 6, 7, 8]));
    assert!(!buffer.full());
}

#[test]
fn frames_concatenate_to_input() {
    let runs = vec![vec![1, 2, 3], vec![4, 5], vec![6], vec![7, 8, 9], vec![10, 11, 12]];
    let mut buffer: ChunkBuffer<i16> = ChunkBuffer::new(3);
    let frames = feed(&mut buffer, &runs);
    assert_eq!(frames.len(), 12 / 3);
    let joined: Vec<i16> = frames.concat();
    assert_eq!(joined, (1..=12).collect::<Vec<i16>>());
    assert!(!buffer.full());
}

#[test]
fn long_run_keeps_only_last_frame() {
    let mut buffer: ChunkBuffer<i16> = ChunkBuffer::new(4);
    buffer.push_slice(&[100, 101]);
    let run: Vec<i16> = (1..=10).collect();
    buffer.push_slice(&run);
    assert!(buffer.full());
    assert_eq!(buffer.pop(), Some(vec![7, 8, 9, 10]));
    buffer.push_slice(&[11, 12, 13]);
    assert!(!buffer.full());
    buffer.push_slice(&[14]);
    assert_eq!(buffer.pop(), Some(vec![11, 12, 13, 14]));
}

#[test]
fn unpopped_frame_is_replaced_by_newer_one() {
    let mut buffer: ChunkBuffer<i16> = ChunkBuffer::new(2);
    buffer.push_slice(&[1, 2]);
    buffer.push_slice(&[3, 4]);
    assert_eq!(buffer.pop(), Some(vec![3, 4]));
    assert!(!buffer.full());
}

#[test]
fn frame_of_size_one() {
    let mut buffer: ChunkBuffer<i16> = ChunkBuffer::new(1);
    buffer.push_slice(&[]);
    assert!(!buffer.full());
    buffer.push_slice(&[9]);
    assert_eq!(buffer.pop(), Some(vec![9]));
}
